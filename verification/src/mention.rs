//! Mention extraction: turns a message text and its ordered entity list
//! into a resolved target identity plus the trailing title text. Entity
//! offsets and lengths are UTF-16 code-unit counts, the unit the chat
//! protocol measures in, and are converted to character indices before any
//! slicing.

use vstd::prelude::*;
use crate::text::aligned;
use crate::text::char_index_at;
use crate::text::char_index_of;
use crate::text::lemma_char_index_unique;
use crate::text::lemma_utf16_prefix_mono;
use crate::text::skip_ws_from;
use crate::text::trim_start;
use crate::text::utf16_len;

verus! {

/// Kind of one inbound message entity.
pub enum EntityKind {
    /// an `@username` reference not yet bound to a numeric identity
    BareMention,
    /// a mention the chat protocol already bound to a known identity
    ResolvedMention { user_id: u64, display_name: String },
    /// any entity kind that is not a mention
    Other,
}

/// One inbound message entity: a kind plus a span measured in UTF-16 code
/// units over the message text.
pub struct Entity {
    pub kind: EntityKind,
    pub offset: u32,
    pub length: u32,
}

/// Mathematical image of [`EntityKind`].
pub ghost enum EntityKindView {
    BareMention,
    ResolvedMention { user_id: u64, display_name: Seq<char> },
    Other,
}

/// Mathematical image of [`Entity`].
pub ghost struct EntityView {
    pub kind: EntityKindView,
    pub offset: nat,
    pub length: nat,
}

impl View for EntityKind {
    type V = EntityKindView;

    open spec fn view(&self) -> EntityKindView {
        match self {
            EntityKind::BareMention => EntityKindView::BareMention,
            EntityKind::ResolvedMention { user_id, display_name } => (
            EntityKindView::ResolvedMention {
                user_id: *user_id,
                display_name: display_name@,
            }),
            EntityKind::Other => EntityKindView::Other,
        }
    }
}

impl View for Entity {
    type V = EntityView;

    open spec fn view(&self) -> EntityView {
        EntityView { kind: self.kind@, offset: self.offset as nat, length: self.length as nat }
    }
}

/// The views of a list of entities.
pub open spec fn view_entities(es: Seq<Entity>) -> Seq<EntityView> {
    es.map_values(|e: Entity| e@)
}

/// The entity kinds that qualify as mentions.
pub open spec fn is_mention_kind(k: EntityKindView) -> bool {
    k is BareMention || k is ResolvedMention
}

/// Index of the first mention-kind entity, scanning in order.
pub open spec fn first_mention_idx(es: Seq<EntityView>) -> Option<int>
    decreases es.len(),
{
    if es.len() == 0 {
        None
    } else if is_mention_kind(es[0].kind) {
        Some(0int)
    } else {
        match first_mention_idx(es.drop_first()) {
            None => None,
            Some(i) => Some(i + 1),
        }
    }
}

/// A mention entity's span falls on character boundaries of the text; a
/// bare mention additionally spans at least the leading `@`.
pub open spec fn wf_mention_entity(text: Seq<char>, e: EntityView) -> bool {
    &&& aligned(text, e.offset)
    &&& aligned(text, e.offset + e.length)
    &&& (e.kind is BareMention ==> e.length >= 1 && aligned(text, e.offset + 1))
}

/// Every mention-kind entity of the list is well formed over the text.
pub open spec fn wf_entities(text: Seq<char>, es: Seq<EntityView>) -> bool {
    forall|i: int|
        0 <= i < es.len() && is_mention_kind(#[trigger] es[i].kind) ==> wf_mention_entity(
            text,
            es[i],
        )
}

/// The target of a mention before any lookup: either a bare username still
/// to be resolved, or an identity the protocol attached directly.
pub enum MentionRef {
    Bare { username: String },
    Resolved { user_id: u64, display_name: String },
}

/// Mathematical image of [`MentionRef`].
pub ghost enum MentionRefView {
    Bare { username: Seq<char> },
    Resolved { user_id: u64, display_name: Seq<char> },
}

impl View for MentionRef {
    type V = MentionRefView;

    open spec fn view(&self) -> MentionRefView {
        match self {
            MentionRef::Bare { username } => (MentionRefView::Bare { username: username@ }),
            MentionRef::Resolved { user_id, display_name } => (MentionRefView::Resolved {
                user_id: *user_id,
                display_name: display_name@,
            }),
        }
    }
}

/// What extraction yields before resolution: the mention target and the
/// trailing title text, already trimmed of leading whitespace.
pub struct MentionPlan {
    pub mention: MentionRef,
    pub title: String,
}

/// Mathematical image of [`MentionPlan`].
pub ghost struct MentionPlanView {
    pub mention: MentionRefView,
    pub title: Seq<char>,
}

impl View for MentionPlan {
    type V = MentionPlanView;

    open spec fn view(&self) -> MentionPlanView {
        MentionPlanView { mention: self.mention@, title: self.title@ }
    }
}

/// Why a title command fails before the workflow starts.
#[derive(Clone, Copy, PartialEq, Eq, Structural, Debug)]
pub enum ExtractError {
    /// the entity list holds no mention-kind entity
    NoMentionFound,
    /// the title command has no title text after the mention
    MissingTitle,
    /// the username lookup answered that the name does not resolve
    ResolutionError,
    /// the username lookup failed to reach the service
    TransportError,
}

/// A numeric identity with the name replies show for it.
pub struct ResolvedTarget {
    pub user_id: u64,
    pub display_name: String,
}

/// Mathematical image of [`ResolvedTarget`].
pub ghost struct ResolvedTargetView {
    pub user_id: u64,
    pub display_name: Seq<char>,
}

impl View for ResolvedTarget {
    type V = ResolvedTargetView;

    open spec fn view(&self) -> ResolvedTargetView {
        ResolvedTargetView { user_id: self.user_id, display_name: self.display_name@ }
    }
}

/// A fully resolved title mutation: the target plus the trimmed title text,
/// empty exactly for a title-clear.
pub struct TitleRequest {
    pub target: ResolvedTarget,
    pub title: String,
}

/// Mathematical image of [`TitleRequest`].
pub ghost struct TitleRequestView {
    pub target: ResolvedTargetView,
    pub title: Seq<char>,
}

impl View for TitleRequest {
    type V = TitleRequestView;

    open spec fn view(&self) -> TitleRequestView {
        TitleRequestView { target: self.target@, title: self.title@ }
    }
}

/// What the secondary session answered for a bare username, or that no
/// lookup was needed.
#[derive(Clone, Copy, PartialEq, Eq, Structural, Debug)]
pub enum LookupOutcome {
    /// the mention carried its identity already
    NotNeeded,
    /// the username resolved to this numeric identity
    Found { user_id: u64 },
    /// the service answered that the name does not resolve
    NotFound,
    /// the service could not be reached
    TransportFailed,
}

/// What extraction yields for a well-formed text and entity list.
pub open spec fn extract_spec(text: Seq<char>, es: Seq<EntityView>) -> Result<
    MentionPlanView,
    ExtractError,
> {
    match first_mention_idx(es) {
        None => Err(ExtractError::NoMentionFound),
        Some(i) => {
            let e = es[i];
            let end = char_index_of(text, e.offset + e.length);
            let title = trim_start(text.skip(end));
            match e.kind {
                EntityKindView::BareMention => Ok(
                    MentionPlanView {
                        mention: MentionRefView::Bare {
                            username: text.subrange(char_index_of(text, e.offset + 1), end),
                        },
                        title,
                    },
                ),
                EntityKindView::ResolvedMention { user_id, display_name } => Ok(
                    MentionPlanView {
                        mention: MentionRefView::Resolved { user_id, display_name },
                        title,
                    },
                ),
                EntityKindView::Other => arbitrary(),
            }
        },
    }
}

/// A scan that passed `i` non-mention entities pins down the first mention
/// index.
proof fn lemma_first_mention(es: Seq<EntityView>, i: int)
    requires
        0 <= i <= es.len(),
        forall|j: int| 0 <= j < i ==> !is_mention_kind(#[trigger] es[j].kind),
        i < es.len() ==> is_mention_kind(es[i].kind),
    ensures
        first_mention_idx(es) == (if i == es.len() {
            Option::<int>::None
        } else {
            Option::<int>::Some(i)
        }),
    decreases es.len(),
{
    if i == 0 {
    } else {
        assert(!is_mention_kind(es[0].kind));
        let rest = es.drop_first();
        assert forall|j: int| 0 <= j < i - 1 implies !is_mention_kind(
            #[trigger] rest[j].kind,
        ) by {
            assert(rest[j] == es[j + 1]);
        }
        if i - 1 < rest.len() {
            assert(rest[i - 1] == es[i]);
        }
        lemma_first_mention(rest, i - 1);
    }
}

/// An entity list with no mention-kind entity yields `NoMentionFound`; no
/// request of any kind is derived from it, so in particular no promotion
/// request is ever issued for such a message.
pub proof fn lemma_no_mention_extraction(text: Seq<char>, es: Seq<EntityView>)
    requires
        forall|i: int| 0 <= i < es.len() ==> !is_mention_kind(#[trigger] es[i].kind),
    ensures
        extract_spec(text, es) == Err::<MentionPlanView, ExtractError>(
            ExtractError::NoMentionFound,
        ),
{
    lemma_first_mention(es, es.len() as int);
}

/// Runtime check for [`is_mention_kind`].
pub fn entity_is_mention(k: &EntityKind) -> (r: bool)
    ensures
        r == is_mention_kind(k@),
{
    match k {
        EntityKind::BareMention => true,
        EntityKind::ResolvedMention { .. } => true,
        EntityKind::Other => false,
    }
}

/// Runtime check for [`wf_entities`]: whether every mention entity's span
/// falls on character boundaries of `text`.
pub fn entities_well_formed(text: &str, entities: &Vec<Entity>) -> (r: bool)
    ensures
        r == wf_entities(text@, view_entities(entities@)),
{
    let ghost es = view_entities(entities@);
    let mut k: usize = 0;
    while k < entities.len()
        invariant
            k <= entities@.len(),
            es == view_entities(entities@),
            forall|j: int|
                0 <= j < k && is_mention_kind(#[trigger] es[j].kind) ==> wf_mention_entity(
                    text@,
                    es[j],
                ),
        decreases entities@.len() - k,
    {
        let e = &entities[k];
        proof {
            assert(es[k as int] == entities@[k as int]@);
        }
        if entity_is_mention(&e.kind) {
            let off = e.offset as u64;
            let ln = e.length as u64;
            let mut ok = char_index_at(text, off).is_some() && char_index_at(
                text,
                off + ln,
            ).is_some();
            match &e.kind {
                EntityKind::BareMention => {
                    ok = ok && e.length >= 1 && char_index_at(text, off + 1).is_some();
                },
                _ => {},
            }
            if !ok {
                proof {
                    assert(!wf_mention_entity(text@, es[k as int]));
                }
                return false;
            }
        }
        k = k + 1;
    }
    true
}

/// Extracts the first mention of the message plus the trailing title text.
/// Scanning is in entity order; later entities are ignored; a list without
/// a mention-kind entity is answered with `NoMentionFound`.
pub fn extract_mention(text: &str, entities: &Vec<Entity>) -> (r: Result<
    MentionPlan,
    ExtractError,
>)
    requires
        wf_entities(text@, view_entities(entities@)),
    ensures
        (match r {
            Ok(p) => extract_spec(text@, view_entities(entities@)) == Ok::<_, ExtractError>(p@),
            Err(e) => extract_spec(text@, view_entities(entities@)) == Err::<MentionPlanView, _>(
                e,
            ),
        }),
{
    let ghost es = view_entities(entities@);
    let n_ents = entities.len();
    let mut k: usize = 0;
    while k < n_ents && !entity_is_mention(&entities[k].kind)
        invariant
            k <= n_ents,
            n_ents == entities@.len(),
            es == view_entities(entities@),
            forall|j: int| 0 <= j < k ==> !is_mention_kind(#[trigger] es[j].kind),
        decreases n_ents - k,
    {
        proof {
            assert(es[k as int] == entities@[k as int]@);
        }
        k = k + 1;
    }
    proof {
        if k < n_ents {
            assert(es[k as int] == entities@[k as int]@);
        }
        lemma_first_mention(es, k as int);
    }
    if k == n_ents {
        return Err(ExtractError::NoMentionFound);
    }
    let e = &entities[k];
    let ghost ev = es[k as int];
    proof {
        assert(ev == entities@[k as int]@);
        assert(is_mention_kind(ev.kind));
        assert(wf_mention_entity(text@, ev));
    }
    let off = e.offset as u64;
    let ln = e.length as u64;
    let end = match char_index_at(text, off + ln) {
        Some(v) => v,
        None => {
            proof {
                assert(aligned(text@, ev.offset + ev.length));
            }
            unreached()
        },
    };
    proof {
        let c = char_index_of(text@, ev.offset + ev.length);
        assert(aligned(text@, ev.offset + ev.length));
        assert(0 <= c <= text@.len() && utf16_len(text@.take(c)) == ev.offset + ev.length);
        lemma_char_index_unique(text@, end as int, c);
    }
    let n = text.unicode_len();
    let tstart = skip_ws_from(text, end);
    let title_slice = text.substring_char(tstart, n);
    let title = title_slice.to_owned();
    proof {
        assert(text@.subrange(tstart as int, n as int) =~= text@.skip(tstart as int));
    }
    match &e.kind {
        EntityKind::BareMention => {
            let start1 = match char_index_at(text, off + 1) {
                Some(v) => v,
                None => {
                    proof {
                        assert(aligned(text@, ev.offset + 1));
                    }
                    unreached()
                },
            };
            proof {
                let c1 = char_index_of(text@, ev.offset + 1);
                assert(0 <= c1 <= text@.len() && utf16_len(text@.take(c1)) == ev.offset + 1);
                lemma_char_index_unique(text@, start1 as int, c1);
                if start1 > end {
                    lemma_utf16_prefix_mono(text@, end as int, start1 as int);
                }
            }
            let username = text.substring_char(start1, end).to_owned();
            Ok(MentionPlan { mention: MentionRef::Bare { username }, title })
        },
        EntityKind::ResolvedMention { user_id, display_name } => {
            let name = display_name.clone();
            Ok(
                MentionPlan {
                    mention: MentionRef::Resolved { user_id: *user_id, display_name: name },
                    title,
                },
            )
        },
        EntityKind::Other => {
            proof {
                assert(is_mention_kind(ev.kind));
            }
            unreached()
        },
    }
}

/// The lookup outcome fits the plan: a bare mention comes with a lookup
/// answer, a resolved mention with none.
pub open spec fn lookup_matches(p: MentionPlanView, lk: LookupOutcome) -> bool {
    (p.mention is Bare) <==> !(lk is NotNeeded)
}

/// The last step shared by both outcomes: reject a title-set without title
/// text, force the empty title for a title-clear.
pub open spec fn finish_spec(t: ResolvedTargetView, title: Seq<char>, clear: bool) -> Result<
    TitleRequestView,
    ExtractError,
> {
    if clear {
        Ok(TitleRequestView { target: t, title: Seq::empty() })
    } else if title.len() == 0 {
        Err(ExtractError::MissingTitle)
    } else {
        Ok(TitleRequestView { target: t, title })
    }
}

/// What completing a plan with a lookup outcome yields: resolution failures
/// first, then the title check.
pub open spec fn complete_spec(p: MentionPlanView, lk: LookupOutcome, clear: bool) -> Result<
    TitleRequestView,
    ExtractError,
> {
    match p.mention {
        MentionRefView::Bare { username } => match lk {
            LookupOutcome::Found { user_id } => finish_spec(
                ResolvedTargetView { user_id, display_name: username },
                p.title,
                clear,
            ),
            LookupOutcome::NotFound => Err(ExtractError::ResolutionError),
            LookupOutcome::TransportFailed => Err(ExtractError::TransportError),
            LookupOutcome::NotNeeded => arbitrary(),
        },
        MentionRefView::Resolved { user_id, display_name } => finish_spec(
            ResolvedTargetView { user_id, display_name },
            p.title,
            clear,
        ),
    }
}

/// A bare mention whose lookup answers `NotFound` yields `ResolutionError`,
/// whatever the rest of the plan holds; no title request is formed, so no
/// promotion request follows from it.
pub proof fn lemma_unresolved_bare_mention(p: MentionPlanView, clear: bool)
    requires
        p.mention is Bare,
    ensures
        complete_spec(p, LookupOutcome::NotFound, clear) == Err::<TitleRequestView, ExtractError>(
            ExtractError::ResolutionError,
        ),
{
}

/// Completes an extraction with the lookup outcome, yielding the title
/// request the workflow executes, or the error the reply reports.
pub fn complete_mention(p: MentionPlan, lk: LookupOutcome, clear: bool) -> (r: Result<
    TitleRequest,
    ExtractError,
>)
    requires
        lookup_matches(p@, lk),
    ensures
        (match r {
            Ok(req) => complete_spec(p@, lk, clear) == Ok::<_, ExtractError>(req@),
            Err(e) => complete_spec(p@, lk, clear) == Err::<TitleRequestView, _>(e),
        }),
{
    let MentionPlan { mention, title } = p;
    match mention {
        MentionRef::Bare { username } => match lk {
            LookupOutcome::Found { user_id } => finish_request(
                ResolvedTarget { user_id, display_name: username },
                title,
                clear,
            ),
            LookupOutcome::NotFound => Err(ExtractError::ResolutionError),
            LookupOutcome::TransportFailed => Err(ExtractError::TransportError),
            LookupOutcome::NotNeeded => unreached(),
        },
        MentionRef::Resolved { user_id, display_name } => finish_request(
            ResolvedTarget { user_id, display_name },
            title,
            clear,
        ),
    }
}

/// Runtime counterpart of [`finish_spec`].
fn finish_request(t: ResolvedTarget, title: String, clear: bool) -> (r: Result<
    TitleRequest,
    ExtractError,
>)
    ensures
        (match r {
            Ok(req) => finish_spec(t@, title@, clear) == Ok::<_, ExtractError>(req@),
            Err(e) => finish_spec(t@, title@, clear) == Err::<TitleRequestView, _>(e),
        }),
{
    if clear {
        let empty = String::new();
        Ok(TitleRequest { target: t, title: empty })
    } else if title.unicode_len() == 0 {
        Err(ExtractError::MissingTitle)
    } else {
        Ok(TitleRequest { target: t, title })
    }
}

} // verus!

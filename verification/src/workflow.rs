//! Title workflow: the two-phase privilege grant plus custom-title
//! assignment, with failure reporting. Each transition is a pure step from
//! state and outcome to next state and action; the caller performs the
//! action against the chat-administration interface and feeds the outcome
//! back.

use vstd::prelude::*;
use crate::mention::TitleRequest;
use crate::mention::TitleRequestView;

verus! {

/// The administrator rights a promotion request grants.
#[derive(Clone, Copy, PartialEq, Eq, Structural, Debug)]
pub struct PromoteRights {
    pub can_change_info: bool,
    pub can_delete_messages: bool,
    pub can_invite_users: bool,
    pub can_restrict_members: bool,
    pub can_pin_messages: bool,
    pub can_promote_members: bool,
}

/// The minimal right set for a title mutation: invite and pin rights for a
/// title-set, no extra rights at all for a title-clear.
pub open spec fn rights_for(clear: bool) -> PromoteRights {
    PromoteRights {
        can_change_info: false,
        can_delete_messages: false,
        can_invite_users: !clear,
        can_restrict_members: false,
        can_pin_messages: !clear,
        can_promote_members: false,
    }
}

/// Runtime counterpart of [`rights_for`].
pub fn promote_rights(clear: bool) -> (r: PromoteRights)
    ensures
        r == rights_for(clear),
{
    PromoteRights {
        can_change_info: false,
        can_delete_messages: false,
        can_invite_users: !clear,
        can_restrict_members: false,
        can_pin_messages: !clear,
        can_promote_members: false,
    }
}

/// The workflow states.
pub enum WorkflowState {
    Idle,
    Promoting { req: TitleRequest },
    Titling { req: TitleRequest },
    Done { req: TitleRequest },
    Failed { req: TitleRequest },
}

/// Mathematical image of [`WorkflowState`].
pub ghost enum WorkflowStateView {
    Idle,
    Promoting { req: TitleRequestView },
    Titling { req: TitleRequestView },
    Done { req: TitleRequestView },
    Failed { req: TitleRequestView },
}

impl View for WorkflowState {
    type V = WorkflowStateView;

    open spec fn view(&self) -> WorkflowStateView {
        match self {
            WorkflowState::Idle => WorkflowStateView::Idle,
            WorkflowState::Promoting { req } => (WorkflowStateView::Promoting { req: req@ }),
            WorkflowState::Titling { req } => (WorkflowStateView::Titling { req: req@ }),
            WorkflowState::Done { req } => (WorkflowStateView::Done { req: req@ }),
            WorkflowState::Failed { req } => (WorkflowStateView::Failed { req: req@ }),
        }
    }
}

/// What one remote step answered: success, or a rejection carried verbatim.
pub enum StepOutcome {
    Success,
    Rejected { reason: String },
}

/// Mathematical image of [`StepOutcome`].
pub ghost enum StepOutcomeView {
    Success,
    Rejected { reason: Seq<char> },
}

impl View for StepOutcome {
    type V = StepOutcomeView;

    open spec fn view(&self) -> StepOutcomeView {
        match self {
            StepOutcome::Success => StepOutcomeView::Success,
            StepOutcome::Rejected { reason } => (StepOutcomeView::Rejected { reason: reason@ }),
        }
    }
}

/// What the caller must do next.
pub enum WorkflowAction {
    /// issue the administrator-promotion request
    Promote { user_id: u64, rights: PromoteRights },
    /// issue the set-custom-title request (the empty title clears)
    SetTitle { user_id: u64, title: String },
    /// answer the chat with a success reply
    ReplySuccess { text: String },
    /// answer the chat with a failure reply naming the target
    ReplyFailure { text: String },
}

/// Mathematical image of [`WorkflowAction`].
pub ghost enum WorkflowActionView {
    Promote { user_id: u64, rights: PromoteRights },
    SetTitle { user_id: u64, title: Seq<char> },
    ReplySuccess { text: Seq<char> },
    ReplyFailure { text: Seq<char> },
}

impl View for WorkflowAction {
    type V = WorkflowActionView;

    open spec fn view(&self) -> WorkflowActionView {
        match self {
            WorkflowAction::Promote { user_id, rights } => (WorkflowActionView::Promote {
                user_id: *user_id,
                rights: *rights,
            }),
            WorkflowAction::SetTitle { user_id, title } => (WorkflowActionView::SetTitle {
                user_id: *user_id,
                title: title@,
            }),
            WorkflowAction::ReplySuccess { text } => (WorkflowActionView::ReplySuccess {
                text: text@,
            }),
            WorkflowAction::ReplyFailure { text } => (WorkflowActionView::ReplyFailure {
                text: text@,
            }),
        }
    }
}

/// The success reply: the target's name and what happened to its title.
pub open spec fn success_text(req: TitleRequestView) -> Seq<char> {
    if req.title.len() == 0 {
        req.target.display_name + " 的標籤已移除"@
    } else {
        req.target.display_name + " 的標籤已變更為"@ + req.title
    }
}

/// The failure reply: the target's name, which mutation failed, and the
/// remote rejection verbatim when one was given.
pub open spec fn failure_text(req: TitleRequestView, reason: Seq<char>) -> Seq<char> {
    let base = req.target.display_name + (if req.title.len() == 0 {
        " 的標籤移除失敗"@
    } else {
        " 的標籤變更失敗"@
    });
    if reason.len() == 0 {
        base
    } else {
        base + ": "@ + reason
    }
}

/// Starting the workflow: request the promotion with the minimal rights.
pub open spec fn start_spec(req: TitleRequestView) -> (WorkflowStateView, WorkflowActionView) {
    (
        WorkflowStateView::Promoting { req },
        WorkflowActionView::Promote {
            user_id: req.target.user_id,
            rights: rights_for(req.title.len() == 0),
        },
    )
}

/// The step taken on the promotion outcome.
pub open spec fn promote_step(req: TitleRequestView, oc: StepOutcomeView) -> (
    WorkflowStateView,
    WorkflowActionView,
) {
    match oc {
        StepOutcomeView::Success => (
            WorkflowStateView::Titling { req },
            WorkflowActionView::SetTitle { user_id: req.target.user_id, title: req.title },
        ),
        StepOutcomeView::Rejected { reason } => (
            WorkflowStateView::Failed { req },
            WorkflowActionView::ReplyFailure { text: failure_text(req, reason) },
        ),
    }
}

/// The step taken on the title-set outcome.
pub open spec fn title_step(req: TitleRequestView, oc: StepOutcomeView) -> (
    WorkflowStateView,
    WorkflowActionView,
) {
    match oc {
        StepOutcomeView::Success => (
            WorkflowStateView::Done { req },
            WorkflowActionView::ReplySuccess { text: success_text(req) },
        ),
        StepOutcomeView::Rejected { reason } => (
            WorkflowStateView::Failed { req },
            WorkflowActionView::ReplyFailure { text: failure_text(req, reason) },
        ),
    }
}

/// A promotion failure short-circuits the workflow: the next state is
/// `Failed` and the action is a failure reply naming the target — in
/// particular no title-set request is issued after a failed promotion.
pub proof fn lemma_promotion_failure_short_circuits(req: TitleRequestView, reason: Seq<char>)
    ensures
        promote_step(req, StepOutcomeView::Rejected { reason }).0 == (WorkflowStateView::Failed {
            req,
        }),
        promote_step(req, StepOutcomeView::Rejected { reason }).1
            == (WorkflowActionView::ReplyFailure { text: failure_text(req, reason) }),
        !(promote_step(req, StepOutcomeView::Rejected { reason }).1 is SetTitle),
{
}

/// A title-set failure after a successful promotion still yields a failure
/// reply naming the target: there is no silent partial success.
pub proof fn lemma_title_failure_reported(req: TitleRequestView, reason: Seq<char>)
    ensures
        title_step(req, StepOutcomeView::Rejected { reason }).0 == (WorkflowStateView::Failed {
            req,
        }),
        title_step(req, StepOutcomeView::Rejected { reason }).1
            == (WorkflowActionView::ReplyFailure { text: failure_text(req, reason) }),
        !(title_step(req, StepOutcomeView::Rejected { reason }).1 is ReplySuccess),
{
}

/// Builds the success reply.
fn build_success_text(req: &TitleRequest) -> (t: String)
    ensures
        t@ == success_text(req@),
{
    let mut s = req.target.display_name.clone();
    if req.title.unicode_len() == 0 {
        s.append(" 的標籤已移除");
    } else {
        s.append(" 的標籤已變更為");
        s.append(req.title.as_str());
    }
    s
}

/// Builds the failure reply.
fn build_failure_text(req: &TitleRequest, reason: &String) -> (t: String)
    ensures
        t@ == failure_text(req@, reason@),
{
    let mut s = req.target.display_name.clone();
    if req.title.unicode_len() == 0 {
        s.append(" 的標籤移除失敗");
    } else {
        s.append(" 的標籤變更失敗");
    }
    if reason.unicode_len() > 0 {
        s.append(": ");
        s.append(reason.as_str());
    }
    s
}

/// Leaves `Idle` by issuing the promotion request for `req`.
pub fn start_workflow(state: WorkflowState, req: TitleRequest) -> (r: (
    WorkflowState,
    WorkflowAction,
))
    requires
        state@ is Idle,
    ensures
        (r.0@, r.1@) == start_spec(req@),
{
    match state {
        WorkflowState::Idle => {},
        _ => unreached(),
    }
    let user_id = req.target.user_id;
    let clear = req.title.unicode_len() == 0;
    let rights = promote_rights(clear);
    (WorkflowState::Promoting { req }, WorkflowAction::Promote { user_id, rights })
}

/// Consumes the promotion outcome: on success the title-set request is the
/// next action, on failure the workflow fails with a reply.
pub fn on_promote_outcome(state: WorkflowState, outcome: StepOutcome) -> (r: (
    WorkflowState,
    WorkflowAction,
))
    requires
        state@ is Promoting,
    ensures
        (match state@ {
            WorkflowStateView::Promoting { req } => (r.0@, r.1@) == promote_step(req, outcome@),
            _ => true,
        }),
{
    match state {
        WorkflowState::Promoting { req } => match outcome {
            StepOutcome::Success => {
                let user_id = req.target.user_id;
                let title = req.title.clone();
                (WorkflowState::Titling { req }, WorkflowAction::SetTitle { user_id, title })
            },
            StepOutcome::Rejected { reason } => {
                let text = build_failure_text(&req, &reason);
                (WorkflowState::Failed { req }, WorkflowAction::ReplyFailure { text })
            },
        },
        _ => unreached(),
    }
}

/// Consumes the title-set outcome: success and failure both end the
/// workflow with a reply.
pub fn on_title_outcome(state: WorkflowState, outcome: StepOutcome) -> (r: (
    WorkflowState,
    WorkflowAction,
))
    requires
        state@ is Titling,
    ensures
        (match state@ {
            WorkflowStateView::Titling { req } => (r.0@, r.1@) == title_step(req, outcome@),
            _ => true,
        }),
{
    match state {
        WorkflowState::Titling { req } => match outcome {
            StepOutcome::Success => {
                let text = build_success_text(&req);
                (WorkflowState::Done { req }, WorkflowAction::ReplySuccess { text })
            },
            StepOutcome::Rejected { reason } => {
                let text = build_failure_text(&req, &reason);
                (WorkflowState::Failed { req }, WorkflowAction::ReplyFailure { text })
            },
        },
        _ => unreached(),
    }
}

} // verus!

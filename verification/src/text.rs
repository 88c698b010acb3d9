//! Text primitives shared by the parsing modules: the UTF-16 code-unit
//! measure used by message entities, Unicode whitespace, leading-whitespace
//! trimming and whitespace splitting.

use vstd::prelude::*;

verus! {

/// How many UTF-16 code units encode `c`: one for the basic plane, two
/// (a surrogate pair) for supplementary planes.
pub open spec fn utf16_units(c: char) -> nat {
    if (c as u32) < 0x10000 {
        1nat
    } else {
        2nat
    }
}

/// Length of `s` in UTF-16 code units.
pub open spec fn utf16_len(s: Seq<char>) -> nat
    decreases s.len(),
{
    if s.len() == 0 {
        0nat
    } else {
        utf16_units(s[0]) + utf16_len(s.drop_first())
    }
}

/// The UTF-16 code-unit offset `o` falls on a character boundary of `s`.
pub open spec fn aligned(s: Seq<char>, o: nat) -> bool {
    exists|i: int| 0 <= i <= s.len() && utf16_len(s.take(i)) == o
}

/// The character index corresponding to the UTF-16 code-unit offset `o`
/// (meaningful only when `aligned(s, o)` holds; unique by
/// [`lemma_char_index_unique`]).
pub open spec fn char_index_of(s: Seq<char>, o: nat) -> int {
    choose|i: int| 0 <= i <= s.len() && utf16_len(s.take(i)) == o
}

/// `c` has the Unicode `White_Space` property.
pub open spec fn is_ws(c: char) -> bool {
    let u = c as u32;
    u == 0x20 || (0x09 <= u && u <= 0x0D) || u == 0x85 || u == 0xA0 || u == 0x1680 || (0x2000
        <= u && u <= 0x200A) || u == 0x2028 || u == 0x2029 || u == 0x202F || u == 0x205F || u
        == 0x3000
}

/// `s` with its leading whitespace removed.
pub open spec fn trim_start(s: Seq<char>) -> Seq<char>
    decreases s.len(),
{
    if s.len() > 0 && is_ws(s[0]) {
        trim_start(s.drop_first())
    } else {
        s
    }
}

/// Length of the maximal non-whitespace prefix of `s`.
pub open spec fn word_len(s: Seq<char>) -> int
    decreases s.len(),
{
    if s.len() == 0 || is_ws(s[0]) {
        0
    } else {
        1 + word_len(s.drop_first())
    }
}

/// The whitespace-delimited words of `s`, in order.
pub open spec fn words(s: Seq<char>) -> Seq<Seq<char>>
    decreases s.len(),
    via words_decreases
{
    if s.len() == 0 {
        seq![]
    } else if is_ws(s[0]) {
        words(s.drop_first())
    } else {
        seq![s.take(word_len(s))] + words(s.skip(word_len(s)))
    }
}

#[via_fn]
proof fn words_decreases(s: Seq<char>) {
    if s.len() > 0 && !is_ws(s[0]) {
        lemma_word_len_bounds(s);
    }
}

pub proof fn lemma_word_len_bounds(s: Seq<char>)
    ensures
        0 <= word_len(s) <= s.len(),
        s.len() > 0 && !is_ws(s[0]) ==> word_len(s) >= 1,
    decreases s.len(),
{
    if s.len() > 0 && !is_ws(s[0]) {
        lemma_word_len_bounds(s.drop_first());
    }
}

/// Appending one character adds that character's unit count to the UTF-16
/// length.
pub proof fn lemma_utf16_len_push(t: Seq<char>, c: char)
    ensures
        utf16_len(t.push(c)) == utf16_len(t) + utf16_units(c),
    decreases t.len(),
{
    if t.len() == 0 {
        assert(t.push(c)[0] == c);
        assert(t.push(c).drop_first() =~= Seq::<char>::empty());
        assert(utf16_len(Seq::<char>::empty()) == 0);
    } else {
        assert(t.push(c)[0] == t[0]);
        assert(t.push(c).drop_first() =~= t.drop_first().push(c));
        lemma_utf16_len_push(t.drop_first(), c);
    }
}

/// One more character extends the UTF-16 prefix length by that character's
/// unit count.
pub proof fn lemma_utf16_prefix_step(s: Seq<char>, i: int)
    requires
        0 <= i < s.len(),
    ensures
        utf16_len(s.take(i + 1)) == utf16_len(s.take(i)) + utf16_units(s[i]),
{
    assert(s.take(i + 1) =~= s.take(i).push(s[i]));
    lemma_utf16_len_push(s.take(i), s[i]);
}

/// The UTF-16 prefix length grows strictly with the character index.
pub proof fn lemma_utf16_prefix_mono(s: Seq<char>, i: int, j: int)
    requires
        0 <= i <= j <= s.len(),
    ensures
        utf16_len(s.take(i)) + (j - i) <= utf16_len(s.take(j)),
    decreases j - i,
{
    if i < j {
        lemma_utf16_prefix_mono(s, i, j - 1);
        lemma_utf16_prefix_step(s, j - 1);
    }
}

/// At most one character index maps to a given UTF-16 offset.
pub proof fn lemma_char_index_unique(s: Seq<char>, i: int, j: int)
    requires
        0 <= i <= s.len(),
        0 <= j <= s.len(),
        utf16_len(s.take(i)) == utf16_len(s.take(j)),
    ensures
        i == j,
{
    if i < j {
        lemma_utf16_prefix_mono(s, i, j);
    }
    if j < i {
        lemma_utf16_prefix_mono(s, j, i);
    }
}

/// Runtime check for [`is_ws`].
pub fn is_ws_char(c: char) -> (r: bool)
    ensures
        r == is_ws(c),
{
    let u = c as u32;
    u == 0x20 || (0x09 <= u && u <= 0x0D) || u == 0x85 || u == 0xA0 || u == 0x1680 || (0x2000
        <= u && u <= 0x200A) || u == 0x2028 || u == 0x2029 || u == 0x202F || u == 0x205F || u
        == 0x3000
}

/// Runtime count of UTF-16 code units for one character.
pub fn utf16_units_of(c: char) -> (n: u8)
    ensures
        n as nat == utf16_units(c),
{
    if (c as u32) < 0x10000 {
        1
    } else {
        2
    }
}

/// Converts the UTF-16 code-unit offset `o` into a character index of
/// `text`, or reports that `o` falls outside `text` or inside a surrogate
/// pair.
pub fn char_index_at(text: &str, o: u64) -> (r: Option<usize>)
    ensures
        match r {
            Some(i) => i <= text@.len() && utf16_len(text@.take(i as int)) == o as nat,
            None => !aligned(text@, o as nat),
        },
{
    let n = text.unicode_len();
    let mut i: usize = 0;
    let mut acc: u128 = 0;
    while i < n && acc < o as u128
        invariant
            i <= n,
            n == text@.len(),
            acc as nat == utf16_len(text@.take(i as int)),
            acc <= o as u128 + 1,
            forall|j: int| 0 <= j < i ==> utf16_len(text@.take(j)) < o as nat,
        decreases n - i,
    {
        let c = text.get_char(i);
        proof {
            lemma_utf16_prefix_step(text@, i as int);
        }
        acc = acc + utf16_units_of(c) as u128;
        i = i + 1;
    }
    if acc == o as u128 {
        Some(i)
    } else if i == n {
        // the whole text measures fewer than `o` units
        proof {
            assert forall|j: int| 0 <= j <= text@.len() implies utf16_len(text@.take(j)) != (
            o as nat) by {
                lemma_utf16_prefix_mono(text@, j, text@.len() as int);
                assert(text@.take(text@.len() as int) =~= text@);
                assert(utf16_len(text@) == acc as nat);
            }
        }
        None
    } else {
        // `o` lands strictly inside the surrogate pair ending at unit `acc`
        proof {
            assert forall|j: int| 0 <= j <= text@.len() implies utf16_len(text@.take(j)) != (
            o as nat) by {
                if j >= i {
                    lemma_utf16_prefix_mono(text@, i as int, j);
                }
            }
        }
        None
    }
}

/// First index at or after `from` holding a non-whitespace character; the
/// suffix there is the leading-whitespace trim of the suffix at `from`.
pub fn skip_ws_from(text: &str, from: usize) -> (i: usize)
    requires
        from <= text@.len(),
    ensures
        from <= i <= text@.len(),
        text@.skip(i as int) == trim_start(text@.skip(from as int)),
        i < text@.len() ==> !is_ws(text@[i as int]),
{
    let n = text.unicode_len();
    let mut i = from;
    while i < n && is_ws_char(text.get_char(i))
        invariant
            from <= i <= n,
            n == text@.len(),
            trim_start(text@.skip(i as int)) == trim_start(text@.skip(from as int)),
        decreases n - i,
    {
        proof {
            assert(text@.skip(i as int).drop_first() =~= text@.skip(i as int + 1));
        }
        i = i + 1;
    }
    proof {
        if i < n {
            assert(text@.skip(i as int)[0] == text@[i as int]);
        } else {
            assert(text@.skip(i as int) =~= Seq::<char>::empty());
        }
    }
    i
}

/// End of the non-whitespace run starting at `from`.
fn scan_word_end(text: &str, from: usize) -> (j: usize)
    requires
        from <= text@.len(),
        from < text@.len() ==> !is_ws(text@[from as int]),
    ensures
        from <= j <= text@.len(),
        forall|m: int| from <= m < j ==> !is_ws(text@[m]),
        j < text@.len() ==> is_ws(text@[j as int]),
{
    let n = text.unicode_len();
    let mut j = from;
    while j < n && !is_ws_char(text.get_char(j))
        invariant
            from <= j <= n,
            n == text@.len(),
            forall|m: int| from <= m < j ==> !is_ws(text@[m]),
        decreases n - j,
    {
        j = j + 1;
    }
    j
}

/// A run of non-whitespace followed by whitespace (or the end) is exactly
/// the maximal word prefix.
pub proof fn lemma_word_len_of_run(s: Seq<char>, k: int)
    requires
        0 <= k <= s.len(),
        forall|m: int| 0 <= m < k ==> !is_ws(s[m]),
        k == s.len() || is_ws(s[k]),
    ensures
        word_len(s) == k,
    decreases s.len(),
{
    if k == 0 {
    } else {
        assert(!is_ws(s[0]));
        assert forall|m: int| 0 <= m < k - 1 implies !is_ws(s.drop_first()[m]) by {
            assert(s.drop_first()[m] == s[m + 1]);
        }
        if k < s.len() {
            assert(s.drop_first()[k - 1] == s[k]);
        }
        lemma_word_len_of_run(s.drop_first(), k - 1);
    }
}

/// The whitespace-delimited words of `text` from character index `from` on,
/// as owned strings.
pub fn split_words_from(text: &str, from: usize) -> (r: Vec<String>)
    requires
        from <= text@.len(),
    ensures
        r@.map_values(|w: String| w@) == words(text@.skip(from as int)),
{
    let n = text.unicode_len();
    let mut out: Vec<String> = Vec::new();
    let mut i = from;
    while i < n
        invariant
            from <= i <= n,
            n == text@.len(),
            words(text@.skip(from as int)) == out@.map_values(|w: String| w@) + words(
                text@.skip(i as int),
            ),
        decreases n - i,
    {
        let c = text.get_char(i);
        if is_ws_char(c) {
            proof {
                assert(text@.skip(i as int).drop_first() =~= text@.skip(i as int + 1));
                assert(text@.skip(i as int)[0] == text@[i as int]);
            }
            i = i + 1;
        } else {
            let j = scan_word_end(text, i);
            let word = text.substring_char(i, j).to_owned();
            proof {
                let suf = text@.skip(i as int);
                assert forall|m: int| 0 <= m < j - i implies !is_ws(suf[m]) by {
                    assert(suf[m] == text@[i + m]);
                }
                if j < n {
                    assert(suf[j - i] == text@[j as int]);
                }
                lemma_word_len_of_run(suf, j - i);
                assert(suf.take(j - i) =~= text@.subrange(i as int, j as int));
                assert(suf.skip(j - i) =~= text@.skip(j as int));
                let f = |w: String| w@;
                assert(out@.push(word).map_values(f) =~= out@.map_values(f).push(word@));
                assert(out@.map_values(f).push(word@) + words(text@.skip(j as int)) =~= out@
                    .map_values(f) + (seq![word@] + words(text@.skip(j as int))));
            }
            out.push(word);
            i = j;
        }
    }
    proof {
        assert(text@.skip(n as int) =~= Seq::<char>::empty());
        assert(out@.map_values(|w: String| w@) + words(text@.skip(n as int)) =~= out@.map_values(
            |w: String| w@,
        ));
    }
    out
}

} // verus!

//! Randomized selectors: the dinner-option picker and the roll outcome.
//! The one source of randomness is a uniform draw below a bound; everything
//! around the draw is verified for every value the draw can take.

use vstd::prelude::*;
use crate::text::words;
use crate::text::split_words_from;

verus! {

/// The two outcomes of the roll command.
#[derive(Clone, Copy, PartialEq, Eq, Structural, Debug)]
pub enum RollChoice {
    /// send the fixed novelty payload
    Novelty,
    /// send the chat protocol's native randomized dice
    Dice,
}

/// Usage hint answered when the dinner command carries no candidates.
pub open spec fn dinner_usage() -> Seq<char> {
    "請輸入選項 e.g. /dinner 八方雲集 Sukiya 臺鐵便當 元氣"@
}

/// Fixed novelty payload sent for one roll outcome in three.
pub open spec fn novelty_text() -> Seq<char> {
    "[Never gonna give you up](https://www.youtube.com/watch?v=dQw4w9WgXcQ)"@
}

/// The dinner candidates carried by a command text: every whitespace-
/// delimited word after the leading command token.
pub open spec fn dinner_candidates_of(text: Seq<char>) -> Seq<Seq<char>> {
    if words(text).len() == 0 {
        Seq::empty()
    } else {
        words(text).drop_first()
    }
}

/// Relies on `rand::thread_rng` and `rand::Rng::gen_range`: a draw from the
/// non-empty range `0..n` lies strictly below `n`. Nothing more is claimed
/// of a random draw.
#[verifier::external_body]
fn random_below(n: usize) -> (r: usize)
    requires
        1 <= n,
    ensures
        r < n,
{
    rand::Rng::gen_range(&mut rand::thread_rng(), 0..n)
}

/// Splits the trailing text of a dinner command into its candidate list.
pub fn dinner_candidates(text: &str) -> (r: Vec<String>)
    ensures
        r@.map_values(|w: String| w@) == dinner_candidates_of(text@),
{
    proof {
        assert(text@.skip(0) =~= text@);
    }
    let mut all = split_words_from(text, 0);
    if all.len() > 0 {
        let ghost pre = all@;
        all.remove(0);
        proof {
            let f = |w: String| w@;
            assert(all@.map_values(f) =~= pre.map_values(f).drop_first());
        }
    } else {
        proof {
            let f = |w: String| w@;
            assert(all@.map_values(f) =~= Seq::<Seq<char>>::empty());
        }
    }
    all
}

/// Picks one candidate uniformly; with no candidate it answers the literal
/// usage hint and in particular never indexes the empty list.
pub fn pick_dinner(candidates: &Vec<String>) -> (r: String)
    ensures
        candidates@.len() == 0 ==> r@ == dinner_usage(),
        candidates@.len() > 0 ==> exists|i: int|
            0 <= i < candidates@.len() && r@ == candidates@[i]@,
{
    if candidates.len() == 0 {
        String::from_str("請輸入選項 e.g. /dinner 八方雲集 Sukiya 臺鐵便當 元氣")
    } else {
        let i = random_below(candidates.len());
        let picked = candidates[i].clone();
        proof {
            assert(picked@ == candidates@[i as int]@);
        }
        picked
    }
}

/// Classifies a uniform draw from `0..3`: the first outcome is the novelty
/// payload, the other two the standard dice.
pub fn classify_roll(draw: usize) -> (c: RollChoice)
    requires
        draw < 3,
    ensures
        c == (if draw == 0 {
            RollChoice::Novelty
        } else {
            RollChoice::Dice
        }),
{
    if draw == 0 {
        RollChoice::Novelty
    } else {
        RollChoice::Dice
    }
}

/// Draws the roll outcome: uniform over three cases, one of which is the
/// novelty payload. Which case comes up is random, so nothing more can be
/// promised of a single call.
pub fn roll_choice() -> (c: RollChoice) {
    let draw = random_below(3);
    classify_roll(draw)
}

/// The fixed novelty payload as an owned string.
pub fn novelty_payload() -> (r: String)
    ensures
        r@ == novelty_text(),
{
    String::from_str("[Never gonna give you up](https://www.youtube.com/watch?v=dQw4w9WgXcQ)")
}

} // verus!

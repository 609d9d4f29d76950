//! Random choice of one sentence out of a pool.

use rand::seq::SliceRandom;
use vstd::prelude::*;

verus! {

/// `rand::seq::SliceRandom::choose` on the sentences of `pool`, with the
/// generator of `rand::thread_rng`. Trusted: of an empty pool nothing is
/// chosen; otherwise the choice is one of the pool's sentences. Which one is
/// left open, and so is that every sentence is equally likely.
#[verifier::external_body]
pub(crate) fn pick_sentence<'a>(pool: &'a Vec<String>) -> (picked: Option<&'a String>)
    ensures
        picked is None <==> pool@.len() == 0,
        picked matches Some(sentence) ==> exists|i: int|
            0 <= i < pool@.len() && *sentence == #[trigger] pool@[i],
{
    pool.choose(&mut rand::thread_rng())
}

/// What is sent for a choice made in `pool`: the chosen sentence, or
/// `fallback` where nothing was chosen.
pub open spec fn settled(picked: Option<&String>, fallback: Seq<char>) -> Seq<char> {
    match picked {
        Some(sentence) => sentence@,
        None => fallback,
    }
}

/// Settles a choice: the chosen sentence, or `fallback` where nothing was
/// chosen.
pub fn settle(picked: Option<&String>, fallback: &str) -> (sentence: String)
    ensures
        sentence@ == settled(picked, fallback@),
{
    match picked {
        Some(chosen) => chosen.clone(),
        None => fallback.to_owned(),
    }
}

/// `sentence` is one of `pool`, or `fallback` where `pool` is empty.
pub open spec fn drawn_from(sentence: Seq<char>, pool: Seq<Seq<char>>, fallback: Seq<char>) -> bool {
    if pool.len() == 0 {
        sentence == fallback
    } else {
        exists|i: int| 0 <= i < pool.len() && sentence == #[trigger] pool[i]
    }
}

/// The sentences of `pool` as plain text.
pub open spec fn texts(pool: Seq<String>) -> Seq<Seq<char>> {
    pool.map_values(|sentence: String| sentence@)
}

/// Draws one sentence of `pool` at random; of an empty pool, `fallback`.
pub fn draw(pool: &Vec<String>, fallback: &str) -> (sentence: String)
    ensures
        drawn_from(sentence@, texts(pool@), fallback@),
{
    let picked = pick_sentence(pool);
    let sentence = settle(picked, fallback);
    proof {
        if pool@.len() > 0 {
            let i = choose|i: int| 0 <= i < pool@.len() && *picked->0 == #[trigger] pool@[i];
            assert(sentence@ == texts(pool@)[i]);
        }
    }
    sentence
}

} // verus!

//! The random source: secret-code generation and the two random draws, each a
//! call into the `rand` crate behind a contract that holds of every outcome.

use vstd::prelude::*;
use rand::distributions::{Alphanumeric, DistString};
use rand::seq::SliceRandom;
use crate::code::{is_alphanumeric, is_code_of, CheatCode};
use crate::kind::CheatCodeKind;
use crate::rarity::{CheatCodeRarity, MAX_WEIGHT};

verus! {

/// The sum of the weights of a list of catalog entries.
pub open spec fn total_weight(codes: Seq<&CheatCode>) -> nat
    decreases codes.len(),
{
    if codes.len() == 0 {
        0
    } else {
        total_weight(codes.drop_last()) + codes.last().rarity.weight() as nat
    }
}

/// No weight is above `MAX_WEIGHT`, so the sum is at most that many times
/// the length of the list.
pub proof fn lemma_total_weight_bound(codes: Seq<&CheatCode>)
    ensures
        total_weight(codes) <= MAX_WEIGHT * codes.len(),
    decreases codes.len(),
{
    if codes.len() > 0 {
        lemma_total_weight_bound(codes.drop_last());
    }
}

/// Calls `rand::distributions::DistString::sample_string` on `Alphanumeric`
/// with the thread-local generator. Trusted: the string has exactly `len`
/// characters, each drawn from `A-Z`, `a-z` and `0-9`. Which characters come
/// is left open.
#[verifier::external_body]
pub(crate) fn sample_alphanumeric(len: usize) -> (text: String)
    ensures
        text@.len() == len,
        forall|i: int| 0 <= i < text@.len() ==> is_alphanumeric(#[trigger] text@[i]),
{
    Alphanumeric.sample_string(&mut rand::thread_rng(), len)
}

/// Calls `rand::seq::SliceRandom::choose` with the thread-local generator.
/// Trusted: an empty list gives `None`; any other list gives one of its
/// elements. Which element comes is left open.
#[verifier::external_body]
pub(crate) fn choose_kind(kinds: &Vec<CheatCodeKind>) -> (picked: Option<CheatCodeKind>)
    ensures
        match picked {
            Some(kind) => kinds@.contains(kind),
            None => kinds@.len() == 0,
        },
{
    kinds.choose(&mut rand::thread_rng()).copied()
}

/// Calls `rand::seq::SliceRandom::choose_weighted` with the thread-local
/// generator, each entry weighted by `CheatCode::weight`. The weights are
/// summed in a `u8`, so the sum has to fit. Trusted: where every weight is
/// zero, or the list is empty, the draw fails and `None` comes back;
/// otherwise the kind of one of the entries with a weight above zero comes
/// back. Which entry comes is left open.
#[verifier::external_body]
pub(crate) fn choose_weighted_code(codes: &Vec<&CheatCode>) -> (picked: Option<CheatCodeKind>)
    requires
        total_weight(codes@) <= u8::MAX,
    ensures
        match picked {
            Some(kind) => exists|i: int|
                0 <= i < codes@.len() && (#[trigger] codes@[i]).kind == kind
                    && codes@[i].rarity.weight() > 0,
            None => forall|i: int|
                0 <= i < codes@.len() ==> (#[trigger] codes@[i]).rarity.weight() == 0,
        },
{
    codes.choose_weighted(&mut rand::thread_rng(), |code| code.weight()).ok().map(|code| code.kind)
}

/// A fresh secret code for an ability of the given rarity.
pub fn generate_random_code(rarity: CheatCodeRarity) -> (text: String)
    ensures
        is_code_of(rarity, text@),
{
    // length is based on the rarity
    let length = rarity.code_length();
    sample_alphanumeric(length)
}

} // verus!

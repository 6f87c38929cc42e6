//! How a peer's answer to a request for block hashes changes the tips that the
//! syncer follows and the blocks that it downloads.
//!
//! A peer answers with the hashes that follow a block it knows.  Some peers put
//! an unrelated hash at the front or at the end of the answer, so the last hash
//! of an answer is never used, and a tip is kept together with the hash that
//! the next answer has to start with.

use vstd::prelude::*;

use crate::chain::block;
use crate::sync::download_set::{append_new, DownloadSet};

verus! {

/// A chain tip that the syncer follows, with the hash that a peer's answer
/// about this tip has to start with.
#[derive(Clone, Copy, Debug, PartialEq, Eq, Hash, Structural)]
pub struct CheckedTip {
    pub tip: block::Hash,
    pub expected_next: block::Hash,
}

/// A peer's answer to the request for the hashes that follow our block locator.
#[derive(Clone, Debug)]
pub struct TipsResponse {
    /// The hashes in the order in which the peer sent them.
    pub hashes: Vec<block::Hash>,
    /// For each position of `hashes`, whether the state holds the block with
    /// that hash.  A position that has no entry counts as not held.
    pub in_state: Vec<bool>,
}

/// The tips that the syncer follows and the hashes queued for download.
pub struct TipsPlan {
    pub tips: Seq<CheckedTip>,
    pub downloads: Seq<block::Hash>,
}

/// `hashes` without its last hash.
pub open spec fn without_last(hashes: Seq<block::Hash>) -> Seq<block::Hash> {
    if hashes.len() == 0 {
        hashes
    } else {
        hashes.drop_last()
    }
}

/// Whether the state is known to hold the block at position `i` of an answer.
pub open spec fn is_known(in_state: Seq<bool>, i: int) -> bool {
    0 <= i < in_state.len() && in_state[i]
}

/// The first position in `from..len` whose block the state does not hold.
pub open spec fn first_unknown_from(len: int, in_state: Seq<bool>, from: int) -> Option<int>
    decreases len - from,
{
    if from >= len {
        None
    } else if !is_known(in_state, from) {
        Some(from)
    } else {
        first_unknown_from(len, in_state, from + 1)
    }
}

/// The unknown tail of an answer: the last hash is dropped, and of the rest
/// everything from the first hash that the state does not hold.
pub open spec fn unknown_tail(hashes: Seq<block::Hash>, in_state: Seq<bool>) -> Seq<block::Hash> {
    let trimmed = without_last(hashes);
    match first_unknown_from(trimmed.len() as int, in_state, 0) {
        Some(i) => trimmed.skip(i),
        None => Seq::empty(),
    }
}

/// The tip that a run of unknown hashes ends in: its last two hashes, if it has two.
pub open spec fn new_tip(unknown: Seq<block::Hash>) -> Option<CheckedTip> {
    if unknown.len() >= 2 {
        Some(CheckedTip { tip: unknown[unknown.len() - 2], expected_next: unknown[unknown.len() - 1] })
    } else {
        None
    }
}

/// The tips of `tips` whose expected next hash is not among `unknown`.
pub open spec fn retain_tips(tips: Seq<CheckedTip>, unknown: Seq<block::Hash>) -> Seq<CheckedTip> {
    tips.filter(|t: CheckedTip| !unknown.contains(t.expected_next))
}

/// `tips` with `tip` added at the end, unless it is there already.
pub open spec fn insert_tip(tips: Seq<CheckedTip>, tip: CheckedTip) -> Seq<CheckedTip> {
    if tips.contains(tip) {
        tips
    } else {
        tips.push(tip)
    }
}

/// The plan after a run of unknown hashes from one answer is taken in.
///
/// A run of fewer than two hashes changes nothing.  Otherwise the run ends in
/// a new tip.  If the hash expected after the new tip is queued already, the
/// tips stay as they are; else the tips that the run passes over leave and the
/// new tip joins.  The hashes of the run that are not queued yet are queued
/// behind the others, so the first answer decides the download order.
pub open spec fn accept_unknown(plan: TipsPlan, unknown: Seq<block::Hash>) -> TipsPlan {
    match new_tip(unknown) {
        None => plan,
        Some(tip) => TipsPlan {
            tips: if plan.downloads.contains(tip.expected_next) {
                plan.tips
            } else {
                insert_tip(retain_tips(plan.tips, unknown), tip)
            },
            downloads: append_new(plan.downloads, unknown),
        },
    }
}

/// The plan after one answer to an ObtainTips request.
pub open spec fn obtain_response(plan: TipsPlan, response: TipsResponse) -> TipsPlan {
    accept_unknown(plan, unknown_tail(response.hashes@, response.in_state@))
}

/// The plan after the answers to an ObtainTips request, in the order of their arrival.
pub open spec fn obtain_responses(plan: TipsPlan, responses: Seq<TipsResponse>) -> TipsPlan
    decreases responses.len(),
{
    if responses.len() == 0 {
        plan
    } else {
        obtain_response(obtain_responses(plan, responses.drop_last()), responses.last())
    }
}

/// The part of an answer about `tip` that is used: the answer from the hash
/// that is expected after `tip`, where that is the first hash or, after one
/// stray hash, the second.  Any other answer is not used.
pub open spec fn checked_extension(tip: CheckedTip, hashes: Seq<block::Hash>) -> Option<Seq<block::Hash>> {
    if hashes.len() >= 1 && hashes[0] == tip.expected_next {
        Some(hashes)
    } else if hashes.len() >= 2 && hashes[1] == tip.expected_next {
        Some(hashes.skip(1))
    } else {
        None
    }
}

/// The plan after one answer to an ExtendTips request about `tip`.
pub open spec fn extend_response(plan: TipsPlan, tip: CheckedTip, hashes: Seq<block::Hash>) -> TipsPlan {
    match checked_extension(tip, hashes) {
        Some(extension) => accept_unknown(plan, without_last(extension)),
        None => plan,
    }
}

/// The plan after the answers to an ExtendTips request about `tip`, in the
/// order of their arrival.
pub open spec fn extend_responses(plan: TipsPlan, tip: CheckedTip, responses: Seq<Vec<block::Hash>>) -> TipsPlan
    decreases responses.len(),
{
    if responses.len() == 0 {
        plan
    } else {
        extend_response(extend_responses(plan, tip, responses.drop_last()), tip, responses.last()@)
    }
}

/// The answers about the tip at position `i`: `responses[i]`, or none where
/// `responses` is shorter.
pub open spec fn responses_about(responses: Seq<Vec<Vec<block::Hash>>>, i: int) -> Seq<Vec<block::Hash>> {
    if 0 <= i < responses.len() {
        responses[i]@
    } else {
        Seq::empty()
    }
}

/// The plan after the answers about the first `n` of `tips` are taken in, tip by tip.
pub open spec fn extend_tips_upto(
    plan: TipsPlan,
    tips: Seq<CheckedTip>,
    responses: Seq<Vec<Vec<block::Hash>>>,
    n: int,
) -> TipsPlan
    decreases n,
{
    if n <= 0 {
        plan
    } else {
        extend_responses(extend_tips_upto(plan, tips, responses, n - 1), tips[n - 1], responses_about(responses, n - 1))
    }
}

/// The first position of `hashes` whose block the state does not hold, by `in_state`.
pub fn first_unknown(len: usize, in_state: &Vec<bool>) -> (first: Option<usize>)
    ensures
        first matches Some(i) ==> i < len && first_unknown_from(len as int, in_state@, 0) == Some(i as int),
        first.is_none() ==> first_unknown_from(len as int, in_state@, 0).is_none(),
{
    let mut i: usize = 0;
    while i < len
        invariant
            i <= len,
            first_unknown_from(len as int, in_state@, 0) == first_unknown_from(len as int, in_state@, i as int),
        decreases len - i,
    {
        if i >= in_state.len() || !in_state[i] {
            return Some(i);
        }
        i += 1;
    }
    None
}

/// Whether `hash` occurs in `hashes`.
pub fn contains_hash(hashes: &Vec<block::Hash>, hash: &block::Hash) -> (found: bool)
    ensures
        found == hashes@.contains(*hash),
{
    let mut i: usize = 0;
    while i < hashes.len()
        invariant
            i <= hashes.len(),
            forall|j: int| 0 <= j < i ==> hashes@[j] != *hash,
        decreases hashes.len() - i,
    {
        if hashes[i] == *hash {
            return true;
        }
        i += 1;
    }
    false
}

/// Whether `tip` occurs in `tips`.
pub fn contains_tip(tips: &Vec<CheckedTip>, tip: &CheckedTip) -> (found: bool)
    ensures
        found == tips@.contains(*tip),
{
    let mut i: usize = 0;
    while i < tips.len()
        invariant
            i <= tips.len(),
            forall|j: int| 0 <= j < i ==> tips@[j] != *tip,
        decreases tips.len() - i,
    {
        if tips[i] == *tip {
            return true;
        }
        i += 1;
    }
    false
}

/// The hashes of `hashes` at the positions `from..to`.
pub fn copy_range(hashes: &Vec<block::Hash>, from: usize, to: usize) -> (part: Vec<block::Hash>)
    requires
        from <= to <= hashes.len(),
    ensures
        part@ == hashes@.subrange(from as int, to as int),
{
    let mut part: Vec<block::Hash> = Vec::new();
    let mut i: usize = from;
    while i < to
        invariant
            from <= i <= to <= hashes.len(),
            part@ == hashes@.subrange(from as int, i as int),
        decreases to - i,
    {
        part.push(hashes[i]);
        proof {
            assert(hashes@.subrange(from as int, i + 1) =~= hashes@.subrange(from as int, i as int).push(hashes@[i as int]));
        }
        i += 1;
    }
    part
}

/// Drops from `tips` every tip whose expected next hash is among `unknown`.
pub fn drop_passed_tips(tips: &mut Vec<CheckedTip>, unknown: &Vec<block::Hash>)
    ensures
        final(tips)@ == retain_tips(old(tips)@, unknown@),
{
    let ghost keep = |t: CheckedTip| !unknown@.contains(t.expected_next);
    let mut kept: Vec<CheckedTip> = Vec::new();
    let mut i: usize = 0;
    while i < tips.len()
        invariant
            i <= tips.len(),
            tips@ == old(tips)@,
            keep == (|t: CheckedTip| !unknown@.contains(t.expected_next)),
            kept@ == tips@.take(i as int).filter(keep),
        decreases tips.len() - i,
    {
        proof {
            let next = tips@.take(i + 1);
            assert(next.drop_last() =~= tips@.take(i as int));
            assert(next.last() == tips@[i as int]);
            reveal_with_fuel(Seq::filter, 2);
        }
        let tip = tips[i];
        if !contains_hash(unknown, &tip.expected_next) {
            kept.push(tip);
        }
        i += 1;
    }
    proof {
        assert(tips@.take(tips@.len() as int) =~= tips@);
    }
    *tips = kept;
}

/// Takes a run of unknown hashes from one answer into the tips and the download set.
pub fn take_in_unknown(tips: &mut Vec<CheckedTip>, downloads: &mut DownloadSet, unknown: &Vec<block::Hash>)
    ensures
        (TipsPlan { tips: final(tips)@, downloads: final(downloads)@ }) == accept_unknown(
            (TipsPlan { tips: old(tips)@, downloads: old(downloads)@ }),
            unknown@,
        ),
{
    let n = unknown.len();
    if n < 2 {
        return ;
    }
    let tip = CheckedTip { tip: unknown[n - 2], expected_next: unknown[n - 1] };
    if !downloads.contains(&tip.expected_next) {
        drop_passed_tips(tips, unknown);
        if !contains_tip(tips, &tip) {
            tips.push(tip);
        }
    }
    downloads.extend(unknown);
}

} // verus!

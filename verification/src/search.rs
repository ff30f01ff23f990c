//! The nonce search: the least nonce whose digest meets the difficulty target.

use vstd::prelude::*;
use crate::digest::{hash_eq, hash_le, mining_hash, spec_hash_le, spec_mining_hash, lemma_trichotomy};

verus! {

/// A unit of search work.
#[derive(Debug, Clone, Copy, PartialEq, Eq)]
pub struct MineRequest {
    /// The miner's current challenge.
    pub hash: [u8; 32],
    /// The target that a digest must not exceed.
    pub difficulty: [u8; 32],
    /// The public key of the mining account.
    pub pubkey: [u8; 32],
}

/// The result of a search.
#[derive(Debug, Clone, Copy, PartialEq, Eq)]
pub struct WebworkerResponse {
    /// The digest of the winning attempt.
    pub hash: [u8; 32],
    /// The nonce of the winning attempt.
    pub nonce: u64,
}

/// The digest of the attempt that `nonce` makes on `req`.
pub open spec fn attempt(req: MineRequest, nonce: u64) -> Seq<u8> {
    spec_mining_hash(req.hash@, req.pubkey@, nonce)
}

/// The attempt that `nonce` makes on `req` meets the target.
pub open spec fn is_solution(req: MineRequest, nonce: u64) -> bool {
    spec_hash_le(attempt(req, nonce), req.difficulty@)
}

/// No nonce from `first` to `last`, both included, solves `req`.
pub open spec fn no_solution_in(req: MineRequest, first: u64, last: u64) -> bool {
    forall|n: u64| first <= n <= last ==> !is_solution(req, n)
}

/// `nonce` is the least nonce from `first` on that solves `req`.
pub open spec fn is_least_solution_from(req: MineRequest, first: u64, nonce: u64) -> bool {
    &&& first <= nonce
    &&& is_solution(req, nonce)
    &&& forall|n: u64| first <= n < nonce ==> !is_solution(req, n)
}

/// `resp` is the answer to `req` for a search that starts at `first`: it holds
/// the least solving nonce from `first` on, and the digest of that attempt.
pub open spec fn answers(req: MineRequest, first: u64, resp: WebworkerResponse) -> bool {
    &&& is_least_solution_from(req, first, resp.nonce)
    &&& resp.hash@ == attempt(req, resp.nonce)
}

/// Every byte of `target` is 255: the weakest target there is.
pub open spec fn is_max_target(target: Seq<u8>) -> bool {
    forall|i: int| 0 <= i < target.len() ==> target[i] == 255
}

/// The weakest target accepts every digest of its length.
pub proof fn lemma_max_target_accepts(digest: Seq<u8>, target: Seq<u8>)
    requires
        digest.len() == target.len(),
        is_max_target(target),
    ensures
        spec_hash_le(digest, target),
{
    lemma_trichotomy(digest, target);
}

/// A request has one answer at most.
pub proof fn lemma_answer_unique(
    req: MineRequest,
    first: u64,
    a: WebworkerResponse,
    b: WebworkerResponse,
)
    requires
        answers(req, first, a),
        answers(req, first, b),
    ensures
        a == b,
{
    assert(a.nonce == b.nonce) by {
        if a.nonce < b.nonce {
            assert(!is_solution(req, a.nonce));
        } else if b.nonce < a.nonce {
            assert(!is_solution(req, b.nonce));
        }
    }
    assert(a.hash@ == b.hash@);
    assert(a.hash =~= b.hash);
}

/// A search may be cut in two: where no nonce from `first` up to `mid` solves
/// `req`, the least solution from `mid + 1` on is the least from `first` on.
/// This is what lets the nonce space be searched in pieces.
pub proof fn lemma_search_resumes(req: MineRequest, first: u64, mid: u64, nonce: u64)
    requires
        first <= mid < u64::MAX,
        no_solution_in(req, first, mid),
        is_least_solution_from(req, (mid + 1) as u64, nonce),
    ensures
        is_least_solution_from(req, first, nonce),
{
    assert forall|n: u64| first <= n < nonce implies !is_solution(req, n) by {
        if n <= mid {
            assert(first <= n <= mid);
        }
    }
}

/// Tries the nonces from `first` to `last`, both included, in rising order, and
/// stops at the first that solves `req`.
///
/// Returns the answer for a search that starts at `first`, or `None` where no
/// nonce of the range solves `req`. Against the weakest target the first nonce
/// tried wins.
pub fn search_range(req: &MineRequest, first: u64, last: u64) -> (found: Option<WebworkerResponse>)
    ensures
        match found {
            Some(resp) => resp.nonce <= last && answers(*req, first, resp),
            None => no_solution_in(*req, first, last),
        },
        first <= last && is_max_target(req.difficulty@) ==> (found matches Some(resp)
            && resp.nonce == first),
{
    if first > last {
        return None;
    }
    let mut nonce: u64 = first;
    loop
        invariant
            first <= nonce <= last,
            forall|n: u64| first <= n < nonce ==> !is_solution(*req, n),
            is_max_target(req.difficulty@) ==> nonce == first,
        decreases last - nonce,
    {
        let digest = mining_hash(&req.hash, &req.pubkey, nonce);
        if hash_le(&digest, &req.difficulty) {
            return Some(WebworkerResponse { hash: digest, nonce });
        }
        proof {
            if is_max_target(req.difficulty@) {
                lemma_max_target_accepts(digest@, req.difficulty@);
            }
        }
        if nonce == last {
            return None;
        }
        nonce += 1;
    }
}

/// Tells whether `resp` holds a solution of `req`: its digest is the digest of
/// the attempt that its nonce makes, and meets the target.
pub fn is_valid_response(req: &MineRequest, resp: &WebworkerResponse) -> (valid: bool)
    ensures
        valid == (resp.hash@ == attempt(*req, resp.nonce) && is_solution(*req, resp.nonce)),
{
    let digest = mining_hash(&req.hash, &req.pubkey, resp.nonce);
    let same = hash_eq(&digest, &resp.hash);
    same && hash_le(&digest, &req.difficulty)
}

/// Finds the least nonce whose digest meets the target of `req`.
///
/// Returns the answer to `req`, or `None` where no 64-bit nonce solves it.
pub fn find_next_hash(req: MineRequest) -> (found: Option<WebworkerResponse>)
    ensures
        match found {
            Some(resp) => answers(req, 0, resp),
            None => no_solution_in(req, 0, u64::MAX),
        },
        is_max_target(req.difficulty@) ==> (found matches Some(resp) && resp.nonce == 0),
{
    search_range(&req, 0, u64::MAX)
}

} // verus!

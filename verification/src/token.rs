//! Allocation of registration tokens.

use vstd::prelude::*;

verus! {

/// The token that follows `token` in allocation order. The value space is
/// all of `usize`, so the successor of the greatest value is zero.
pub open spec fn successor(token: usize) -> usize {
    if token == usize::MAX {
        0
    } else {
        (token + 1) as usize
    }
}

/// The token handed out by the `k`-th allocation (counting from zero) of a
/// counter whose next token is `first`.
pub open spec fn token_at(first: usize, k: nat) -> usize
    decreases k,
{
    if k == 0 {
        first
    } else {
        successor(token_at(first, (k - 1) as nat))
    }
}

/// A counter that hands out tokens one after the other.
#[derive(Debug)]
pub struct TokenAllocator {
    next: usize,
}

impl TokenAllocator {
    /// The token the next allocation will hand out.
    pub closed spec fn upcoming(&self) -> usize {
        self.next
    }

    /// A counter whose first token is zero.
    pub fn new() -> (tokens: Self)
        ensures
            tokens.upcoming() == 0,
    {
        TokenAllocator { next: 0 }
    }

    /// A counter whose first token is `first`.
    pub fn starting_at(first: usize) -> (tokens: Self)
        ensures
            tokens.upcoming() == first,
    {
        TokenAllocator { next: first }
    }

    /// Hands out the next token.
    pub fn allocate(&mut self) -> (token: usize)
        ensures
            token == old(self).upcoming(),
            final(self).upcoming() == successor(token),
            token < usize::MAX ==> final(self).upcoming() > token,
    {
        let token: usize = self.next;
        self.next = if token == usize::MAX {
            0
        } else {
            token + 1
        };
        token
    }
}

/// As long as the value space is not exhausted, the `k`-th allocation hands
/// out `first + k`.
pub proof fn lemma_token_at(first: usize, k: nat)
    requires
        first + k <= usize::MAX,
    ensures
        token_at(first, k) == first + k,
    decreases k,
{
    if k > 0 {
        lemma_token_at(first, (k - 1) as nat);
    }
}

/// Tokens are handed out in strictly increasing order: of two allocations
/// from one counter the later one gets the greater token, as long as the
/// value space is not exhausted.
pub proof fn tokens_strictly_increase(first: usize, earlier: nat, later: nat)
    requires
        earlier < later,
        first + later <= usize::MAX,
    ensures
        token_at(first, earlier) < token_at(first, later),
{
    lemma_token_at(first, earlier);
    lemma_token_at(first, later);
}

/// Allocating twice hands out the token after the first one the second time.
pub proof fn allocation_follows_sequence(first: usize, k: nat)
    ensures
        token_at(first, k + 1) == successor(token_at(first, k)),
{
}

} // verus!

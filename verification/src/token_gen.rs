use vstd::prelude::*;

verus! {

/// The handle of a connection with the event loop.
pub type ConnectionId = usize;

/// Hands out the ids of connections: each one once, in rising order.
pub struct TokenGen {
    count: usize,
}

impl TokenGen {
    /// How many ids have been handed out. They are the numbers below this
    /// one.
    pub closed spec fn issued(self) -> nat {
        self.count as nat
    }

    /// A generator that has handed out nothing yet.
    pub fn new() -> (tokens: TokenGen)
        ensures
            tokens.issued() == 0,
    {
        TokenGen { count: 0 }
    }

    /// Whether every id has been handed out.
    pub fn exhausted(&self) -> (exhausted: bool)
        ensures
            exhausted == (self.issued() >= usize::MAX),
    {
        self.count == usize::MAX
    }

    /// The number of ids handed out so far.
    pub fn count(&self) -> (count: usize)
        ensures
            count == self.issued(),
    {
        self.count
    }

    /// The next id: one that has not been handed out before.
    pub fn get(&mut self) -> (id: ConnectionId)
        requires
            old(self).issued() < usize::MAX,
        ensures
            id == old(self).issued(),
            final(self).issued() == old(self).issued() + 1,
        no_unwind
    {
        let curr = self.count;
        self.count = self.count + 1;
        curr
    }
}

} // verus!

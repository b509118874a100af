//! The persistent IP blacklist: check, insert and remove banned
//! client addresses.
//!
//! Membership in the store is the sole authority for rejecting a
//! client outright on IP grounds.

use vstd::prelude::*;

use crate::addr::ClientAddr;

verus! {

/// The set of banned client addresses, owned by the gateway for its
/// whole lifetime and consulted on every inbound request.
pub struct BanStore {
    banned: Vec<ClientAddr>,
}

impl View for BanStore {
    type V = Set<ClientAddr>;

    /// The mathematical set of addresses the store currently bans.
    closed spec fn view(&self) -> Set<ClientAddr> {
        Set::new(|a: ClientAddr| self.banned@.contains(a))
    }
}

impl BanStore {
    /// Internal well-formedness: the backing list holds each address
    /// at most once.
    pub closed spec fn wf(&self) -> bool {
        forall|i: int, j: int|
            0 <= i < j < self.banned@.len() ==> self.banned@[i] != self.banned@[j]
    }

    /// An empty store: no address is banned at startup.
    pub fn new() -> (r: BanStore)
        ensures
            r.wf(),
            r@ == Set::<ClientAddr>::empty(),
    {
        let r = BanStore { banned: Vec::new() };
        proof {
            assert(r@ =~= Set::<ClientAddr>::empty());
        }
        r
    }

    /// The index of `addr` in the backing list, if it is present.
    fn position(&self, addr: ClientAddr) -> (r: Option<usize>)
        ensures
            match r {
                Some(i) => i < self.banned@.len() && self.banned@[i as int] == addr,
                None => !self.banned@.contains(addr),
            },
    {
        let n = self.banned.len();
        let mut i: usize = 0;
        while i < n
            invariant
                i <= n,
                n == self.banned@.len(),
                forall|j: int| 0 <= j < i ==> self.banned@[j] != addr,
            decreases n - i,
        {
            if self.banned[i] == addr {
                return Some(i);
            }
            i = i + 1;
        }
        None
    }

    /// Whether `addr` is currently banned.
    pub fn is_banned(&self, addr: ClientAddr) -> (r: bool)
        ensures
            r == self@.contains(addr),
    {
        self.position(addr).is_some()
    }

    /// Bans `addr`. Returns true if the address is newly banned and
    /// false if it was already present; either way the address is
    /// banned afterwards.
    pub fn ban(&mut self, addr: ClientAddr) -> (r: bool)
        requires
            old(self).wf(),
        ensures
            final(self).wf(),
            final(self)@ == old(self)@.insert(addr),
            r == !old(self)@.contains(addr),
    {
        match self.position(addr) {
            Some(_) => {
                proof {
                    assert(self@ =~= self@.insert(addr));
                }
                false
            }
            None => {
                let ghost before = self.banned@;
                self.banned.push(addr);
                proof {
                    assert forall|x: ClientAddr| #[trigger] self.banned@.contains(x)
                        <==> (before.contains(x) || x == addr) by {
                        vstd::seq_lib::lemma_seq_contains_after_push(before, addr, x);
                    }
                    assert(self@ =~= old(self)@.insert(addr));
                }
                true
            }
        }
    }

    /// Unbans `addr`. Returns true if the address was banned and is
    /// now removed, and false if it was absent (a no-op).
    pub fn unban(&mut self, addr: ClientAddr) -> (r: bool)
        requires
            old(self).wf(),
        ensures
            final(self).wf(),
            final(self)@ == old(self)@.remove(addr),
            r == old(self)@.contains(addr),
    {
        match self.position(addr) {
            Some(i) => {
                let ghost before = self.banned@;
                self.banned.remove(i);
                proof {
                    let after = self.banned@;
                    assert forall|x: ClientAddr| #[trigger] after.contains(x)
                        <==> (before.contains(x) && x != addr) by {
                        if after.contains(x) {
                            let k = choose|k: int| 0 <= k < after.len() && after[k] == x;
                            if k < i {
                                assert(before[k] == x);
                            } else {
                                assert(before[k + 1] == x);
                            }
                        }
                        if before.contains(x) && x != addr {
                            let k = choose|k: int| 0 <= k < before.len() && before[k] == x;
                            if k < i {
                                assert(after[k] == x);
                            } else {
                                assert(k > i);
                                assert(after[k - 1] == x);
                            }
                        }
                    }
                    assert(self@ =~= old(self)@.remove(addr));
                }
                true
            }
            None => {
                proof {
                    assert(self@ =~= self@.remove(addr));
                }
                false
            }
        }
    }
}

} // verus!

//! The rules of multicast group membership: which addresses may be
//! joined, no double joins, and idempotent teardown. The sockets
//! themselves live outside this crate and consult this bookkeeping.

use vstd::prelude::*;

verus! {

/// A multicast endpoint: group address and UDP port. Equality is by both
/// fields.
#[derive(Debug, Clone, Copy, PartialEq, Eq, Hash)]
pub struct Endpoint {
    /// The group address, as four dotted-quad bytes.
    pub addr: [u8; 4],
    /// The UDP port.
    pub port: u16,
}

/// Errors of group membership.
#[derive(Debug, Clone, Copy, PartialEq, Eq)]
pub enum MulticastError {
    /// The address is outside the IPv4 multicast range.
    NotMulticast([u8; 4]),
    /// The group was already joined.
    AlreadyJoined([u8; 4]),
    /// The group was never joined.
    NotMember([u8; 4]),
}

/// Whether an IPv4 address is multicast: 224.0.0.0/4.
pub open spec fn spec_is_multicast(addr: [u8; 4]) -> bool {
    224 <= addr[0] <= 239
}

/// Whether an IPv4 address is multicast: 224.0.0.0/4.
pub fn is_multicast_v4(addr: [u8; 4]) -> (r: bool)
    ensures
        r == spec_is_multicast(addr),
{
    224 <= addr[0] && addr[0] <= 239
}

/// The joined groups of one socket.
#[derive(Debug)]
pub struct GroupMembership {
    /// The groups joined so far, each at most once.
    pub joined: Vec<[u8; 4]>,
}

impl GroupMembership {
    /// No group appears twice.
    pub open spec fn wf(&self) -> bool {
        forall|i: int, j: int|
            0 <= i < j < self.joined@.len() ==> self.joined@[i] != self.joined@[j]
    }

    /// No groups joined.
    pub fn new() -> (r: Self)
        ensures
            r.joined@.len() == 0,
            r.wf(),
    {
        GroupMembership { joined: Vec::new() }
    }

    /// Whether a group is joined.
    pub fn is_member(&self, group: [u8; 4]) -> (r: bool)
        ensures
            r == self.joined@.contains(group),
    {
        let mut i: usize = 0;
        while i < self.joined.len()
            invariant
                i <= self.joined@.len(),
                forall|j: int| 0 <= j < i ==> self.joined@[j] != group,
            decreases self.joined@.len() - i,
        {
            let g = self.joined[i];
            if g[0] == group[0] && g[1] == group[1] && g[2] == group[2] && g[3] == group[3] {
                proof {
                    assert(g =~= group);
                }
                return true;
            }
            proof {
                assert(g != group) by {
                    if g == group {
                        assert(g[0] == group[0]);
                    }
                };
            }
            i = i + 1;
        }
        false
    }

    /// Joins a group: rejects addresses outside the multicast range and
    /// groups already joined.
    pub fn join(&mut self, group: [u8; 4]) -> (r: Result<(), MulticastError>)
        requires
            old(self).wf(),
        ensures
            final(self).wf(),
            !spec_is_multicast(group) ==> (r matches Err(MulticastError::NotMulticast(g)) && g
                == group) && final(self).joined@ == old(self).joined@,
            spec_is_multicast(group) && old(self).joined@.contains(group) ==> (r matches Err(
                MulticastError::AlreadyJoined(g),
            ) && g == group) && final(self).joined@ == old(self).joined@,
            spec_is_multicast(group) && !old(self).joined@.contains(group) ==> (r matches Ok(_)
                && final(self).joined@ == old(self).joined@.push(group)),
    {
        if !is_multicast_v4(group) {
            return Err(MulticastError::NotMulticast(group));
        }
        if self.is_member(group) {
            return Err(MulticastError::AlreadyJoined(group));
        }
        self.joined.push(group);
        proof {
            assert forall|i: int, j: int|
                0 <= i < j < self.joined@.len() implies self.joined@[i] != self.joined@[j] by {
                if j == self.joined@.len() - 1 {
                    assert(self.joined@[j] == group);
                    assert(old(self).joined@[i] == self.joined@[i]);
                    assert(!old(self).joined@.contains(group));
                }
            };
        }
        Ok(())
    }

    /// Leaves a group: rejects groups never joined.
    pub fn leave(&mut self, group: [u8; 4]) -> (r: Result<(), MulticastError>)
        requires
            old(self).wf(),
        ensures
            final(self).wf(),
            !old(self).joined@.contains(group) ==> (r matches Err(MulticastError::NotMember(g)) && g
                == group) && final(self).joined@ == old(self).joined@,
            old(self).joined@.contains(group) ==> (r matches Ok(_) && final(self).joined@.len()
                == old(self).joined@.len() - 1 && !final(self).joined@.contains(group) && (forall|
                x: [u8; 4],
            |
                x != group ==> (final(self).joined@.contains(x) == old(self).joined@.contains(
                    x,
                )))),
    {
        let ghost v0 = self.joined@;
        let mut i: usize = 0;
        while i < self.joined.len()
            invariant
                i <= self.joined@.len(),
                self.joined@ == v0,
                old(self).wf(),
                v0 == old(self).joined@,
                forall|j: int| 0 <= j < i ==> v0[j] != group,
            decreases self.joined@.len() - i,
        {
            let g = self.joined[i];
            if g[0] == group[0] && g[1] == group[1] && g[2] == group[2] && g[3] == group[3] {
                proof {
                    assert(g =~= group);
                }
                self.joined.remove(i);
                proof {
                    assert(self.joined@ =~= v0.remove(i as int));
                    assert forall|a: int, b: int|
                        0 <= a < b < self.joined@.len() implies self.joined@[a]
                        != self.joined@[b] by {
                        if b < i {
                            assert(self.joined@[a] == v0[a] && self.joined@[b] == v0[b]);
                        } else if a < i {
                            assert(self.joined@[a] == v0[a] && self.joined@[b] == v0[b + 1]);
                        } else {
                            assert(self.joined@[a] == v0[a + 1] && self.joined@[b] == v0[b + 1]);
                        }
                    };
                    assert(!self.joined@.contains(group)) by {
                        if self.joined@.contains(group) {
                            let k = choose|k: int|
                                0 <= k < self.joined@.len() && self.joined@[k] == group;
                            if k < i {
                                assert(v0[k] == group);
                            } else {
                                assert(v0[k + 1] == group);
                                assert(v0[i as int] == group);
                            }
                        }
                    };
                    assert forall|x: [u8; 4]| x != group implies (self.joined@.contains(x)
                        == v0.contains(x)) by {
                        if self.joined@.contains(x) {
                            let k = choose|k: int|
                                0 <= k < self.joined@.len() && self.joined@[k] == x;
                            if k < i {
                                assert(v0[k] == x);
                            } else {
                                assert(v0[k + 1] == x);
                            }
                        }
                        if v0.contains(x) {
                            let k = choose|k: int| 0 <= k < v0.len() && v0[k] == x;
                            if k < i {
                                assert(self.joined@[k] == x);
                            } else if k > i {
                                assert(self.joined@[k - 1] == x);
                            } else {
                                assert(x == group);
                            }
                        }
                    };
                }
                return Ok(());
            }
            proof {
                assert(g != group) by {
                    if g == group {
                        assert(g[0] == group[0]);
                    }
                };
            }
            i = i + 1;
        }
        Err(MulticastError::NotMember(group))
    }

    /// Leaves every group; always succeeds, joined or not.
    pub fn leave_all(&mut self)
        ensures
            final(self).joined@.len() == 0,
            final(self).wf(),
    {
        self.joined.clear();
    }
}

} // verus!

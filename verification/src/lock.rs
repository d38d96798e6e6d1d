//! Per-name deployment locks.
//!
//! A deploy of name `N` is serialized against other deploys of `N` through a
//! marker keyed by the name. The registry models the marker state: its view is
//! the set of names whose marker is present. The driver around the library
//! mirrors each operation onto the marker file derived by
//! [`crate::lock_marker_name`].

use vstd::prelude::*;

verus! {

/// The set of deployment names whose lock marker is present.
pub struct LockRegistry {
    locked: Vec<String>,
}

/// One operation on the lock registry, for stating laws over histories.
pub enum LockOp {
    Acquire { name: Seq<char> },
    Release { name: Seq<char> },
}

/// The lock state after one operation.
pub open spec fn apply_lock_op(s: Set<Seq<char>>, op: LockOp) -> Set<Seq<char>> {
    match op {
        LockOp::Acquire { name } => s.insert(name),
        LockOp::Release { name } => s.remove(name),
    }
}

/// The lock state after a history of operations, oldest first.
pub open spec fn apply_lock_ops(s: Set<Seq<char>>, ops: Seq<LockOp>) -> Set<Seq<char>>
    decreases ops.len(),
{
    if ops.len() == 0 {
        s
    } else {
        apply_lock_ops(apply_lock_op(s, ops[0]), ops.drop_first())
    }
}

proof fn lemma_push_contains<A>(s: Seq<A>, x: A, y: A)
    ensures
        s.push(x).contains(y) <==> (s.contains(y) || y == x),
{
    if s.contains(y) {
        let j = choose|j: int| 0 <= j < s.len() && s[j] == y;
        assert(s.push(x)[j] == y);
    }
    if y == x {
        assert(s.push(x)[s.len() as int] == y);
    }
    if s.push(x).contains(y) && y != x {
        let j = choose|j: int| 0 <= j < s.push(x).len() && s.push(x)[j] == y;
        assert(s[j] == y);
    }
}

impl View for LockRegistry {
    type V = Set<Seq<char>>;

    closed spec fn view(&self) -> Set<Seq<char>> {
        self.locked.deep_view().to_set()
    }
}

impl LockRegistry {
    /// A registry with no name locked.
    pub fn new() -> (r: LockRegistry)
        ensures
            r@ == Set::<Seq<char>>::empty(),
    {
        let r = LockRegistry { locked: Vec::new() };
        proof {
            assert(r@ =~= Set::<Seq<char>>::empty());
        }
        r
    }

    /// Whether the lock for `name` is held.
    pub fn is_locked(&self, name: &str) -> (b: bool)
        ensures
            b == self@.contains(name@),
    {
        let target: String = name.to_owned();
        let n = self.locked.len();
        let mut i: usize = 0;
        while i < n
            invariant
                n == self.locked.len(),
                i <= n,
                target@ == name@,
                forall|j: int| 0 <= j < i ==> self.locked.deep_view()[j] != name@,
            decreases n - i,
        {
            if self.locked[i] == target {
                proof {
                    assert(self.locked.deep_view()[i as int] == name@);
                    assert(self.locked.deep_view().contains(name@));
                }
                return true;
            }
            i += 1;
        }
        proof {
            assert(!self.locked.deep_view().contains(name@));
        }
        false
    }

    /// Acquires the lock for `name`.
    pub fn lock(&mut self, name: &str)
        ensures
            final(self)@ == old(self)@.insert(name@),
            final(self)@ == apply_lock_op(old(self)@, LockOp::Acquire { name: name@ }),
            final(self)@.contains(name@),
    {
        self.locked.push(name.to_owned());
        proof {
            let pre = old(self).locked.deep_view();
            let post = self.locked.deep_view();
            assert(post =~= pre.push(name@));
            assert forall|s: Seq<char>|
                self@.contains(s) <==> old(self)@.insert(name@).contains(s) by {
                lemma_push_contains(pre, name@, s);
            }
            assert(self@ =~= old(self)@.insert(name@));
        }
    }

    /// Releases the lock for `name`.
    pub fn unlock(&mut self, name: &str)
        ensures
            final(self)@ == old(self)@.remove(name@),
            final(self)@ == apply_lock_op(old(self)@, LockOp::Release { name: name@ }),
            !final(self)@.contains(name@),
    {
        let target: String = name.to_owned();
        let mut kept: Vec<String> = Vec::new();
        let n = self.locked.len();
        let mut i: usize = 0;
        while i < n
            invariant
                n == self.locked.len(),
                i <= n,
                target@ == name@,
                forall|s: Seq<char>| #[trigger]
                    kept.deep_view().contains(s) <==> (self.locked.deep_view().take(
                        i as int,
                    ).contains(s) && s != name@),
            decreases n - i,
        {
            let ghost pre_kept = kept.deep_view();
            let ghost ldv = self.locked.deep_view();
            let ghost x = ldv[i as int];
            let keep_it = !(self.locked[i] == target);
            if keep_it {
                kept.push(self.locked[i].clone());
            }
            proof {
                assert(ldv.take(i + 1 as int) =~= ldv.take(i as int).push(x));
                if keep_it {
                    assert(kept.deep_view() =~= pre_kept.push(x));
                }
                assert forall|s: Seq<char>| #[trigger]
                    kept.deep_view().contains(s) <==> (ldv.take(i + 1 as int).contains(s) && s
                        != name@) by {
                    lemma_push_contains(pre_kept, x, s);
                    lemma_push_contains(ldv.take(i as int), x, s);
                }
            }
            i += 1;
        }
        proof {
            assert(self.locked.deep_view().take(n as int) =~= self.locked.deep_view());
        }
        self.locked = kept;
        proof {
            assert(self@ =~= old(self)@.remove(name@));
        }
    }
}

/// Law: a name stays locked across any sequence of operations that contains
/// no release of that name.
pub proof fn lemma_locked_stays(s: Set<Seq<char>>, name: Seq<char>, ops: Seq<LockOp>)
    requires
        s.contains(name),
        forall|i: int| 0 <= i < ops.len() ==> ops[i] != (LockOp::Release { name }),
    ensures
        apply_lock_ops(s, ops).contains(name),
    decreases ops.len(),
{
    if ops.len() > 0 {
        let s1 = apply_lock_op(s, ops[0]);
        assert(s1.contains(name));
        assert(forall|i: int|
            0 <= i < ops.drop_first().len() ==> ops.drop_first()[i] != (LockOp::Release { name }));
        lemma_locked_stays(s1, name, ops.drop_first());
    }
}

/// Law: after an acquire of `name` succeeds, `name` is locked until a release
/// of `name` executes — any history free of such a release keeps it locked.
pub proof fn lemma_acquire_holds_until_release(
    s: Set<Seq<char>>,
    name: Seq<char>,
    ops: Seq<LockOp>,
)
    requires
        forall|i: int| 0 <= i < ops.len() ==> ops[i] != (LockOp::Release { name }),
    ensures
        apply_lock_ops(s.insert(name), ops).contains(name),
{
    lemma_locked_stays(s.insert(name), name, ops);
}

/// Law: immediately after a release of `name`, `name` is not locked.
pub proof fn lemma_release_unlocks(s: Set<Seq<char>>, name: Seq<char>)
    ensures
        !apply_lock_op(s, LockOp::Release { name }).contains(name),
{
}

} // verus!

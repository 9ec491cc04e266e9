//! Callback registries. Each registered callback is paired with a handle;
//! when the handle is dropped, the callback is removed on the next run.

use vstd::prelude::*;

use std::rc::Rc;
use std::rc::Weak;

verus! {

// =================
// === Callbacks ===
// =================

/// An argument-free callback that may update its own state. The registry
/// promises nothing about what a callback does: implementors are free.
pub trait CallbackMutFn {
    /// Fires the callback.
    fn run(&mut self);
}

/// A callback taking one argument by value.
pub trait CallbackMut1Fn<T> {
    /// Fires the callback on `t`.
    fn run(&mut self, t: T);
}

// ======================
// === CallbackHandle ===
// ======================

/// A guard made from a handle; tells whether that handle still lives.
/// The weak reference inside is opaque: only its liveness is ever
/// consulted, through the trusted calls below.
#[verifier::external_body]
pub struct Guard {
    weak: Weak<()>,
}

/// Relies on std::rc::Rc::downgrade: makes a weak reference to the same
/// allocation. Nothing further is assumed of the result.
#[verifier::external_body]
fn rc_downgrade(rc: &Rc<()>) -> Guard {
    Guard { weak: Rc::downgrade(rc) }
}

/// Relies on std::rc::Weak::upgrade: returns a strong reference as long
/// as the allocation still lives, `None` once it does not. Liveness is
/// outside the model, so nothing is assumed of the result.
#[verifier::external_body]
fn weak_upgrade(guard: &Guard) -> Option<Rc<()>> {
    guard.weak.upgrade()
}

/// Handle to a registered callback. Dropping the handle invalidates every
/// guard made from it, which removes the callback from its registry on
/// the next run.
pub struct CallbackHandle {
    rc: Rc<()>,
}

impl CallbackHandle {
    /// Creates a fresh handle.
    pub fn new() -> Self {
        CallbackHandle { rc: Rc::new(()) }
    }

    /// Creates a guard watching this handle.
    pub fn guard(&self) -> Guard {
        rc_downgrade(&self.rc)
    }

    /// Relies on std::mem::forget: leaks the handle, so its callback can
    /// never again be removed through it.
    #[verifier::external_body]
    pub fn forget(self) {
        std::mem::forget(self)
    }
}

impl Default for CallbackHandle {
    /// A fresh handle.
    fn default() -> Self {
        CallbackHandle::new()
    }
}

impl Guard {
    /// Whether the guarded handle still lives. The answer depends on
    /// ownership state outside the model, so nothing is promised of it.
    pub fn alive(&self) -> bool {
        weak_upgrade(self).is_some()
    }
}

// ========================
// === CallbackRegistry ===
// ========================

/// One sequence is a subsequence of another: it keeps some of the other's
/// items, in their order.
pub open spec fn is_subsequence_of<T>(sub: Seq<T>, sup: Seq<T>) -> bool
    decreases sub.len(), sup.len(),
{
    if sub.len() == 0 {
        true
    } else if sup.len() == 0 {
        false
    } else {
        (sub.last() == sup.last() && is_subsequence_of(sub.drop_last(), sup.drop_last()))
            || is_subsequence_of(sub, sup.drop_last())
    }
}

/// After a run: the surviving entries carry, guard for guard and in
/// order, the guards of some subsequence of the previous entries; the
/// callbacks themselves may have updated their own state.
pub open spec fn retains_guards_of<C>(post: Seq<(Guard, C)>, prev: Seq<(Guard, C)>) -> bool {
    exists|kept: Seq<(Guard, C)>|
        #[trigger] is_subsequence_of(kept, prev) && post.len() == kept.len() && (forall|k: int|
            0 <= k < kept.len() ==> post[k].0 == kept[k].0)
}

/// Registry gathering argument-free callbacks. Each entry pairs the guard
/// of its handle with the callback; an entry whose handle was dropped is
/// discarded the next time the registry runs.
pub struct CallbackRegistry<C> {
    callback_list: Vec<(Guard, C)>,
}

impl<C> CallbackRegistry<C> {
    /// The registered entries, in registration order.
    pub closed spec fn entries(&self) -> Seq<(Guard, C)> {
        self.callback_list@
    }

    /// The number of registered entries.
    pub fn len(&self) -> (n: usize)
        ensures
            n == self.entries().len(),
    {
        self.callback_list.len()
    }

    /// An empty registry.
    pub fn new() -> (r: Self)
        ensures
            r.entries() == Seq::<(Guard, C)>::empty(),
    {
        CallbackRegistry { callback_list: Vec::new() }
    }
}

impl<C: CallbackMutFn> CallbackRegistry<C> {
    /// Registers a callback and hands back the handle that keeps it
    /// alive. The new entry goes last; the others stay as they were.
    pub fn add(&mut self, callback: C) -> (handle: CallbackHandle)
        ensures
            final(self).entries().len() == old(self).entries().len() + 1,
            final(self).entries().last().1 == callback,
            forall|k: int|
                0 <= k < old(self).entries().len() ==> final(self).entries()[k] == old(
                    self,
                ).entries()[k],
    {
        let handle = CallbackHandle::new();
        let guard = handle.guard();
        self.callback_list.push((guard, callback));
        handle
    }

    /// Drops every entry whose handle no longer lives; what stays is a
    /// subsequence of what was there, in its order.
    fn clear_unused_callbacks(&mut self)
        ensures
            is_subsequence_of(final(self).entries(), old(self).entries()),
    {
        let mut source: Vec<(Guard, C)> = Vec::new();
        core::mem::swap(&mut source, &mut self.callback_list);
        let ghost all: Seq<(Guard, C)> = source@;
        let n: usize = source.len();
        let mut i: usize = 0;
        while i < n
            invariant
                n == all.len(),
                i <= n,
                source@ == all.subrange(i as int, n as int),
                is_subsequence_of(self.callback_list@, all.take(i as int)),
            decreases n - i,
        {
            let entry = source.remove(0);
            proof {
                assert(entry == all[i as int]);
                assert(source@ =~= all.subrange(i + 1, n as int));
            }
            let ghost kept = self.callback_list@;
            if entry.0.alive() {
                self.callback_list.push(entry);
            }
            proof {
                let post = all.take(i + 1);
                assert(post.drop_last() =~= all.take(i as int));
                assert(post.last() == all[i as int]);
                if self.callback_list@ != kept {
                    assert(self.callback_list@.drop_last() =~= kept);
                }
            }
            i = i + 1;
        }
        proof {
            assert(all.take(n as int) =~= all);
        }
    }

    /// Fires every callback whose handle still lives, in registration
    /// order, after discarding the dead entries. The surviving guards are
    /// those of a subsequence of the old entries; the callbacks may have
    /// updated their own state.
    pub fn run_all(&mut self)
        ensures
            retains_guards_of(final(self).entries(), old(self).entries()),
    {
        self.clear_unused_callbacks();
        let ghost kept: Seq<(Guard, C)> = self.callback_list@;
        let n: usize = self.callback_list.len();
        let mut i: usize = 0;
        while i < n
            invariant
                n == kept.len(),
                self.callback_list@.len() == n,
                i <= n,
                forall|k: int|
                    0 <= k < n - i ==> self.callback_list@[k] == kept[k + i],
                forall|k: int|
                    n - i <= k < n ==> self.callback_list@[k].0 == kept[k - (n - i)].0,
            decreases n - i,
        {
            let mut entry = self.callback_list.remove(0);
            entry.1.run();
            self.callback_list.push(entry);
            i = i + 1;
        }
    }
}

impl<C> Default for CallbackRegistry<C> {
    /// An empty registry.
    fn default() -> (r: Self)
        ensures
            r.entries() == Seq::<(Guard, C)>::empty(),
    {
        CallbackRegistry { callback_list: Vec::new() }
    }
}

// =========================
// === CallbackRegistry1 ===
// =========================

/// Registry gathering callbacks that take one argument by value.
pub struct CallbackRegistry1<T, C> {
    callback_list: Vec<(Guard, C)>,
    phantom: core::marker::PhantomData<T>,
}

impl<T: Copy, C: CallbackMut1Fn<T>> CallbackRegistry1<T, C> {
    /// The registered entries, in registration order.
    pub closed spec fn entries(&self) -> Seq<(Guard, C)> {
        self.callback_list@
    }

    /// An empty registry.
    pub fn new() -> (r: Self)
        ensures
            r.entries() == Seq::<(Guard, C)>::empty(),
    {
        CallbackRegistry1 { callback_list: Vec::new(), phantom: core::marker::PhantomData }
    }

    /// Registers a callback and hands back the handle that keeps it
    /// alive. The new entry goes last; the others stay as they were.
    pub fn add(&mut self, callback: C) -> (handle: CallbackHandle)
        ensures
            final(self).entries().len() == old(self).entries().len() + 1,
            final(self).entries().last().1 == callback,
            forall|k: int|
                0 <= k < old(self).entries().len() ==> final(self).entries()[k] == old(
                    self,
                ).entries()[k],
    {
        let handle = CallbackHandle::new();
        let guard = handle.guard();
        self.callback_list.push((guard, callback));
        handle
    }

    /// Drops every entry whose handle no longer lives.
    fn clear_unused_callbacks(&mut self)
        ensures
            is_subsequence_of(final(self).entries(), old(self).entries()),
    {
        let mut source: Vec<(Guard, C)> = Vec::new();
        core::mem::swap(&mut source, &mut self.callback_list);
        let ghost all: Seq<(Guard, C)> = source@;
        let n: usize = source.len();
        let mut i: usize = 0;
        while i < n
            invariant
                n == all.len(),
                i <= n,
                source@ == all.subrange(i as int, n as int),
                is_subsequence_of(self.callback_list@, all.take(i as int)),
            decreases n - i,
        {
            let entry = source.remove(0);
            proof {
                assert(entry == all[i as int]);
                assert(source@ =~= all.subrange(i + 1, n as int));
            }
            let ghost kept = self.callback_list@;
            if entry.0.alive() {
                self.callback_list.push(entry);
            }
            proof {
                let post = all.take(i + 1);
                assert(post.drop_last() =~= all.take(i as int));
                assert(post.last() == all[i as int]);
                if self.callback_list@ != kept {
                    assert(self.callback_list@.drop_last() =~= kept);
                }
            }
            i = i + 1;
        }
        proof {
            assert(all.take(n as int) =~= all);
        }
    }

    /// Fires every callback whose handle still lives on `t`, in
    /// registration order, after discarding the dead entries.
    pub fn run_all(&mut self, t: T)
        ensures
            retains_guards_of(final(self).entries(), old(self).entries()),
    {
        self.clear_unused_callbacks();
        let ghost kept: Seq<(Guard, C)> = self.callback_list@;
        let n: usize = self.callback_list.len();
        let mut i: usize = 0;
        while i < n
            invariant
                n == kept.len(),
                self.callback_list@.len() == n,
                i <= n,
                forall|k: int|
                    0 <= k < n - i ==> self.callback_list@[k] == kept[k + i],
                forall|k: int|
                    n - i <= k < n ==> self.callback_list@[k].0 == kept[k - (n - i)].0,
            decreases n - i,
        {
            let mut entry = self.callback_list.remove(0);
            entry.1.run(t);
            self.callback_list.push(entry);
            i = i + 1;
        }
    }
}

impl<T: Copy, C: CallbackMut1Fn<T>> Default for CallbackRegistry1<T, C> {
    /// An empty registry.
    fn default() -> (r: Self)
        ensures
            r.entries() == Seq::<(Guard, C)>::empty(),
    {
        CallbackRegistry1 { callback_list: Vec::new(), phantom: core::marker::PhantomData }
    }
}

} // verus!

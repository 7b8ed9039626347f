//! Stable references into append-only stores.
//!
//! Every resource lives in a [`Registry`] and is addressed by the [`Handle`]
//! that `add` returned for it. Entries are never removed, so a handle stays
//! valid for as long as the registry that issued it.

use std::marker::PhantomData;
use vstd::prelude::*;
use vstd::std_specs::cmp::PartialEqSpecImpl;

verus! {

/// A typed position in a [`Registry`].
///
/// Two handles are equal exactly when they name the same position; the type
/// parameter keeps handles of different resource kinds apart at compile time.
pub struct Handle<T> {
    index: usize,
    marker: PhantomData<T>,
}

impl<T> View for Handle<T> {
    type V = nat;

    /// The position the handle names.
    closed spec fn view(&self) -> nat {
        self.index as nat
    }
}

impl<T> Handle<T> {
    /// The handle that names position `index`.
    pub closed spec fn at(index: nat) -> Handle<T> {
        Handle { index: index as usize, marker: PhantomData }
    }

    /// The handle of a position names that position.
    pub proof fn lemma_at(index: nat)
        requires
            index <= usize::MAX,
        ensures
            Handle::<T>::at(index)@ == index,
    {
    }

    pub(crate) fn new(val: usize) -> (handle: Handle<T>)
        ensures
            handle@ == val,
            handle == Handle::<T>::at(val as nat),
    {
        Handle { index: val, marker: PhantomData }
    }

    /// The position the handle names, for callers that keep data of their own
    /// beside a registry.
    pub fn index(&self) -> (i: usize)
        ensures
            i == self@,
    {
        self.index
    }

    /// Handles are determined by their position.
    pub proof fn lemma_eq_by_index(a: Handle<T>, b: Handle<T>)
        ensures
            (a == b) <==> (a@ == b@),
    {
    }
}

impl<T> Clone for Handle<T> {
    fn clone(&self) -> (copy: Self)
        ensures
            copy == *self,
    {
        Handle { index: self.index, marker: PhantomData }
    }
}

impl<T> Copy for Handle<T> {}

impl<T> PartialEq for Handle<T> {
    fn eq(&self, other: &Self) -> (equal: bool) {
        other.index == self.index
    }
}

impl<T> Eq for Handle<T> {}

impl<T> PartialEqSpecImpl for Handle<T> {
    open spec fn obeys_eq_spec() -> bool {
        true
    }

    open spec fn eq_spec(&self, other: &Self) -> bool {
        other@ == self@
    }
}

/// The handles of the positions below `n` that `chosen` picks, in ascending
/// order.
pub open spec fn positions<T>(n: nat, chosen: spec_fn(int) -> bool) -> Seq<Handle<T>>
    decreases n,
{
    if n == 0 {
        Seq::empty()
    } else if chosen(n - 1) {
        positions::<T>((n - 1) as nat, chosen).push(Handle::at((n - 1) as nat))
    } else {
        positions::<T>((n - 1) as nat, chosen)
    }
}

/// `positions` lists exactly the positions picked, each one once, in ascending
/// order.
pub proof fn lemma_positions<T>(n: nat, chosen: spec_fn(int) -> bool)
    requires
        n <= usize::MAX,
    ensures
        forall|k: int|
            0 <= k < positions::<T>(n, chosen).len() ==> {
                let position = (#[trigger] positions::<T>(n, chosen)[k])@;
                position < n && chosen(position as int)
            },
        forall|j: int, k: int|
            0 <= j < k < positions::<T>(n, chosen).len() ==> (#[trigger] positions::<T>(n, chosen)[j])@ < (
            #[trigger] positions::<T>(n, chosen)[k])@,
        forall|p: int|
            0 <= p < n && #[trigger] chosen(p) ==> exists|k: int|
                0 <= k < positions::<T>(n, chosen).len() && (#[trigger] positions::<T>(n, chosen)[k])@ == p,
    decreases n,
{
    if n > 0 {
        let before = positions::<T>((n - 1) as nat, chosen);
        let all = positions::<T>(n, chosen);
        lemma_positions::<T>((n - 1) as nat, chosen);
        if chosen(n - 1) {
            assert forall|p: int| 0 <= p < n && #[trigger] chosen(p) implies exists|k: int|
                0 <= k < all.len() && (#[trigger] all[k])@ == p by {
                if p == n - 1 {
                    assert(all[all.len() - 1]@ == p);
                } else {
                    let k = choose|k: int| 0 <= k < before.len() && (#[trigger] before[k])@ == p;
                    assert(all[k]@ == p);
                }
            }
        }
    }
}

/// `positions` depends on what is picked below `n` only.
pub proof fn lemma_positions_same<T>(n: nat, chosen: spec_fn(int) -> bool, other: spec_fn(int) -> bool)
    requires
        forall|i: int| 0 <= i < n ==> #[trigger] chosen(i) == other(i),
    ensures
        positions::<T>(n, chosen) == positions::<T>(n, other),
    decreases n,
{
    if n > 0 {
        lemma_positions_same::<T>((n - 1) as nat, chosen, other);
    }
}

/// An append-only store of resources.
pub struct Registry<T> {
    data: Vec<T>,
}

impl<T> View for Registry<T> {
    type V = Seq<T>;

    /// The entries in the order they were added.
    closed spec fn view(&self) -> Seq<T> {
        self.data@
    }
}

impl<T> Registry<T> {
    pub fn new() -> (registry: Registry<T>)
        ensures
            registry@ == Seq::<T>::empty(),
    {
        Registry { data: Vec::new() }
    }

    /// Appends `val` and returns the handle that names it from now on.
    pub fn add(&mut self, val: T) -> (handle: Handle<T>)
        ensures
            final(self)@ == old(self)@.push(val),
            handle@ == old(self)@.len(),
    {
        let handle = Handle::new(self.data.len());
        self.data.push(val);
        handle
    }

    /// The entry `handle` names, or `None` for a handle this registry never
    /// issued.
    pub fn get(&self, handle: Handle<T>) -> (entry: Option<&T>)
        ensures
            handle@ < self@.len() ==> entry == Some(&self@[handle@ as int]),
            handle@ >= self@.len() ==> entry.is_none(),
    {
        if handle.index < self.data.len() {
            Some(&self.data[handle.index])
        } else {
            None
        }
    }

    /// The entry `handle` names.
    pub fn entry(&self, handle: Handle<T>) -> (entry: &T)
        requires
            handle@ < self@.len(),
        ensures
            *entry == self@[handle@ as int],
    {
        &self.data[handle.index]
    }

    pub(crate) fn entry_mut(&mut self, handle: Handle<T>) -> (entry: &mut T)
        requires
            handle@ < old(self)@.len(),
        ensures
            *entry == old(self)@[handle@ as int],
            final(self)@ == old(self)@.update(handle@ as int, *final(entry)),
    {
        &mut self.data[handle.index]
    }

    /// The entry `handle` names, for changing it in place.
    pub fn get_mut(&mut self, handle: Handle<T>) -> (entry: Option<&mut T>)
        ensures
            handle@ < old(self)@.len() ==> entry.is_some() && *entry.unwrap() == old(self)@[handle@ as int]
                && final(self)@ == old(self)@.update(handle@ as int, *final(entry.unwrap())),
            handle@ >= old(self)@.len() ==> entry.is_none() && final(self)@ == old(self)@,
    {
        if handle.index < self.data.len() {
            Some(&mut self.data[handle.index])
        } else {
            None
        }
    }

    /// How many entries were added so far.
    pub fn len(&self) -> (n: usize)
        ensures
            n == self@.len(),
    {
        self.data.len()
    }

    /// Whether each of `handles` names an entry of this registry.
    pub fn contains_all(&self, handles: &[Handle<T>]) -> (known: bool)
        ensures
            known == (forall|i: int| 0 <= i < handles@.len() ==> (#[trigger] handles@[i])@ < self@.len()),
    {
        let mut i: usize = 0;
        while i < handles.len()
            invariant
                i <= handles@.len(),
                forall|j: int| 0 <= j < i ==> (#[trigger] handles@[j])@ < self@.len(),
            decreases handles@.len() - i,
        {
            if handles[i].index >= self.data.len() {
                return false;
            }
            i += 1;
        }
        true
    }

    /// Whether `handle` names an entry of this registry.
    pub fn contains(&self, handle: Handle<T>) -> (known: bool)
        ensures
            known == (handle@ < self@.len()),
    {
        handle.index < self.data.len()
    }
}

impl<T> Default for Registry<T> {
    fn default() -> (registry: Self)
        ensures
            registry@ == Seq::<T>::empty(),
    {
        Registry::new()
    }
}

} // verus!

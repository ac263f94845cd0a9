//! The pool of constants that are too wide to be held by an instruction.

use crate::bytecode::ConstRef;
use crate::error::{TranslationError, TranslationErrorInner};
use crate::value::UntypedValue;
use vstd::prelude::*;

verus! {

/// What a [`ConstPool`] holds: its values by slot, and how many it may hold.
pub struct ConstPoolView {
    /// The pooled values. The value at position `i` lives in slot `i`.
    pub values: Seq<UntypedValue>,
    /// The number of values that the pool can hold.
    pub capacity: nat,
}

impl ConstPoolView {
    /// Whether the pool already holds `value`.
    pub open spec fn contains(self, value: UntypedValue) -> bool {
        self.values.contains(value)
    }

    /// Whether `value` can be given a slot: it has one, or one is free.
    pub open spec fn can_intern(self, value: UntypedValue) -> bool {
        self.contains(value) || self.values.len() < self.capacity
    }

    /// The slot that `value` is given: its own if it has one, else the next
    /// free slot.
    pub open spec fn slot(self, value: UntypedValue) -> ConstRef {
        if self.contains(value) {
            ConstRef { index: self.values.index_of(value) as u32 }
        } else {
            ConstRef { index: self.values.len() as u32 }
        }
    }

    /// The pool after `value` was given a slot.
    pub open spec fn interned(self, value: UntypedValue) -> ConstPoolView {
        if self.contains(value) {
            self
        } else {
            ConstPoolView { values: self.values.push(value), capacity: self.capacity }
        }
    }

    /// No value has two slots, and every slot can be addressed.
    pub open spec fn wf(self) -> bool {
        &&& self.values.no_duplicates()
        &&& self.values.len() <= self.capacity
        &&& self.capacity <= u32::MAX
    }
}

/// A pool of constants, deduplicated by value. A value keeps its slot for as
/// long as the pool lives.
#[derive(Debug)]
pub struct ConstPool {
    values: Vec<UntypedValue>,
    capacity: u32,
}

impl View for ConstPool {
    type V = ConstPoolView;

    closed spec fn view(&self) -> ConstPoolView {
        ConstPoolView { values: self.values@, capacity: self.capacity as nat }
    }
}

impl ConstPool {
    /// The invariant of the pool: that of its view.
    pub open spec fn wf(&self) -> bool {
        self@.wf()
    }

    /// Creates an empty pool that holds as many values as an instruction
    /// can address.
    pub fn new() -> (res: ConstPool)
        ensures
            res.wf(),
            res@.values == Seq::<UntypedValue>::empty(),
            res@.capacity == u32::MAX,
    {
        ConstPool { values: Vec::new(), capacity: u32::MAX }
    }

    /// Creates an empty pool that holds at most `capacity` values.
    pub fn with_capacity(capacity: u32) -> (res: ConstPool)
        ensures
            res.wf(),
            res@.values == Seq::<UntypedValue>::empty(),
            res@.capacity == capacity,
    {
        ConstPool { values: Vec::new(), capacity }
    }

    /// The number of pooled values.
    pub fn len(&self) -> (res: usize)
        ensures
            res == self@.values.len(),
    {
        self.values.len()
    }

    /// The number of values that the pool can hold.
    pub fn capacity(&self) -> (res: u32)
        ensures
            res == self@.capacity,
    {
        self.capacity
    }

    /// The value in the given slot, if the slot is in use.
    pub fn get(&self, cref: ConstRef) -> (res: Option<UntypedValue>)
        ensures
            res == if cref.index < self@.values.len() {
                Some(self@.values[cref.index as int])
            } else {
                None
            },
    {
        let index: usize = cref.index as usize;
        if index < self.values.len() {
            Some(self.values[index])
        } else {
            None
        }
    }

    /// The slot that holds `value`, if any does.
    fn find(&self, value: UntypedValue) -> (res: Option<u32>)
        requires
            self.wf(),
        ensures
            res is Some <==> self@.contains(value),
            res matches Some(index) ==> index == self@.values.index_of(value),
    {
        let mut index: usize = 0;
        while index < self.values.len()
            invariant
                self.wf(),
                index <= self.values.len(),
                forall|i: int| 0 <= i < index ==> self.values@[i] != value,
            decreases self.values.len() - index,
        {
            if self.values[index] == value {
                proof {
                    let found = self@.values.index_of(value);
                    assert(self@.values[index as int] == value);
                    assert(self@.values[found] == value);
                }
                return Some(index as u32);
            }
            index = index + 1;
        }
        None
    }

    /// Gives `value` a slot and returns the reference to it.
    ///
    /// A value that is already pooled keeps its slot; the pool is then left
    /// as it is. A new value takes the next free slot. Fails if the value is
    /// new and the pool is full.
    pub fn alloc_const(&mut self, value: UntypedValue) -> (res: Result<ConstRef, TranslationError>)
        requires
            old(self).wf(),
        ensures
            final(self).wf(),
            res is Ok <==> old(self)@.can_intern(value),
            res matches Ok(cref) ==> cref == old(self)@.slot(value) && final(self)@ == old(
                self,
            )@.interned(value) && final(self)@.values[cref.index as int] == value,
            res matches Err(error) ==> error@ == TranslationErrorInner::ConstRefOutOfBounds
                && final(self)@ == old(self)@,
    {
        if let Some(index) = self.find(value) {
            return Ok(ConstRef::from_u32(index));
        }
        let len: usize = self.values.len();
        if len >= self.capacity as usize {
            return Err(TranslationError::new(TranslationErrorInner::ConstRefOutOfBounds));
        }
        self.values.push(value);
        proof {
            let before = old(self)@.values;
            assert forall|i: int, j: int|
                0 <= i < before.len() + 1 && 0 <= j < before.len() + 1 && i != j implies before.push(
                value,
            )[i] != before.push(value)[j] by {
                if i < before.len() {
                    assert(before.contains(before[i]));
                }
                if j < before.len() {
                    assert(before.contains(before[j]));
                }
            }
        }
        Ok(ConstRef::from_u32(len as u32))
    }
}

/// A value that has a slot is given that slot again, and the pool does not
/// change.
pub proof fn lemma_intern_twice(pool: ConstPoolView, value: UntypedValue)
    requires
        pool.wf(),
        pool.can_intern(value),
    ensures
        pool.interned(value).can_intern(value),
        pool.interned(value).slot(value) == pool.slot(value),
        pool.interned(value).interned(value) == pool.interned(value),
        pool.interned(value).wf(),
{
    let after = pool.interned(value);
    if pool.contains(value) {
    } else {
        let at = pool.values.len() as int;
        assert(after.values[at] == value);
        assert(after.values.contains(value));
        assert forall|i: int, j: int|
            0 <= i < after.values.len() && 0 <= j < after.values.len() && i != j implies after.values[i]
            != after.values[j] by {
            if i < pool.values.len() {
                assert(pool.values.contains(pool.values[i]));
            }
            if j < pool.values.len() {
                assert(pool.values.contains(pool.values[j]));
            }
        }
        let found = after.values.index_of(value);
        assert(after.values[found] == value);
        assert(found == at);
    }
}

/// Giving a value a slot moves no other value: the pool from before is a
/// prefix of the pool from after.
pub proof fn lemma_intern_keeps_slots(pool: ConstPoolView, value: UntypedValue, slot: int)
    requires
        0 <= slot < pool.values.len(),
    ensures
        pool.interned(value).values.len() >= pool.values.len(),
        pool.interned(value).values[slot] == pool.values[slot],
{
}

/// A value is found in the slot that it was given.
pub proof fn lemma_interned_slot(pool: ConstPoolView, value: UntypedValue)
    requires
        pool.wf(),
        pool.can_intern(value),
    ensures
        pool.slot(value).index < pool.interned(value).values.len(),
        pool.interned(value).values[pool.slot(value).index as int] == value,
{
    if pool.contains(value) {
        let found = pool.values.index_of(value);
        assert(pool.values[found] == value);
    }
}

} // verus!

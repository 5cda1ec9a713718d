//! The call buffer handed to a native function for one invocation.
//!
//! The layout is an external contract: word 0 holds the receiver (with the
//! callee metadata), word 1 is the return-value slot, and words 2 onward are
//! the positional arguments. The argument count is fixed per call and is not
//! self-describing: the buffer must arrive with at least the two fixed slots,
//! and the caller is the one who knows how many argument words follow. All
//! offset arithmetic lives behind this accessor.

use vstd::prelude::*;

use crate::value::{decode, is_object_word, object_handle_of, DynamicValue};

verus! {

/// Index of the receiver/callee slot.
pub const THIS_SLOT: usize = 0;

/// Index of the return-value slot.
pub const RETURN_SLOT: usize = 1;

/// Index of the first positional argument.
pub const ARGUMENT_BASE: usize = 2;

/// One native call's buffer: the receiver slot, the return slot, then the
/// argument words. Valid only for the duration of the call it was built for.
pub struct CallFrame {
    slots: Vec<u64>,
}

impl View for CallFrame {
    type V = Seq<u64>;

    closed spec fn view(&self) -> Seq<u64> {
        self.slots@
    }
}

impl CallFrame {
    /// A buffer is well formed when it holds at least the receiver slot and
    /// the return slot.
    pub open spec fn well_formed(&self) -> bool {
        self@.len() >= 2
    }

    /// Wraps a raw buffer. The two fixed slots must be present; how many
    /// argument words follow is the caller's contract with the engine.
    pub fn new(slots: Vec<u64>) -> (frame: CallFrame)
        requires
            slots@.len() >= 2,
        ensures
            frame@ == slots@,
            frame.well_formed(),
    {
        CallFrame { slots }
    }

    /// How many argument words follow the two fixed slots.
    pub fn arg_count(&self) -> (count: usize)
        requires
            self.well_formed(),
        ensures
            count == self@.len() - 2,
    {
        self.slots.len() - 2
    }

    /// The word in the receiver slot.
    pub fn this_word(&self) -> (word: u64)
        requires
            self.well_formed(),
        ensures
            word == self@[THIS_SLOT as int],
    {
        self.slots[THIS_SLOT]
    }

    /// The word in the return-value slot.
    pub fn return_word(&self) -> (word: u64)
        requires
            self.well_formed(),
        ensures
            word == self@[RETURN_SLOT as int],
    {
        self.slots[RETURN_SLOT]
    }

    /// The positional argument at `index`. The caller must know the declared
    /// argument count; no count is read from the buffer.
    pub fn arg(&self, index: usize) -> (word: u64)
        requires
            self.well_formed(),
            ARGUMENT_BASE + index < self@.len(),
        ensures
            word == self@[ARGUMENT_BASE + index],
    {
        // Reading the length first bounds the slot count by the address
        // space, so the index sum below cannot overflow.
        let len = self.slots.len();
        proof {
            assert(ARGUMENT_BASE + index < len);
        }
        self.slots[ARGUMENT_BASE + index]
    }

    /// The positional argument sequence: every word from two slots past the
    /// buffer start, in order.
    pub fn argument_vector(&self) -> (args: Vec<u64>)
        requires
            self.well_formed(),
        ensures
            args@ == self@.skip(ARGUMENT_BASE as int),
    {
        let mut args: Vec<u64> = Vec::new();
        let mut i: usize = ARGUMENT_BASE;
        while i < self.slots.len()
            invariant
                ARGUMENT_BASE <= i <= self.slots@.len(),
                args@ == self.slots@.subrange(ARGUMENT_BASE as int, i as int),
            decreases self.slots@.len() - i,
        {
            let word = self.slots[i];
            args.push(word);
            proof {
                assert(args@ =~= self.slots@.subrange(ARGUMENT_BASE as int, i + 1));
            }
            i += 1;
        }
        proof {
            assert(args@ =~= self@.skip(ARGUMENT_BASE as int));
        }
        args
    }

    /// Writes the return slot, overwriting whatever default the engine put
    /// there; the engine reads this slot after the native function returns.
    pub fn set_return_value(&mut self, word: u64)
        requires
            old(self).well_formed(),
        ensures
            final(self)@ == old(self)@.update(RETURN_SLOT as int, word),
            final(self).well_formed(),
    {
        self.slots[RETURN_SLOT] = word;
    }

    /// Reads the receiver slot. When it already holds an object reference,
    /// that handle is the `this` of the call and is returned directly. When
    /// it holds a primitive, `None` says the engine must materialize the
    /// proper receiver object instead; native code is never handed a
    /// primitive as `this`.
    pub fn resolve_this(&self) -> (receiver: Option<u64>)
        requires
            self.well_formed(),
        ensures
            is_object_word(self@[THIS_SLOT as int]) ==> receiver == Some(
                object_handle_of(self@[THIS_SLOT as int]),
            ),
            !is_object_word(self@[THIS_SLOT as int]) ==> receiver is None,
    {
        let word = self.slots[THIS_SLOT];
        match decode(word) {
            DynamicValue::ObjectRef { handle } => Some(handle),
            _ => None,
        }
    }

    /// Resolves `this` given the engine's computed fallback receiver: a
    /// receiver slot that already holds an object wins unchanged, otherwise
    /// the fallback object is the receiver.
    pub fn resolve_this_with(&self, computed: u64) -> (receiver: u64)
        requires
            self.well_formed(),
            is_object_word(computed),
        ensures
            is_object_word(self@[THIS_SLOT as int]) ==> receiver == object_handle_of(
                self@[THIS_SLOT as int],
            ),
            !is_object_word(self@[THIS_SLOT as int]) ==> receiver == object_handle_of(computed),
    {
        match self.resolve_this() {
            Some(receiver) => receiver,
            None => {
                match decode(computed) {
                    DynamicValue::ObjectRef { handle } => handle,
                    _ => 0,
                }
            },
        }
    }

    /// Hands the buffer back, ending the frame's borrow of it.
    pub fn into_slots(self) -> (slots: Vec<u64>)
        ensures
            slots@ == self@,
    {
        self.slots
    }
}

} // verus!

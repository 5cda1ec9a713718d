//! Status normalization and the option/property/class flag words consumed by
//! the engine's lifecycle calls.
//!
//! Every boolean-status engine call is folded to a two-outcome result, and
//! every object-returning call to `Ok(handle)` when the handle is non-null.
//! Nothing richer is decoded at this layer.

use vstd::prelude::*;

verus! {

/// The two failure kinds surfaced by the engine's coarse status model.
#[derive(Clone, Copy, PartialEq, Eq, Structural, Debug)]
pub enum Error {
    /// A boolean-status engine call returned its failure sentinel.
    OperationFailed,
    /// An object-returning engine call returned a null reference.
    NullHandle,
}

/// Engine status code meaning failure: the zero of its boolean type.
pub const STATUS_FAILURE: i32 = 0;

/// Context option bit: strict mode.
pub const JSOPTION_STRICT: u32 = 0x1;

/// Context option bit: warnings are reported as errors.
pub const JSOPTION_WERROR: u32 = 0x2;

/// Context option bit: variable-object fix-up.
pub const JSOPTION_VAROBJFIX: u32 = 0x4;

/// Context option bit: method JIT enabled.
pub const JSOPTION_METHODJIT: u32 = 1 << 14;

/// Property definition bit: enumerable.
pub const JSPROP_ENUMERATE: u32 = 0x01;

/// Property definition bit: read-only.
pub const JSPROP_READONLY: u32 = 0x02;

/// Property definition bit: shared (the slot is not reserved per object).
pub const JSPROP_SHARED: u32 = 0x40;

/// Property definition bit: getters and setters are native accessors.
pub const JSPROP_NATIVE_ACCESSORS: u32 = 0x08;

/// Bit position of the reserved-slot count inside a class flag word.
pub const JSCLASS_RESERVED_SLOTS_SHIFT: u32 = 8;

/// Width in bits of the reserved-slot count inside a class flag word.
pub const JSCLASS_RESERVED_SLOTS_WIDTH: u32 = 8;

/// Mask selecting a reserved-slot count before it is shifted into place.
pub const JSCLASS_RESERVED_SLOTS_MASK: u32 = 0xFF;

/// First bit position above the reserved-slot field.
pub const JSCLASS_HIGH_FLAGS_SHIFT: u32 = 16;

/// Class flag bit marking a global object class.
pub const JSCLASS_IS_GLOBAL: u32 = 1 << 17;

/// Default heap budget, in bytes, for a fresh runtime.
pub const DEFAULT_HEAP_SIZE: u32 = 8 * 1024 * 1024;

/// Default stack quota, in bytes, for a fresh context.
pub const DEFAULT_STACK_SIZE: usize = 8192;

/// Folds a reserved-slot count into the class flag word: the count is
/// masked to its field width and shifted into the reserved-slot field.
pub fn class_has_reserved_slots(count: u32) -> (flags: u32)
    ensures
        flags == (count & JSCLASS_RESERVED_SLOTS_MASK) << JSCLASS_RESERVED_SLOTS_SHIFT,
{
    (count & JSCLASS_RESERVED_SLOTS_MASK) << JSCLASS_RESERVED_SLOTS_SHIFT
}

/// Normalizes a boolean engine status: any non-zero status is success,
/// the zero sentinel is `OperationFailed`.
pub fn status_to_result(status: i32) -> (r: Result<(), Error>)
    ensures
        status != STATUS_FAILURE ==> r == Ok::<(), Error>(()),
        status == STATUS_FAILURE ==> r == Err::<(), Error>(Error::OperationFailed),
{
    if status != STATUS_FAILURE {
        Ok(())
    } else {
        Err(Error::OperationFailed)
    }
}

/// Normalizes an object-returning engine call: a non-null handle is
/// success carrying the handle, a null handle is `NullHandle`.
pub fn handle_to_result(handle: u64) -> (r: Result<u64, Error>)
    ensures
        handle != 0 ==> r == Ok::<u64, Error>(handle),
        handle == 0 ==> r == Err::<u64, Error>(Error::NullHandle),
{
    if handle != 0 {
        Ok(handle)
    } else {
        Err(Error::NullHandle)
    }
}

} // verus!

//! The closed error sets of the codec.

use vstd::prelude::*;

verus! {

/// Everything that can go wrong while decoding.
///
/// `InputTooShort`: the input ran out before a self-delimiting value was
/// complete. `InputTooLong`: a top-level decode finished a value and bytes
/// were left over. `InvalidValue`: a discriminant or length lay outside its
/// valid range.
#[derive(Clone, Copy, Debug, PartialEq, Eq, Structural)]
pub enum DecodeError {
    InputTooShort,
    InputTooLong,
    InvalidValue,
}

/// Everything that can go wrong while encoding: the sink rejected a write.
#[derive(Clone, Copy, Debug, PartialEq, Eq, Structural)]
pub enum EncodeError {
    SinkRejected,
}

} // verus!

//! The error-handler capability threaded through every codec operation.
//!
//! All codec logic is written once against these traits. A handler either
//! converts a raw codec error into a typed "handled" error that callers
//! propagate normally ([`DefaultErrorHandler`]), or records the failure and
//! hands back an [`ExitSignal`] that the call boundary treats as a command
//! to terminate the current execution unit at once ([`ExitHandler`]).

use vstd::prelude::*;

use crate::codec_err::{DecodeError, EncodeError};

verus! {

/// A capability that turns a raw [`DecodeError`] into the failure value a
/// caller actually sees.
///
/// `handled` names the value returned for a given error and `state_after`
/// names the handler's state once it has been invoked, so that the contract
/// of every decode operation can say that a failing decode invokes its
/// handler exactly once, with the error kind of the first failure.
pub trait DecodeErrorHandler: Sized {
    type HandledErr;

    /// What `handle_error` returns for `err`.
    spec fn handled(&self, err: DecodeError) -> Self::HandledErr;

    /// The handler's state after one invocation with `err`.
    spec fn state_after(&self, err: DecodeError) -> Self;

    fn handle_error(&mut self, err: DecodeError) -> (r: Self::HandledErr)
        ensures
            r == old(self).handled(err),
            *final(self) == old(self).state_after(err),
    ;
}

/// A capability that turns a raw [`EncodeError`] into the failure value a
/// caller actually sees. The counterpart of [`DecodeErrorHandler`] for the
/// encoding direction.
pub trait EncodeErrorHandler: Sized {
    type HandledErr;

    /// What `handle_error` returns for `err`.
    spec fn handled(&self, err: EncodeError) -> Self::HandledErr;

    /// The handler's state after one invocation with `err`.
    spec fn state_after(&self, err: EncodeError) -> Self;

    fn handle_error(&mut self, err: EncodeError) -> (r: Self::HandledErr)
        ensures
            r == old(self).handled(err),
            *final(self) == old(self).state_after(err),
    ;
}

/// The Result-based handler: a failure is returned as the raw error value
/// and composes with ordinary error-handling control flow.
#[derive(Clone, Copy, Debug, PartialEq, Eq, Structural)]
pub struct DefaultErrorHandler;

impl DecodeErrorHandler for DefaultErrorHandler {
    type HandledErr = DecodeError;

    open spec fn handled(&self, err: DecodeError) -> DecodeError {
        err
    }

    open spec fn state_after(&self, err: DecodeError) -> Self {
        *self
    }

    fn handle_error(&mut self, err: DecodeError) -> (r: DecodeError) {
        err
    }
}

impl EncodeErrorHandler for DefaultErrorHandler {
    type HandledErr = EncodeError;

    open spec fn handled(&self, err: EncodeError) -> EncodeError {
        err
    }

    open spec fn state_after(&self, err: EncodeError) -> Self {
        *self
    }

    fn handle_error(&mut self, err: EncodeError) -> (r: EncodeError) {
        err
    }
}

/// The value handed to the call boundary by the exit convention. Receiving
/// one means the current execution unit must terminate immediately; no code
/// that observes it may continue the failed operation.
#[derive(Clone, Copy, Debug, PartialEq, Eq, Structural)]
pub enum ExitSignal {
    DecodeFailure(DecodeError),
    EncodeFailure(EncodeError),
}

/// The exit-convention handler. A failure is recorded (the invocation count
/// and the error kind) and an [`ExitSignal`] is produced; the boundary that
/// chose this handler terminates the execution unit on receiving the signal,
/// so no per-call-site failure-propagation code is generated beyond passing
/// the signal outward.
#[derive(Clone, Copy, Debug, PartialEq, Eq, Structural)]
pub struct ExitHandler {
    /// How often the handler has been invoked.
    pub invocations: u64,
    /// The error kind of the most recent decode failure.
    pub last_decode_error: Option<DecodeError>,
    /// The error kind of the most recent encode failure.
    pub last_encode_error: Option<EncodeError>,
}

impl ExitHandler {
    pub fn new() -> (r: Self)
        ensures
            r == (ExitHandler {
                invocations: 0u64,
                last_decode_error: None::<DecodeError>,
                last_encode_error: None::<EncodeError>,
            }),
    {
        ExitHandler { invocations: 0, last_decode_error: None, last_encode_error: None }
    }
}

impl DecodeErrorHandler for ExitHandler {
    type HandledErr = ExitSignal;

    open spec fn handled(&self, err: DecodeError) -> ExitSignal {
        ExitSignal::DecodeFailure(err)
    }

    open spec fn state_after(&self, err: DecodeError) -> Self {
        ExitHandler {
            invocations: if self.invocations == u64::MAX { 0u64 } else { (self.invocations + 1) as u64 },
            last_decode_error: Some(err),
            last_encode_error: self.last_encode_error,
        }
    }

    fn handle_error(&mut self, err: DecodeError) -> (r: ExitSignal) {
        if self.invocations == u64::MAX {
            self.invocations = 0;
        } else {
            self.invocations = self.invocations + 1;
        }
        self.last_decode_error = Some(err);
        ExitSignal::DecodeFailure(err)
    }
}

impl EncodeErrorHandler for ExitHandler {
    type HandledErr = ExitSignal;

    open spec fn handled(&self, err: EncodeError) -> ExitSignal {
        ExitSignal::EncodeFailure(err)
    }

    open spec fn state_after(&self, err: EncodeError) -> Self {
        ExitHandler {
            invocations: if self.invocations == u64::MAX { 0u64 } else { (self.invocations + 1) as u64 },
            last_decode_error: self.last_decode_error,
            last_encode_error: Some(err),
        }
    }

    fn handle_error(&mut self, err: EncodeError) -> (r: ExitSignal) {
        if self.invocations == u64::MAX {
            self.invocations = 0;
        } else {
            self.invocations = self.invocations + 1;
        }
        self.last_encode_error = Some(err);
        ExitSignal::EncodeFailure(err)
    }
}

} // verus!

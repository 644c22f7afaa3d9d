//! A file descriptor made from a Windows handle.
//!
//! The scan call takes a descriptor. Where a file is known by a Windows
//! handle, the handle is duplicated, so that the copy can be closed on its
//! own, and the copy is converted to a descriptor.

use vstd::prelude::*;

verus! {

/// What the two native steps gave: the duplication failed with an error
/// code of the operating system, or it succeeded and the conversion
/// returned a descriptor, which is -1 where the conversion failed.
#[derive(Clone, Copy, Debug, PartialEq, Eq, Structural)]
pub enum NativeOpen {
    /// The handle could not be duplicated.
    DuplicateFailed {
        /// The error code of the operating system.
        os_error: i32,
    },
    /// The duplicate was handed to the conversion, which returned this.
    Converted {
        /// The descriptor, or -1.
        fd: i32,
    },
}

/// Why no descriptor was made.
#[derive(Clone, Copy, Debug, PartialEq, Eq, Structural)]
pub enum FdError {
    /// The handle could not be duplicated.
    Os {
        /// The error code of the operating system.
        os_error: i32,
    },
    /// The duplicate could not be converted to a descriptor.
    InvalidInput,
}

/// A descriptor that stands for a duplicated handle.
#[derive(Debug)]
pub struct WindowsFd(i32);

impl View for WindowsFd {
    type V = i32;

    /// The descriptor.
    closed spec fn view(&self) -> i32 {
        self.0
    }
}

impl WindowsFd {
    #[verifier::type_invariant]
    spec fn is_descriptor(self) -> bool {
        self.0 != -1
    }

    /// Takes what duplicating and converting a handle gave. A failed
    /// duplication gives the error of the operating system, a conversion
    /// that returned -1 gives `InvalidInput`, and any other descriptor is
    /// kept.
    pub fn new(opened: NativeOpen) -> (outcome: Result<WindowsFd, FdError>)
        ensures
            opened matches NativeOpen::DuplicateFailed { os_error } ==> outcome == Err::<
                WindowsFd,
                FdError,
            >(FdError::Os { os_error }),
            opened matches NativeOpen::Converted { fd } ==> (if fd == -1 {
                outcome == Err::<WindowsFd, FdError>(FdError::InvalidInput)
            } else {
                outcome matches Ok(w) && w@ == fd
            }),
    {
        match opened {
            NativeOpen::DuplicateFailed { os_error } => Err(FdError::Os { os_error }),
            NativeOpen::Converted { fd } => {
                if fd == -1 {
                    Err(FdError::InvalidInput)
                } else {
                    Ok(WindowsFd(fd))
                }
            },
        }
    }

    /// The descriptor, which is never -1.
    pub fn raw(&self) -> (fd: i32)
        ensures
            fd == self@,
            fd != -1,
    {
        proof {
            use_type_invariant(self);
        }
        self.0
    }
}

} // verus!

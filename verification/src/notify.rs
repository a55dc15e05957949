//! The notifier: a counting descriptor through which any thread wakes the
//! reactor thread.
//!
//! The descriptor is made and registered with the reactor once, on first use.
//! The calls that do so belong to the host; this module judges what they
//! return. A notifier that cannot be set up, or a signal that cannot be
//! written, is an error that the caller cannot recover from.

use vstd::prelude::*;

verus! {

/// What the host returns in place of a descriptor when it could not make one.
pub const NO_DESCRIPTOR: i32 = -1;

/// What the reactor returns when it has registered a descriptor.
pub const REGISTERED: isize = 0;

/// What one signal adds to the count of the descriptor.
pub const SIGNAL: u64 = 1;

/// The number of bytes that one signal writes to the descriptor.
pub const SIGNAL_LEN: isize = 8;

/// Why the notifier cannot do its work.
#[derive(Clone, Copy, Debug, PartialEq, Eq, Structural)]
pub enum NotifyError {
    /// The host made no descriptor.
    Descriptor,
    /// The reactor did not register the descriptor, and returned this.
    Registration(isize),
    /// A signal was not written in full: the write returned this.
    Signal(isize),
}

/// A notifier that is set up: its descriptor exists and the reactor watches
/// it.
#[derive(Debug)]
pub struct Notifier {
    fd: i32,
}

impl Notifier {
    #[verifier::type_invariant]
    spec fn has_descriptor(self) -> bool {
        self.fd != NO_DESCRIPTOR
    }

    /// The descriptor to signal and to drain.
    pub closed spec fn descriptor(self) -> i32 {
        self.fd
    }

    /// Judges what the host returned for a new descriptor and for its
    /// registration with the reactor, in that order: without a descriptor the
    /// registration's result counts for nothing.
    pub fn set_up(fd: i32, rc: isize) -> (r: Result<Notifier, NotifyError>)
        ensures
            match r {
                Ok(notifier) => fd != NO_DESCRIPTOR && rc == REGISTERED && notifier.descriptor()
                    == fd,
                Err(e) => e == if fd == NO_DESCRIPTOR {
                    NotifyError::Descriptor
                } else {
                    NotifyError::Registration(rc)
                } && (fd == NO_DESCRIPTOR || rc != REGISTERED),
            },
    {
        match check_descriptor(fd) {
            Err(e) => Err(e),
            Ok(fd) => {
                if rc != REGISTERED {
                    Err(NotifyError::Registration(rc))
                } else {
                    Ok(Notifier { fd })
                }
            },
        }
    }

    /// The descriptor to signal and to drain. It is never `NO_DESCRIPTOR`.
    pub fn fd(&self) -> (fd: i32)
        ensures
            fd == self.descriptor(),
            fd != NO_DESCRIPTOR,
    {
        proof {
            use_type_invariant(self);
        }
        self.fd
    }
}

/// Judges what the host returned for a new descriptor, before the descriptor
/// is registered.
pub fn check_descriptor(fd: i32) -> (r: Result<i32, NotifyError>)
    ensures
        r == if fd == NO_DESCRIPTOR {
            Err::<i32, NotifyError>(NotifyError::Descriptor)
        } else {
            Ok::<i32, NotifyError>(fd)
        },
{
    if fd == NO_DESCRIPTOR {
        Err(NotifyError::Descriptor)
    } else {
        Ok(fd)
    }
}

/// Judges what the write of one signal returned: the signal is out only if
/// all of its bytes were written.
pub fn check_signal(written: isize) -> (r: Result<(), NotifyError>)
    ensures
        r == if written == SIGNAL_LEN {
            Ok::<(), NotifyError>(())
        } else {
            Err::<(), NotifyError>(NotifyError::Signal(written))
        },
{
    if written == SIGNAL_LEN {
        Ok(())
    } else {
        Err(NotifyError::Signal(written))
    }
}

} // verus!

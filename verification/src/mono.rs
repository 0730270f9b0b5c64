//! The process-wide lifecycle state machine of the embedded foreign
//! runtime.
//!
//! The runtime is not safe to initialize twice, not safe to use from a
//! thread other than the one that configured it, and not safe to tear
//! down twice.  This module fixes those rules as a monotonic state
//! machine over plain values; the unverified host shell owns the one
//! shared instance, performs the boundary calls, and reports their
//! outcomes (the support-directory check, the runtime-context check) as
//! the event flags these transitions take.

use vstd::prelude::*;
use vstd::string::StrSliceExecFns;
use crate::errors::RawFileError;
use crate::textnum::{str_eq, spec_parse_u64, parse_u64_str};

verus! {

/// The lifecycle state of the embedded runtime: unconfigured, then
/// configured on one thread, then disposed — never back.
#[derive(Clone, Copy, Debug, PartialEq, Eq, Structural)]
pub struct MonoEmbeddinator {
    /// Configuration has completed.
    pub configured: bool,
    /// The runtime has been torn down; terminal.
    pub disposed: bool,
    /// The thread that configured the runtime; meaningful only once
    /// `configured` holds.
    pub init_thread_id: u64,
}

impl MonoEmbeddinator {
    /// A fresh manager in the unconfigured state.
    pub fn new() -> (r: Self)
        ensures
            !r.configured,
            !r.disposed,
            r.init_thread_id == 0,
    {
        Self { configured: false, disposed: false, init_thread_id: 0 }
    }

    /// Whether configuration has completed.
    pub fn is_configured(&self) -> (r: bool)
        ensures
            r == self.configured,
    {
        self.configured
    }

    /// What the availability check returns for this state and calling
    /// thread.
    pub open spec fn spec_check_availability(self, current_thread_id: u64) -> Result<
        (),
        RawFileError,
    > {
        if !self.configured {
            Err(RawFileError::NotConfigured)
        } else if self.disposed {
            Err(RawFileError::AlreadyDisposed)
        } else if self.init_thread_id != current_thread_id {
            Err(RawFileError::CrossThreadViolation)
        } else {
            Ok(())
        }
    }

    /// Succeeds exactly when the runtime is configured, not yet
    /// disposed, and driven from the thread that configured it.  Every
    /// operation that touches the runtime must pass this check first.
    pub fn check_availability(&self, current_thread_id: u64) -> (r: Result<(), RawFileError>)
        ensures
            r == self.spec_check_availability(current_thread_id),
    {
        if !self.configured {
            Err(RawFileError::NotConfigured)
        } else if self.disposed {
            Err(RawFileError::AlreadyDisposed)
        } else if self.init_thread_id != current_thread_id {
            Err(RawFileError::CrossThreadViolation)
        } else {
            Ok(())
        }
    }

    /// The configure transition: the state it leads to and what it
    /// returns.
    pub open spec fn spec_configure(
        self,
        current_thread_id: u64,
        runtime_dir_found: bool,
    ) -> (Self, Result<(), RawFileError>) {
        if self.disposed {
            (self, Err(RawFileError::AlreadyDisposed))
        } else if self.configured {
            (self, Err(RawFileError::AlreadyConfigured))
        } else if !runtime_dir_found {
            (self, Err(RawFileError::RuntimeDirectoryNotFound))
        } else {
            (
                MonoEmbeddinator {
                    configured: true,
                    disposed: false,
                    init_thread_id: current_thread_id,
                },
                Ok(()),
            )
        }
    }

    /// Configures the runtime once.
    ///
    /// Fails when the runtime is already configured or disposed, or
    /// when the host shell found no runtime support files under the
    /// resolved directory (`runtime_dir_found`).  On success the
    /// calling thread becomes the sole permitted thread for every later
    /// operation.
    pub fn configure(&mut self, current_thread_id: u64, runtime_dir_found: bool) -> (r: Result<
        (),
        RawFileError,
    >)
        ensures
            (*final(self), r) == old(self).spec_configure(current_thread_id, runtime_dir_found),
    {
        if self.disposed {
            Err(RawFileError::AlreadyDisposed)
        } else if self.configured {
            Err(RawFileError::AlreadyConfigured)
        } else if !runtime_dir_found {
            Err(RawFileError::RuntimeDirectoryNotFound)
        } else {
            self.configured = true;
            self.init_thread_id = current_thread_id;
            Ok(())
        }
    }

    /// The dispose transition: the state it leads to and what it
    /// returns.
    pub open spec fn spec_dispose(self, runtime_context_active: bool) -> (
        Self,
        Result<(), RawFileError>,
    ) {
        if !self.configured {
            (self, Err(RawFileError::NotConfigured))
        } else if self.disposed {
            (self, Err(RawFileError::AlreadyDisposed))
        } else if !runtime_context_active {
            (self, Err(RawFileError::ForeignCallFailure))
        } else {
            (
                MonoEmbeddinator {
                    configured: self.configured,
                    disposed: true,
                    init_thread_id: self.init_thread_id,
                },
                Ok(()),
            )
        }
    }

    /// Disposes the runtime once; irreversible.
    ///
    /// Fails when the runtime was never configured or is already
    /// disposed, and reports a foreign-call failure when the host shell
    /// found no live runtime context to tear down
    /// (`runtime_context_active`).
    pub fn dispose(&mut self, runtime_context_active: bool) -> (r: Result<(), RawFileError>)
        ensures
            (*final(self), r) == old(self).spec_dispose(runtime_context_active),
    {
        if !self.configured {
            Err(RawFileError::NotConfigured)
        } else if self.disposed {
            Err(RawFileError::AlreadyDisposed)
        } else if !runtime_context_active {
            Err(RawFileError::ForeignCallFailure)
        } else {
            self.disposed = true;
            Ok(())
        }
    }
}

/// What parsing the debug form of a thread identifier yields: the
/// number between a `ThreadId(` prefix and a `)` suffix.
pub open spec fn spec_parse_thread_id(s: Seq<char>) -> Option<u64> {
    if s.len() >= 10 && s.subrange(0, 9) == "ThreadId("@ && s[s.len() - 1] == ')' {
        spec_parse_u64(s.subrange(9, s.len() - 1))
    } else {
        None
    }
}

/// Extracts the numeric thread identifier from the text form the host
/// shell obtains for the current thread.
pub fn parse_thread_id(raw: &str) -> (r: Option<u64>)
    ensures
        r == spec_parse_thread_id(raw@),
{
    let n = raw.unicode_len();
    if n < 10 {
        return None;
    }
    let pref = raw.substring_char(0, 9);
    if !str_eq(pref, "ThreadId(") {
        return None;
    }
    if raw.get_char(n - 1) != ')' {
        return None;
    }
    let mid = raw.substring_char(9, n - 1);
    parse_u64_str(mid)
}

/// After a successful configure on one thread, the availability check
/// from any other thread fails with the cross-thread violation.
pub proof fn lemma_cross_thread_check_fails(
    s0: MonoEmbeddinator,
    init_thread: u64,
    other_thread: u64,
)
    requires
        !s0.configured,
        !s0.disposed,
        init_thread != other_thread,
    ensures
        ({
            let (s1, res) = s0.spec_configure(init_thread, true);
            res == Ok::<(), RawFileError>(()) && s1.spec_check_availability(other_thread) == Err::<
                (),
                RawFileError,
            >(RawFileError::CrossThreadViolation) && s1.spec_check_availability(init_thread)
                == Ok::<(), RawFileError>(())
        }),
{
}

/// A second configure fails with `AlreadyConfigured` and leaves the
/// state unchanged, whatever thread or directory flag it is given.
pub proof fn lemma_configure_twice_fails(
    s0: MonoEmbeddinator,
    first_thread: u64,
    second_thread: u64,
    second_dir_found: bool,
)
    requires
        !s0.configured,
        !s0.disposed,
    ensures
        ({
            let (s1, res1) = s0.spec_configure(first_thread, true);
            let (s2, res2) = s1.spec_configure(second_thread, second_dir_found);
            res1 == Ok::<(), RawFileError>(()) && res2 == Err::<(), RawFileError>(
                RawFileError::AlreadyConfigured,
            ) && s2 == s1
        }),
{
}

/// A second dispose fails with `AlreadyDisposed`, and disposal is
/// terminal: the state no longer changes.
pub proof fn lemma_dispose_twice_fails(s0: MonoEmbeddinator, context_active: bool)
    requires
        s0.configured,
        !s0.disposed,
    ensures
        ({
            let (s1, res1) = s0.spec_dispose(true);
            let (s2, res2) = s1.spec_dispose(context_active);
            res1 == Ok::<(), RawFileError>(()) && res2 == Err::<(), RawFileError>(
                RawFileError::AlreadyDisposed,
            ) && s2 == s1
        }),
{
}

/// A dispose before any configure fails with `NotConfigured` and
/// leaves the state unchanged.
pub proof fn lemma_dispose_unconfigured_fails(s0: MonoEmbeddinator, context_active: bool)
    requires
        !s0.configured,
    ensures
        s0.spec_dispose(context_active) == (s0, Err::<(), RawFileError>(RawFileError::NotConfigured)),
{
}

} // verus!

//! The network that this process is bound to. The application is the only one to say which.

use crate::contract::common::ErrorCode;
use crate::error::DomainError;
use crate::text::{
    chars_of, decimal, decimal_text_reads_back, parse_unsigned, unsigned_number,
};
use vstd::prelude::*;

verus! {

/// The handle that stands for no network.
pub const NETWORK_UNSPECIFIED: u64 = 0;

/// What binds this process.
pub trait ProcessNetworkBinder {
    /// Binds this process to the network of a handle, or to none.
    fn set_process_network(&mut self, handle: u64) -> Result<(), DomainError>;
}

/// The handle that a fact names: a decimal number. No fact, and the number that stands for no
/// network, name none; any other text is refused.
pub open spec fn named_handle(fact: Option<Seq<char>>) -> Result<Option<u64>, DomainError> {
    match fact {
        None => Ok(None),
        Some(text) => match unsigned_number(text, 10, u64::MAX as nat) {
            Some(handle) => Ok(
                if handle == NETWORK_UNSPECIFIED {
                    None
                } else {
                    Some(handle as u64)
                },
            ),
            None => Err(
                DomainError {
                    code: ErrorCode::InvalidArgument,
                    reason: "companion default-network fact is not a network handle",
                },
            ),
        },
    }
}

/// Reads the handle that a fact names.
pub fn handle_from_fact(network_id: Option<&str>) -> (handle: Result<Option<u64>, DomainError>)
    ensures
        handle == named_handle(crate::json::optional_chars(network_id)),
{
    let fact = match network_id {
        Some(fact) => fact,
        None => {
            return Ok(None);
        },
    };
    let digits = chars_of(fact);
    match parse_unsigned(digits.as_slice(), 10, u64::MAX) {
        Some(handle) => {
            if handle == NETWORK_UNSPECIFIED {
                Ok(None)
            } else {
                Ok(Some(handle))
            }
        },
        None => Err(
            DomainError::invalid("companion default-network fact is not a network handle"),
        ),
    }
}

/// The handle that is handed to the system for a binding.
pub open spec fn system_handle(binding: Option<u64>) -> u64 {
    match binding {
        Some(handle) => handle,
        None => NETWORK_UNSPECIFIED,
    }
}

/// Hands a handle to the system, once.
fn bind<B: ProcessNetworkBinder>(binder: &mut B, handle: u64) -> (answer: Result<(), DomainError>)
    ensures
        exists|asked: &mut B|
            *asked == *old(binder) && *final(asked) == *final(binder) && #[trigger] call_ensures(
                B::set_process_network,
                (asked, handle),
                answer,
            ),
{
    binder.set_process_network(handle)
}

/// The binding of this process. Only what the system accepted is noted.
pub struct ProcessNetworkAttachment<B> {
    binder: B,
    applied: Option<u64>,
}

impl<B: ProcessNetworkBinder> ProcessNetworkAttachment<B> {
    /// What binds this process.
    pub closed spec fn spec_binder(self) -> B {
        self.binder
    }

    /// The binding that is in effect.
    pub closed spec fn spec_applied(self) -> Option<u64> {
        self.applied
    }

    pub fn new(binder: B) -> (attachment: Self)
        ensures
            attachment.spec_binder() == binder,
            attachment.spec_applied() is None,
    {
        ProcessNetworkAttachment { binder, applied: None }
    }

    /// Applies a fact. An unchanged one leaves the system alone; a changed one is handed to the
    /// system once, and takes effect exactly if the system accepts it.
    pub fn apply(&mut self, network_id: Option<&str>) -> (applied: Result<(), DomainError>)
        ensures
            match named_handle(crate::json::optional_chars(network_id)) {
                Err(error) => {
                    &&& applied == Err::<(), _>(error)
                    &&& *final(self) == *old(self)
                },
                Ok(requested) => if requested == old(self).spec_applied() {
                    &&& applied is Ok
                    &&& *final(self) == *old(self)
                } else {
                    &&& exists|asked: &mut B|
                        *asked == old(self).spec_binder() && *final(asked) == final(self).spec_binder() && #[trigger] call_ensures(
                            B::set_process_network,
                            (asked, system_handle(requested)),
                            applied,
                        )
                    &&& final(self).spec_applied() == (if applied is Ok {
                        requested
                    } else {
                        old(self).spec_applied()
                    })
                },
            },
    {
        let requested = match handle_from_fact(network_id) {
            Ok(requested) => requested,
            Err(error) => {
                return Err(error);
            },
        };
        let unchanged = match (self.applied, requested) {
            (Some(applied), Some(requested)) => applied == requested,
            (None, None) => true,
            _ => false,
        };
        if unchanged {
            return Ok(());
        }
        let handle: u64 = match requested {
            Some(handle) => handle,
            None => NETWORK_UNSPECIFIED,
        };
        let accepted = bind(&mut self.binder, handle);
        assert(handle == system_handle(requested));
        if accepted.is_ok() {
            self.applied = requested;
        }
        accepted
    }

    /// Clears the binding.
    pub fn clear(&mut self) -> (cleared: Result<(), DomainError>)
        ensures
            old(self).spec_applied() is None ==> cleared is Ok && *final(self) == *old(self),
            old(self).spec_applied() is Some ==> {
                &&& exists|asked: &mut B|
                    *asked == old(self).spec_binder() && *final(asked) == final(self).spec_binder() && #[trigger] call_ensures(
                        B::set_process_network,
                        (asked, NETWORK_UNSPECIFIED),
                        cleared,
                    )
                &&& final(self).spec_applied() == (if cleared is Ok {
                    None
                } else {
                    old(self).spec_applied()
                })
            },
    {
        self.apply(None)
    }
}

/// The number of the error that an operation is not permitted, that access is denied, and that
/// there is no such network.
pub const EPERM: i32 = 1;

pub const EACCES: i32 = 13;

pub const ENONET: i32 = 64;

/// Why the system refused a binding.
pub fn attachment_failure(errno: i32) -> (error: DomainError)
    ensures
        error == (if errno == EPERM || errno == EACCES {
            DomainError {
                code: ErrorCode::PermissionDenied,
                reason: "process network attachment is not permitted",
            }
        } else if errno == ENONET {
            DomainError {
                code: ErrorCode::NotFound,
                reason: "the reported default network no longer exists",
            }
        } else {
            DomainError { code: ErrorCode::IoError, reason: "process network attachment failed" }
        }),
{
    if errno == EPERM || errno == EACCES {
        DomainError::new(ErrorCode::PermissionDenied, "process network attachment is not permitted")
    } else if errno == ENONET {
        DomainError::new(ErrorCode::NotFound, "the reported default network no longer exists")
    } else {
        DomainError::new(ErrorCode::IoError, "process network attachment failed")
    }
}

// ---------------------------------------------------------------------------------------
// Laws.
// ---------------------------------------------------------------------------------------

/// The decimal number of a handle names that handle, but for zero, which like no fact at all names
/// none; and the system is told zero for none.
pub proof fn a_fact_names_its_handle(
    handle: u64,
    fact: &str,
    named: Result<Option<u64>, DomainError>,
    absent: Result<Option<u64>, DomainError>,
)
    requires
        fact@ == decimal(handle as nat),
        call_ensures(handle_from_fact, (Some(fact),), named),
        call_ensures(handle_from_fact, (None,), absent),
    ensures
        named == Ok::<_, DomainError>(
            if handle == 0 {
                None
            } else {
                Some(handle)
            },
        ),
        absent == Ok::<Option<u64>, DomainError>(None),
        system_handle(Some(handle)) == handle,
        system_handle(None) == 0,
{
    decimal_text_reads_back(handle as nat, u64::MAX as nat);
}

/// A fact that is no number is refused, and changes nothing.
pub proof fn no_number_names_no_handle(fact: &str, named: Result<Option<u64>, DomainError>)
    requires
        call_ensures(handle_from_fact, (Some(fact),), named),
        fact@.len() == 0 || !('0' <= fact@[0] <= '9' || fact@[0] == '+'),
    ensures
        named is Err && named->Err_0.code is InvalidArgument,
{
    if fact@.len() > 0 {
        let digits = crate::text::unsigned_digits(fact@);
        assert(digits == fact@);
        assert(crate::text::digit_value(digits[0]) >= 10);
    }
}

/// The system's refusals by their numbers: 1 and 13 are a lack of permission, 64 is a network that
/// is gone, and anything else is just a failure.
pub proof fn a_refusal_is_told_by_its_number(errno: i32, error: DomainError)
    requires
        call_ensures(attachment_failure, (errno,), error),
    ensures
        error.code is PermissionDenied <==> errno == 1 || errno == 13,
        error.code is NotFound <==> errno == 64,
        error.code is IoError <==> errno != 1 && errno != 13 && errno != 64,
{
}

} // verus!

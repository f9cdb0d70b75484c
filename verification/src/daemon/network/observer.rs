//! Who is told of the default network, and how the devices behind it are waited for.

use crate::contract::common::ErrorCode;
use crate::contract::internal::Fence;
use crate::error::DomainError;
use vstd::prelude::*;

verus! {

/// The kernel's groups of messages on links and on routes.
pub const RTMGRP_LINK: u32 = 0x1;

pub const RTMGRP_IPV4_ROUTE: u32 = 0x40;

pub const RTMGRP_IPV6_ROUTE: u32 = 0x400;

/// For whom the default network is observed.
#[derive(Debug, PartialEq)]
pub struct NetworkDefaultSourceRegistration {
    pub fence: Fence,
    pub subscription_generation: u64,
    pub source_generation: u64,
}

/// Whether two registrations are the same.
pub open spec fn same_registration(
    left: NetworkDefaultSourceRegistration,
    right: NetworkDefaultSourceRegistration,
) -> bool {
    &&& left.fence.runtime_epoch@ == right.fence.runtime_epoch@
    &&& left.fence.host_generation == right.fence.host_generation
    &&& left.fence.runtime_instance_id@ == right.fence.runtime_instance_id@
    &&& left.subscription_generation == right.subscription_generation
    &&& left.source_generation == right.source_generation
}

impl NetworkDefaultSourceRegistration {
    pub fn same_as(&self, other: &NetworkDefaultSourceRegistration) -> (equal: bool)
        ensures
            equal == same_registration(*self, *other),
    {
        self.fence.runtime_epoch.same_as(&other.fence.runtime_epoch) && self.fence.host_generation
            == other.fence.host_generation && self.fence.runtime_instance_id.same_as(
            &other.fence.runtime_instance_id,
        ) && self.subscription_generation == other.subscription_generation
            && self.source_generation == other.source_generation
    }
}

/// The daemon's own observation of the default network. There is at most one observer.
#[derive(Debug)]
pub struct NativeNetworkDefaultEventSource<O> {
    pub observer: Option<(NetworkDefaultSourceRegistration, O)>,
}

impl<O> NativeNetworkDefaultEventSource<O> {
    pub fn new() -> (source: Self)
        ensures
            source.observer is None,
    {
        NativeNetworkDefaultEventSource { observer: None }
    }

    /// Whether an observer can be started.
    pub fn check_start(&self) -> (checked: Result<(), DomainError>)
        ensures
            checked == (if self.observer is Some {
                Err(
                    DomainError {
                        code: ErrorCode::AlreadyExists,
                        reason: "native route observer already exists",
                    },
                )
            } else {
                Ok(())
            }),
    {
        if self.observer.is_some() {
            return Err(
                DomainError::new(ErrorCode::AlreadyExists, "native route observer already exists"),
            );
        }
        Ok(())
    }

    /// An observer was started.
    pub fn started(&mut self, registration: NetworkDefaultSourceRegistration, observer: O)
        requires
            old(self).observer is None,
        ensures
            final(self).observer == Some((registration, observer)),
    {
        self.observer = Some((registration, observer));
    }

    /// Gives up the observer of a registration, so that it can be ended. Another registration
    /// cannot end it, and without one there is nothing to end.
    pub fn stop(&mut self, registration: &NetworkDefaultSourceRegistration) -> (stopped: Result<
        Option<O>,
        DomainError,
    >)
        ensures
            match old(self).observer {
                None => stopped == Ok::<Option<O>, DomainError>(None) && final(self).observer
                    is None,
                Some((active, observer)) => if same_registration(active, *registration) {
                    stopped == Ok::<Option<O>, DomainError>(Some(observer))
                        && final(self).observer is None
                } else {
                    &&& stopped == Err::<Option<O>, _>(
                        DomainError {
                            code: ErrorCode::StaleAuthority,
                            reason: "native route observer generation is stale",
                        },
                    )
                    &&& final(self).observer == old(self).observer
                },
            },
    {
        let current = match &self.observer {
            None => {
                return Ok(None);
            },
            Some((active, _)) => active.same_as(registration),
        };
        if !current {
            return Err(
                DomainError::new(
                    ErrorCode::StaleAuthority,
                    "native route observer generation is stale",
                ),
            );
        }
        match self.observer.take() {
            Some((_, observer)) => Ok(Some(observer)),
            None => Ok(None),
        }
    }
}

/// What waiting for a message of the kernel gave.
#[derive(Clone, Copy, Debug, PartialEq, Eq, Structural)]
pub enum ObserverWait {
    Interrupted,
    Failed,
    /// The observer was told to stop, or not, and a message is there, or not.
    Ready { stop: bool, message: bool },
}

/// What an observer does next.
#[derive(Clone, Copy, Debug, PartialEq, Eq, Structural)]
pub enum ObserverStep {
    WaitOn,
    /// The message is received.
    Receive,
    End,
}

/// What an observer does after waiting. To stop comes before any message.
pub fn observer_step(wait: ObserverWait) -> (step: ObserverStep)
    ensures
        step == (match wait {
            ObserverWait::Interrupted => ObserverStep::WaitOn,
            ObserverWait::Failed => ObserverStep::End,
            ObserverWait::Ready { stop, message } => if stop {
                ObserverStep::End
            } else if message {
                ObserverStep::Receive
            } else {
                ObserverStep::WaitOn
            },
        }),
{
    match wait {
        ObserverWait::Interrupted => ObserverStep::WaitOn,
        ObserverWait::Failed => ObserverStep::End,
        ObserverWait::Ready { stop, message } => {
            if stop {
                ObserverStep::End
            } else if message {
                ObserverStep::Receive
            } else {
                ObserverStep::WaitOn
            }
        },
    }
}

/// Whether the default network is observed anew after receiving, or why the observer goes on
/// without or ends: an interruption is no message, and nothing received is the end.
pub fn observes_anew(received: i64, interrupted: bool) -> (observes: Option<bool>)
    ensures
        observes == (if received < 0 && interrupted {
            Some(false)
        } else if received <= 0 {
            None
        } else {
            Some(true)
        }),
{
    if received < 0 && interrupted {
        return Some(false);
    }
    if received <= 0 {
        return None;
    }
    Some(true)
}

/// What waiting for a packet leads to.
#[derive(Clone, Copy, Debug, PartialEq, Eq)]
pub enum ReadWindow {
    Read,
    /// Nothing came within the window; the device is untouched.
    Timeout,
    Failed(&'static str),
    /// The device is ready for something else than reading.
    NotReadable,
}

/// What waiting for a packet leads to. `waited` is what the system tells of the wait.
pub fn read_window(waited: i32, interrupted: bool, readable: bool) -> (window: ReadWindow)
    ensures
        window == (if waited == 0 || (waited < 0 && interrupted) {
            ReadWindow::Timeout
        } else if waited < 0 {
            ReadWindow::Failed("capture device read window cannot be waited on")
        } else if readable {
            ReadWindow::Read
        } else {
            ReadWindow::NotReadable
        }),
{
    if waited == 0 {
        return ReadWindow::Timeout;
    }
    if waited < 0 {
        if interrupted {
            return ReadWindow::Timeout;
        }
        return ReadWindow::Failed("capture device read window cannot be waited on");
    }
    if readable {
        ReadWindow::Read
    } else {
        ReadWindow::NotReadable
    }
}

/// What reading a device gave.
#[derive(Clone, Copy, Debug, PartialEq, Eq, Structural)]
pub enum ReadResult {
    Packet,
    Timeout,
    End,
    Failed,
}

/// What the code of a read means: a packet, none yet, the end of a loop that was broken, or a
/// failure.
pub fn read_result(code: i32) -> (result: ReadResult)
    ensures
        result == (if code == 1 {
            ReadResult::Packet
        } else if code == 0 {
            ReadResult::Timeout
        } else if code == -2 {
            ReadResult::End
        } else {
            ReadResult::Failed
        }),
{
    if code == 1 {
        ReadResult::Packet
    } else if code == 0 {
        ReadResult::Timeout
    } else if code == -2 {
        ReadResult::End
    } else {
        ReadResult::Failed
    }
}

/// Two registrations are the same only if nothing tells them apart: neither the runtime that
/// registered nor the number of its subscription or of the source.
pub proof fn a_registration_is_known_by_every_part(
    left: NetworkDefaultSourceRegistration,
    right: NetworkDefaultSourceRegistration,
    equal: bool,
)
    requires
        call_ensures(NetworkDefaultSourceRegistration::same_as, (&left, &right), equal),
    ensures
        left.fence.runtime_epoch@ != right.fence.runtime_epoch@ ==> !equal,
        left.fence.host_generation != right.fence.host_generation ==> !equal,
        left.fence.runtime_instance_id@ != right.fence.runtime_instance_id@ ==> !equal,
        left.subscription_generation != right.subscription_generation ==> !equal,
        left.source_generation != right.source_generation ==> !equal,
        left == right ==> equal,
{
}

/// Only the registration that started an observer ends it; another one leaves it as it is.
pub proof fn only_its_registration_ends_an_observer<O>(
    registration: NetworkDefaultSourceRegistration,
)
    ensures
        forall|
            source: &mut NativeNetworkDefaultEventSource<O>,
            stopped: Result<Option<O>, DomainError>,
        | #[trigger]
            call_ensures(
                NativeNetworkDefaultEventSource::<O>::stop,
                (source, &registration),
                stopped,
            ) ==> {
                &&& source.observer is None ==> stopped == Ok::<Option<O>, DomainError>(None)
                &&& source.observer is Some && (source.observer->0).0 == registration ==> stopped
                    == Ok::<Option<O>, DomainError>(Some((source.observer->0).1))
                        && final(source).observer is None
                &&& source.observer is Some && ((source.observer->0).0.source_generation
                    != registration.source_generation
                    || (source.observer->0).0.subscription_generation
                    != registration.subscription_generation
                    || (source.observer->0).0.fence.host_generation
                    != registration.fence.host_generation) ==> stopped is Err
                        && final(source).observer == source.observer
            },
{
}

} // verus!

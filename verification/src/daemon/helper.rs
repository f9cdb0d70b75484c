//! The framework helper: what it announces and which families of operations it offers.

use crate::contract::common::{CapabilityState, ErrorCode};
use crate::daemon::protocol::PROTOCOL_VERSION;
use crate::error::DomainError;
use crate::text::{decimal, decimal_text};
use vstd::prelude::*;

verus! {

/// The helper families, each of which is probed by itself.
#[derive(Clone, Copy, Debug, PartialEq, Eq, Structural)]
pub enum HelperFamily {
    Launch,
    Clipboard,
    Notifications,
}

impl HelperFamily {
    /// Every family, in order.
    pub open spec fn spec_all() -> Seq<HelperFamily> {
        seq![HelperFamily::Launch, HelperFamily::Clipboard, HelperFamily::Notifications]
    }

    /// Every family, in order.
    pub fn all() -> (families: [HelperFamily; 3])
        ensures
            families@ == Self::spec_all(),
    {
        let families = [HelperFamily::Launch, HelperFamily::Clipboard, HelperFamily::Notifications];
        assert(families@ =~= Self::spec_all());
        families
    }

    pub open spec fn spec_key(self) -> &'static str {
        match self {
            HelperFamily::Launch => "magisk.launch",
            HelperFamily::Clipboard => "magisk.clipboard",
            HelperFamily::Notifications => "magisk.notifications",
        }
    }

    /// The capability of a family.
    pub fn key(self) -> (key: &'static str)
        ensures
            key == self.spec_key(),
    {
        match self {
            HelperFamily::Launch => "magisk.launch",
            HelperFamily::Clipboard => "magisk.clipboard",
            HelperFamily::Notifications => "magisk.notifications",
        }
    }

    pub open spec fn spec_probe_failure(self) -> &'static str {
        match self {
            HelperFamily::Launch => "LAUNCH_PROBE_FAILED",
            HelperFamily::Clipboard => "CLIPBOARD_PROBE_FAILED",
            HelperFamily::Notifications => "NOTIFICATION_PROBE_FAILED",
        }
    }

    /// Why a family is withdrawn whose probe failed.
    pub fn probe_failure(self) -> (reason: &'static str)
        ensures
            reason == self.spec_probe_failure(),
    {
        match self {
            HelperFamily::Launch => "LAUNCH_PROBE_FAILED",
            HelperFamily::Clipboard => "CLIPBOARD_PROBE_FAILED",
            HelperFamily::Notifications => "NOTIFICATION_PROBE_FAILED",
        }
    }

    pub open spec fn spec_index(self) -> int {
        match self {
            HelperFamily::Launch => 0,
            HelperFamily::Clipboard => 1,
            HelperFamily::Notifications => 2,
        }
    }

    /// The position of a family.
    pub fn index(self) -> (index: usize)
        ensures
            index == self.spec_index(),
            index < 3,
    {
        match self {
            HelperFamily::Launch => 0,
            HelperFamily::Clipboard => 1,
            HelperFamily::Notifications => 2,
        }
    }
}

/// One flag for each family.
#[derive(Clone, Copy, Debug, PartialEq, Eq, Structural)]
pub struct FamilyFlags {
    pub launch: bool,
    pub clipboard: bool,
    pub notifications: bool,
}

impl FamilyFlags {
    /// The flag of a family.
    pub open spec fn of(self, family: HelperFamily) -> bool {
        match family {
            HelperFamily::Launch => self.launch,
            HelperFamily::Clipboard => self.clipboard,
            HelperFamily::Notifications => self.notifications,
        }
    }

    /// The flags with that of one family changed.
    pub open spec fn with(self, family: HelperFamily, flag: bool) -> FamilyFlags {
        match family {
            HelperFamily::Launch => FamilyFlags { launch: flag, ..self },
            HelperFamily::Clipboard => FamilyFlags { clipboard: flag, ..self },
            HelperFamily::Notifications => FamilyFlags { notifications: flag, ..self },
        }
    }

    pub open spec fn spec_none() -> FamilyFlags {
        FamilyFlags { launch: false, clipboard: false, notifications: false }
    }

    /// No flag is set.
    pub fn none() -> (flags: Self)
        ensures
            flags == Self::spec_none(),
    {
        FamilyFlags { launch: false, clipboard: false, notifications: false }
    }

    pub fn get(self, family: HelperFamily) -> (flag: bool)
        ensures
            flag == self.of(family),
    {
        match family {
            HelperFamily::Launch => self.launch,
            HelperFamily::Clipboard => self.clipboard,
            HelperFamily::Notifications => self.notifications,
        }
    }

    pub fn set(&mut self, family: HelperFamily)
        ensures
            *final(self) == old(self).with(family, true),
    {
        match family {
            HelperFamily::Launch => {
                self.launch = true;
            },
            HelperFamily::Clipboard => {
                self.clipboard = true;
            },
            HelperFamily::Notifications => {
                self.notifications = true;
            },
        }
    }
}

/// Whether a family can be used, and why not.
#[derive(Clone, Copy, Debug, PartialEq, Eq)]
pub struct HelperFamilyFact {
    pub family: HelperFamily,
    pub state: CapabilityState,
    pub reason: Option<&'static str>,
}

/// The fact of one family, from its own probe and its own denials alone. Without a helper no
/// family can be used.
pub open spec fn family_fact(
    family: HelperFamily,
    helper_ready: bool,
    probe_succeeded: bool,
    operation_denied: bool,
) -> HelperFamilyFact {
    let reason = if !helper_ready {
        Some("HELPER_UNAVAILABLE")
    } else if !probe_succeeded {
        Some(family.spec_probe_failure())
    } else if operation_denied {
        Some("OPERATION_DENIED")
    } else {
        None
    };
    HelperFamilyFact {
        family,
        state: if reason is None {
            CapabilityState::Available
        } else {
            CapabilityState::Unavailable
        },
        reason,
    }
}

/// Whether `fact` is the fact of `family` for answers that the two questions can give.
pub open spec fn is_family_fact<P, D>(
    fact: HelperFamilyFact,
    family: HelperFamily,
    helper_ready: bool,
    probe_succeeded: P,
    operation_denied: D,
) -> bool where P: Fn(HelperFamily) -> bool, D: Fn(HelperFamily) -> bool {
    if !helper_ready {
        fact == family_fact(family, false, false, false)
    } else {
        exists|probe: bool, denied: bool|
            {
                &&& #[trigger] probe_succeeded.ensures((family,), probe)
                &&& (!probe || #[trigger] operation_denied.ensures((family,), denied))
                &&& fact == family_fact(family, true, probe, denied)
            }
    }
}

fn helper_family_fact<P, D>(
    family: HelperFamily,
    helper_ready: bool,
    probe_succeeded: &P,
    operation_denied: &D,
) -> (fact: HelperFamilyFact) where P: Fn(HelperFamily) -> bool, D: Fn(HelperFamily) -> bool
    requires
        probe_succeeded.requires((family,)),
        operation_denied.requires((family,)),
    ensures
        is_family_fact(fact, family, helper_ready, *probe_succeeded, *operation_denied),
{
    if !helper_ready {
        return HelperFamilyFact {
            family,
            state: CapabilityState::Unavailable,
            reason: Some("HELPER_UNAVAILABLE"),
        };
    }
    let probe = probe_succeeded(family);
    let denied = operation_denied(family);
    let reason = if !probe {
        Some(family.probe_failure())
    } else if denied {
        Some("OPERATION_DENIED")
    } else {
        None
    };
    let state = if reason.is_none() {
        CapabilityState::Available
    } else {
        CapabilityState::Unavailable
    };
    let fact = HelperFamilyFact { family, state, reason };
    assert(probe_succeeded.ensures((family,), probe) && operation_denied.ensures((family,), denied)
        && fact == family_fact(family, true, probe, denied));
    fact
}

/// The facts of every family, in order.
pub fn helper_family_facts<P, D>(
    helper_ready: bool,
    probe_succeeded: P,
    operation_denied: D,
) -> (facts: [HelperFamilyFact; 3]) where
    P: Fn(HelperFamily) -> bool,
    D: Fn(HelperFamily) -> bool,

    requires
        forall|family: HelperFamily| probe_succeeded.requires((family,)),
        forall|family: HelperFamily| operation_denied.requires((family,)),
    ensures
        forall|i: int|
            0 <= i < 3 ==> is_family_fact(
                #[trigger] facts@[i],
                HelperFamily::spec_all()[i],
                helper_ready,
                probe_succeeded,
                operation_denied,
            ),
{
    let facts = [
        helper_family_fact(HelperFamily::Launch, helper_ready, &probe_succeeded, &operation_denied),
        helper_family_fact(
            HelperFamily::Clipboard,
            helper_ready,
            &probe_succeeded,
            &operation_denied,
        ),
        helper_family_fact(
            HelperFamily::Notifications,
            helper_ready,
            &probe_succeeded,
            &operation_denied,
        ),
    ];
    facts
}

/// A family can be used exactly when the helper is there, its own probe succeeded and none of its
/// own operations was denied; no other family has a say.
pub proof fn a_family_stands_alone(
    family: HelperFamily,
    helper_ready: bool,
    probe_succeeded: bool,
    operation_denied: bool,
)
    ensures
        family_fact(family, helper_ready, probe_succeeded, operation_denied).state is Available <==> (
        helper_ready && probe_succeeded && !operation_denied),
        family_fact(family, helper_ready, probe_succeeded, operation_denied).reason is None <==>
            family_fact(family, helper_ready, probe_succeeded, operation_denied).state is Available,
        family_fact(family, helper_ready, probe_succeeded, operation_denied).family == family,
{
}

/// What a helper says of itself when it connects.
#[derive(Clone, Copy, Debug, PartialEq, Eq, Structural)]
pub struct HelperHello {
    pub protocol_version: u32,
    pub sdk_int: u32,
    pub helper_generation: u64,
}

/// The one helper that this daemon expects.
#[derive(Debug)]
pub struct HelperRegistry {
    sdk_int: u32,
    expected_generation: u64,
    generation: Option<u64>,
}

impl HelperRegistry {
    pub closed spec fn spec_sdk_int(self) -> u32 {
        self.sdk_int
    }

    pub closed spec fn spec_expected_generation(self) -> u64 {
        self.expected_generation
    }

    /// The generation of the helper that is connected.
    pub closed spec fn spec_generation(self) -> Option<u64> {
        self.generation
    }

    /// Whether a helper that is connected is the expected one.
    pub open spec fn wf(self) -> bool {
        &&& 33 <= self.spec_sdk_int() <= 37
        &&& self.spec_expected_generation() != 0
        &&& self.spec_generation() is Some ==> self.spec_generation()
            == Some(self.spec_expected_generation())
    }

    pub fn new(sdk_int: u32, expected_generation: u64) -> (registry: Result<Self, DomainError>)
        ensures
            match registry {
                Ok(registry) => {
                    &&& registry.wf()
                    &&& registry.spec_sdk_int() == sdk_int
                    &&& registry.spec_expected_generation() == expected_generation
                    &&& registry.spec_generation() is None
                },
                Err(error) => error == (if !(33 <= sdk_int <= 37) {
                    DomainError {
                        code: ErrorCode::CapabilityUnavailable,
                        reason: "device SDK has no fixed framework helper",
                    }
                } else {
                    DomainError {
                        code: ErrorCode::InvalidArgument,
                        reason: "invalid framework helper generation",
                    }
                }),
            },
            registry is Ok <==> 33 <= sdk_int <= 37 && expected_generation != 0,
    {
        if sdk_int < 33 || sdk_int > 37 {
            return Err(
                DomainError::new(
                    ErrorCode::CapabilityUnavailable,
                    "device SDK has no fixed framework helper",
                ),
            );
        }
        if expected_generation == 0 {
            return Err(DomainError::invalid("invalid framework helper generation"));
        }
        Ok(HelperRegistry { sdk_int, expected_generation, generation: None })
    }

    /// The archive that holds the helper for the device's SDK.
    pub fn jar_name(&self) -> (name: String)
        ensures
            name@ == "droidbridge-framework-api"@ + decimal(self.spec_sdk_int() as nat) + ".jar"@,
    {
        let mut name = "droidbridge-framework-api".to_owned();
        let digits = decimal_text(self.sdk_int as u64);
        name.append(digits.as_str());
        name.append(".jar");
        name
    }

    /// Whether a helper that says `hello` is the expected one.
    pub open spec fn recognizes(self, peer_uid: u32, hello: HelperHello) -> bool {
        peer_uid == 0 && hello.protocol_version == PROTOCOL_VERSION && hello.sdk_int
            == self.spec_sdk_int() && hello.helper_generation == self.spec_expected_generation()
    }

    /// Takes in a helper that connects; any other one is refused.
    pub fn accept_hello(&mut self, peer_uid: u32, hello: HelperHello) -> (accepted: Result<
        (),
        DomainError,
    >)
        requires
            old(self).wf(),
        ensures
            final(self).wf(),
            final(self).spec_sdk_int() == old(self).spec_sdk_int(),
            final(self).spec_expected_generation() == old(self).spec_expected_generation(),
            final(self).spec_generation() == (if old(self).recognizes(peer_uid, hello) {
                Some(hello.helper_generation)
            } else {
                old(self).spec_generation()
            }),
            accepted == (if old(self).recognizes(peer_uid, hello) {
                Ok(())
            } else {
                Err(
                    DomainError {
                        code: ErrorCode::PermissionDenied,
                        reason: "framework helper authentication failed",
                    },
                )
            }),
    {
        if peer_uid != 0 || hello.protocol_version != PROTOCOL_VERSION || hello.sdk_int
            != self.sdk_int || hello.helper_generation != self.expected_generation {
            return Err(
                DomainError::new(
                    ErrorCode::PermissionDenied,
                    "framework helper authentication failed",
                ),
            );
        }
        self.generation = Some(hello.helper_generation);
        Ok(())
    }

    pub fn framework_state(&self) -> (state: CapabilityState)
        ensures
            state == (if self.spec_generation() is Some {
                CapabilityState::Available
            } else {
                CapabilityState::Unavailable
            }),
    {
        if self.generation.is_some() {
            CapabilityState::Available
        } else {
            CapabilityState::Unavailable
        }
    }

    pub fn disconnected(&mut self)
        requires
            old(self).wf(),
        ensures
            final(self).wf(),
            final(self).spec_sdk_int() == old(self).spec_sdk_int(),
            final(self).spec_expected_generation() == old(self).spec_expected_generation(),
            final(self).spec_generation() is None,
    {
        self.generation = None;
    }
}

// ---------------------------------------------------------------------------------------
// Laws.
// ---------------------------------------------------------------------------------------

/// Each family has a capability of its own, a reason of its own for a failed probe, and a place of
/// its own among all of them.
pub proof fn each_family_is_told_by_its_own_name(
    family: HelperFamily,
    key: &'static str,
    failure: &'static str,
    index: usize,
    families: [HelperFamily; 3],
)
    requires
        call_ensures(HelperFamily::key, (family,), key),
        call_ensures(HelperFamily::probe_failure, (family,), failure),
        call_ensures(HelperFamily::index, (family,), index),
        call_ensures(HelperFamily::all, (), families),
    ensures
        family is Launch ==> key@ == "magisk.launch"@ && failure@ == "LAUNCH_PROBE_FAILED"@,
        family is Clipboard ==> key@ == "magisk.clipboard"@ && failure@
            == "CLIPBOARD_PROBE_FAILED"@,
        family is Notifications ==> key@ == "magisk.notifications"@ && failure@
            == "NOTIFICATION_PROBE_FAILED"@,
        families@.len() == 3 && index < 3,
        families@[index as int] == family,
{
}

/// Why a family cannot be used: a missing helper is told before a failed probe, and that before a
/// denial.
pub proof fn a_family_is_withdrawn_for_its_reason(
    family: HelperFamily,
    helper_ready: bool,
    probe_succeeded: bool,
    operation_denied: bool,
)
    ensures
        ({
            let reason = family_fact(
                family,
                helper_ready,
                probe_succeeded,
                operation_denied,
            ).reason;
            &&& !helper_ready ==> reason == Some("HELPER_UNAVAILABLE")
            &&& helper_ready && !probe_succeeded && family is Launch ==> reason == Some(
                "LAUNCH_PROBE_FAILED",
            )
            &&& helper_ready && !probe_succeeded && family is Clipboard ==> reason == Some(
                "CLIPBOARD_PROBE_FAILED",
            )
            &&& helper_ready && !probe_succeeded && family is Notifications ==> reason == Some(
                "NOTIFICATION_PROBE_FAILED",
            )
            &&& helper_ready && probe_succeeded && operation_denied ==> reason == Some(
                "OPERATION_DENIED",
            )
        }),
{
}

/// A flag that is set is that of its family, and no other changes.
pub proof fn a_flag_is_that_of_its_family(family: HelperFamily, other: HelperFamily)
    ensures
        forall|flags: &mut FamilyFlags, done: ()| #[trigger]
            call_ensures(FamilyFlags::set, (flags, family), done) ==> {
                &&& other == family ==> final(flags).of(other)
                &&& other != family ==> final(flags).of(other) == flags.of(other)
            },
        forall|flags: FamilyFlags, flag: bool| #[trigger]
            call_ensures(FamilyFlags::get, (flags, family), flag) ==> {
                &&& family is Launch ==> flag == flags.launch
                &&& family is Clipboard ==> flag == flags.clipboard
                &&& family is Notifications ==> flag == flags.notifications
            },
        forall|flags: FamilyFlags| #[trigger]
            call_ensures(FamilyFlags::none, (), flags) ==> !flags.launch && !flags.clipboard
                && !flags.notifications,
{
}

/// Only the helper that was started is taken in: one that runs as root, speaks version 1, and names
/// the device's own SDK and the generation that is expected. Any other leaves everything as it is.
pub proof fn only_the_expected_helper_is_taken_in(peer_uid: u32, hello: HelperHello)
    ensures
        forall|registry: &mut HelperRegistry, accepted: Result<(), DomainError>| #[trigger]
            call_ensures(HelperRegistry::accept_hello, (registry, peer_uid, hello), accepted) ==> {
                &&& accepted is Ok <==> peer_uid == 0 && hello.protocol_version == 1
                    && hello.sdk_int == registry.spec_sdk_int() && hello.helper_generation
                    == registry.spec_expected_generation()
                &&& accepted is Ok ==> final(registry).spec_generation() == Some(
                    hello.helper_generation,
                )
                &&& accepted is Err ==> final(registry).spec_generation()
                    == registry.spec_generation()
            },
{
}

/// Without a helper every family is withdrawn for that reason; with one, a family is available only
/// if its own question was answered well, and stands in its own place.
pub proof fn each_family_has_its_fact<P, D>(
    fact: HelperFamilyFact,
    family: HelperFamily,
    helper_ready: bool,
    probe_succeeded: P,
    operation_denied: D,
) where P: Fn(HelperFamily) -> bool, D: Fn(HelperFamily) -> bool
    requires
        is_family_fact(fact, family, helper_ready, probe_succeeded, operation_denied),
    ensures
        fact.family == family,
        !helper_ready ==> fact.state is Unavailable && fact.reason == Some("HELPER_UNAVAILABLE"),
        fact.state is Available ==> fact.reason is None && helper_ready
            && probe_succeeded.ensures((family,), true) && operation_denied.ensures(
            (family,),
            false,
        ),
        helper_ready && fact.state !is Available ==> fact.state is Unavailable && (
        probe_succeeded.ensures((family,), false) || operation_denied.ensures((family,), true)),
{
}

} // verus!

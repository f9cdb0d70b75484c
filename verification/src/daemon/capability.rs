//! Capabilities that the application registers, and the facts of the module itself.

use crate::contract::common::{CapabilityState, ErrorCode};
use crate::error::DomainError;
use crate::text::{optional_text, same};
use vstd::prelude::*;

verus! {

/// The capabilities that the application may register.
pub open spec fn companion_keys() -> Seq<Seq<char>> {
    seq![
        "android.local_network"@,
        "android.notifications"@,
        "android.notification_listener"@,
        "automation.exact_alarm"@,
        "visual.accessibility"@,
        "visual.media_projection_session"@,
        "shizuku.shell"@,
        "execution.app_guard"@,
        "execution.shell_guard"@,
    ]
}

/// The capabilities that the application may register.
pub fn companion_capability_keys() -> (keys: [&'static str; 9])
    ensures
        crate::text::slices(keys@) == companion_keys(),
{
    let keys = [
        "android.local_network",
        "android.notifications",
        "android.notification_listener",
        "automation.exact_alarm",
        "visual.accessibility",
        "visual.media_projection_session",
        "shizuku.shell",
        "execution.app_guard",
        "execution.shell_guard",
    ];
    assert(crate::text::slices(keys@) =~= companion_keys());
    keys
}

/// One capability that the application registers.
#[derive(Clone, Debug, PartialEq, Eq)]
pub struct CompanionCapabilityRegistration {
    pub key: String,
    pub state: CapabilityState,
    pub reason: Option<String>,
    pub source_generation: u64,
    pub has_executor: bool,
}

/// Whether a reason goes with a state: an available capability has none, any other has one.
pub open spec fn reason_fits(state: CapabilityState, reason: Option<Seq<char>>) -> bool {
    if state is Available {
        reason is None
    } else {
        reason is Some && reason->0.len() > 0
    }
}

impl CompanionCapabilityRegistration {
    /// Whether a registration is acceptable by itself.
    pub open spec fn acceptable(self) -> bool {
        &&& companion_keys().contains(self.key@)
        &&& self.source_generation != 0
        &&& self.has_executor ==> self.state is Available
        &&& reason_fits(self.state, optional_text(self.reason))
    }
}

/// Whether every registration is acceptable and no key is registered twice.
pub open spec fn acceptable_registrations(
    registrations: Seq<CompanionCapabilityRegistration>,
) -> bool {
    &&& forall|i: int| 0 <= i < registrations.len() ==> (#[trigger] registrations[i]).acceptable()
    &&& forall|i: int, j: int|
        0 <= i < j < registrations.len() ==> (#[trigger] registrations[i]).key@
            != (#[trigger] registrations[j]).key@
}

fn is_companion_key(key: &str) -> (yes: bool)
    ensures
        yes == companion_keys().contains(key@),
{
    let keys = companion_capability_keys();
    for i in 0..keys.len()
        invariant
            crate::text::slices(keys@) == companion_keys(),
            keys@.len() == 9,
            forall|j: int| 0 <= j < i ==> #[trigger] companion_keys()[j] != key@,
    {
        assert(crate::text::slices(keys@)[i as int] == keys@[i as int]@);
        if same(keys[i], key) {
            assert(companion_keys()[i as int] == key@);
            return true;
        }
    }
    assert(companion_keys().len() == 9);
    false
}

fn registration_is_acceptable(registration: &CompanionCapabilityRegistration) -> (yes: bool)
    ensures
        yes == registration.acceptable(),
{
    let reason_valid = match registration.state {
        CapabilityState::Available => registration.reason.is_none(),
        _ => match &registration.reason {
            Some(reason) => !reason.as_str().is_empty(),
            None => false,
        },
    };
    is_companion_key(registration.key.as_str()) && registration.source_generation != 0 && (
    registration.state == CapabilityState::Available || !registration.has_executor) && reason_valid
}

/// Checks a snapshot of registrations; `None` stands for a payload that is no snapshot. A snapshot
/// is taken whole or refused.
pub fn decode_companion_capability_snapshot(
    snapshot: Option<Vec<CompanionCapabilityRegistration>>,
) -> (registrations: Result<Vec<CompanionCapabilityRegistration>, DomainError>)
    ensures
        registrations == (match snapshot {
            None => Err(
                DomainError {
                    code: ErrorCode::ProtocolIncompatible,
                    reason: "invalid companion capability snapshot",
                },
            ),
            Some(snapshot) => if snapshot@.len() > 9 {
                Err(
                    DomainError {
                        code: ErrorCode::ProtocolIncompatible,
                        reason: "companion capability snapshot exceeds the fixed key set",
                    },
                )
            } else if acceptable_registrations(snapshot@) {
                Ok(snapshot)
            } else {
                Err(
                    DomainError {
                        code: ErrorCode::ProtocolIncompatible,
                        reason: "invalid companion capability registration",
                    },
                )
            },
        }),
{
    let snapshot = match snapshot {
        Some(snapshot) => snapshot,
        None => {
            return Err(
                DomainError::new(
                    ErrorCode::ProtocolIncompatible,
                    "invalid companion capability snapshot",
                ),
            );
        },
    };
    if snapshot.len() > 9 {
        return Err(
            DomainError::new(
                ErrorCode::ProtocolIncompatible,
                "companion capability snapshot exceeds the fixed key set",
            ),
        );
    }
    let mut acceptable = true;
    for i in 0..snapshot.len()
        invariant
            acceptable == acceptable_registrations(snapshot@.take(i as int)),
    {
        let ghost before = snapshot@.take(i as int);
        let ghost after = snapshot@.take(i + 1);
        let mut repeated = false;
        for j in 0..i
            invariant
                i < snapshot@.len(),
                repeated == exists|k: int|
                    0 <= k < j && (#[trigger] snapshot@[k]).key@ == snapshot@[i as int].key@,
        {
            if same(snapshot[j].key.as_str(), snapshot[i].key.as_str()) {
                repeated = true;
            }
        }
        let fits = registration_is_acceptable(&snapshot[i]) && !repeated;
        proof {
            assert(forall|k: int| 0 <= k < i ==> after[k] == before[k]);
            assert(after[i as int] == snapshot@[i as int]);
            if acceptable_registrations(after) {
                assert forall|k: int| 0 <= k < i implies (#[trigger] before[k]).acceptable() by {
                    assert(after[k].acceptable());
                }
                assert forall|a: int, b: int| 0 <= a < b < i implies (#[trigger] before[a]).key@
                    != (#[trigger] before[b]).key@ by {
                    assert(after[a].key@ != after[b].key@);
                }
                assert forall|k: int| 0 <= k < i implies (#[trigger] snapshot@[k]).key@
                    != snapshot@[i as int].key@ by {
                    assert(after[k].key@ != after[i as int].key@);
                }
                assert(after[i as int].acceptable());
            }
            if acceptable && fits {
                assert forall|k: int| 0 <= k < after.len() implies (#[trigger] after[k]).acceptable() by {
                    if k < i {
                        assert(before[k].acceptable());
                    }
                }
                assert forall|a: int, b: int| 0 <= a < b < after.len() implies (
                #[trigger] after[a]).key@ != (#[trigger] after[b]).key@ by {
                    if b < i {
                        assert(before[a].key@ != before[b].key@);
                    } else {
                        assert(snapshot@[a].key@ != snapshot@[i as int].key@);
                    }
                }
            }
        }
        acceptable = acceptable && fits;
    }
    assert(snapshot@.take(snapshot@.len() as int) =~= snapshot@);
    if !acceptable {
        return Err(
            DomainError::new(
                ErrorCode::ProtocolIncompatible,
                "invalid companion capability registration",
            ),
        );
    }
    Ok(snapshot)
}

/// Whether the application is connected.
#[derive(Debug)]
pub struct CompanionLink {
    connected: bool,
}

impl Default for CompanionLink {
    fn default() -> (link: Self)
        ensures
            !link.spec_connected(),
    {
        CompanionLink { connected: false }
    }
}

impl CompanionLink {
    pub closed spec fn spec_connected(self) -> bool {
        self.connected
    }

    pub fn observe_connected(&mut self)
        ensures
            final(self).spec_connected(),
    {
        self.connected = true;
    }

    pub fn observe_disconnected(&mut self)
        ensures
            !final(self).spec_connected(),
    {
        self.connected = false;
    }

    pub fn capability_state(&self) -> (state: CapabilityState)
        ensures
            state == availability(self.spec_connected()),
    {
        state_of(self.connected)
    }
}

/// The state of something that is there or not.
pub open spec fn availability(present: bool) -> CapabilityState {
    if present {
        CapabilityState::Available
    } else {
        CapabilityState::Unavailable
    }
}

/// The state of something that is there or not.
pub fn state_of(present: bool) -> (state: CapabilityState)
    ensures
        state == availability(present),
{
    if present {
        CapabilityState::Available
    } else {
        CapabilityState::Unavailable
    }
}

/// The facts of the module.
#[derive(Clone, Copy, Debug, PartialEq, Eq, Structural)]
pub struct MagiskFacts {
    pub magisk_module: CapabilityState,
    pub magisk_root: CapabilityState,
    pub magisk_framework: CapabilityState,
    pub execution_root_guard: CapabilityState,
    pub app_execution_surface: CapabilityState,
    pub shizuku_shell: CapabilityState,
}

impl MagiskFacts {
    /// The facts of a module that is ready.
    pub fn ready(companion: bool, helper: bool) -> (facts: Self)
        ensures
            facts == (MagiskFacts {
                magisk_module: CapabilityState::Available,
                magisk_root: CapabilityState::Available,
                magisk_framework: availability(helper),
                execution_root_guard: CapabilityState::Available,
                app_execution_surface: availability(companion),
                shizuku_shell: CapabilityState::Unavailable,
            }),
    {
        MagiskFacts {
            magisk_module: CapabilityState::Available,
            magisk_root: CapabilityState::Available,
            magisk_framework: state_of(helper),
            execution_root_guard: CapabilityState::Available,
            app_execution_surface: state_of(companion),
            shizuku_shell: CapabilityState::Unavailable,
        }
    }

    /// The facts once the application came or went; its shell goes with it and does not come back
    /// by itself.
    pub fn with_companion(self, connected: bool) -> (facts: Self)
        ensures
            facts == (MagiskFacts {
                app_execution_surface: availability(connected),
                shizuku_shell: if connected {
                    self.shizuku_shell
                } else {
                    CapabilityState::Unavailable
                },
                ..self
            }),
    {
        let shizuku_shell = if connected {
            self.shizuku_shell
        } else {
            CapabilityState::Unavailable
        };
        MagiskFacts {
            magisk_module: self.magisk_module,
            magisk_root: self.magisk_root,
            magisk_framework: self.magisk_framework,
            execution_root_guard: self.execution_root_guard,
            app_execution_surface: state_of(connected),
            shizuku_shell,
        }
    }
}

// ---------------------------------------------------------------------------------------
// Laws.
// ---------------------------------------------------------------------------------------

/// A snapshot is taken whole exactly if it has at most nine registrations, each of a capability of
/// the application, with a generation, an executor only where it is available, a reason only where
/// it is not, and no two of one capability. Otherwise nothing of it is taken.
pub proof fn a_snapshot_is_taken_whole(
    snapshot: Vec<CompanionCapabilityRegistration>,
    taken: Result<Vec<CompanionCapabilityRegistration>, DomainError>,
)
    requires
        call_ensures(decode_companion_capability_snapshot, (Some(snapshot),), taken),
    ensures
        taken is Ok ==> taken->Ok_0 == snapshot,
        snapshot@.len() > 9 ==> taken is Err,
        forall|i: int|
            0 <= i < snapshot@.len() && taken is Ok ==> {
                let registration = #[trigger] snapshot@[i];
                &&& registration.source_generation != 0
                &&& registration.has_executor ==> registration.state is Available
                &&& registration.state is Available <==> registration.reason is None
                &&& registration.reason is Some ==> registration.reason->0@.len() > 0
                &&& {
                    ||| registration.key@ == "android.local_network"@
                    ||| registration.key@ == "android.notifications"@
                    ||| registration.key@ == "android.notification_listener"@
                    ||| registration.key@ == "automation.exact_alarm"@
                    ||| registration.key@ == "visual.accessibility"@
                    ||| registration.key@ == "visual.media_projection_session"@
                    ||| registration.key@ == "shizuku.shell"@
                    ||| registration.key@ == "execution.app_guard"@
                    ||| registration.key@ == "execution.shell_guard"@
                }
            },
        forall|i: int, j: int|
            0 <= i < j < snapshot@.len() && taken is Ok ==> (#[trigger] snapshot@[i]).key@ != (
            #[trigger] snapshot@[j]).key@,
        snapshot@.len() == 0 ==> taken is Ok,
{
    let keys = companion_keys();
    assert(keys.len() == 9);
    assert(keys[0] == "android.local_network"@ && keys[1] == "android.notifications"@ && keys[2]
        == "android.notification_listener"@ && keys[3] == "automation.exact_alarm"@ && keys[4]
        == "visual.accessibility"@ && keys[5] == "visual.media_projection_session"@ && keys[6]
        == "shizuku.shell"@ && keys[7] == "execution.app_guard"@ && keys[8]
        == "execution.shell_guard"@);
    assert forall|i: int| 0 <= i < snapshot@.len() && taken is Ok implies (
    #[trigger] snapshot@[i]).acceptable() by {}
}

/// A capability of its own is refused by none of the rules: it is available without a reason, or is
/// not and says why.
pub proof fn each_capability_can_be_registered(
    snapshot: Vec<CompanionCapabilityRegistration>,
    taken: Result<Vec<CompanionCapabilityRegistration>, DomainError>,
)
    requires
        call_ensures(decode_companion_capability_snapshot, (Some(snapshot),), taken),
        snapshot@.len() == 1,
        snapshot@[0].source_generation != 0,
        snapshot@[0].state is Available && snapshot@[0].reason is None || (snapshot@[0].state !is
            Available && snapshot@[0].reason is Some && snapshot@[0].reason->0@.len() > 0
            && !snapshot@[0].has_executor),
    ensures
        ({
            ||| snapshot@[0].key@ == "android.local_network"@
            ||| snapshot@[0].key@ == "android.notifications"@
            ||| snapshot@[0].key@ == "android.notification_listener"@
            ||| snapshot@[0].key@ == "automation.exact_alarm"@
            ||| snapshot@[0].key@ == "visual.accessibility"@
            ||| snapshot@[0].key@ == "visual.media_projection_session"@
            ||| snapshot@[0].key@ == "shizuku.shell"@
            ||| snapshot@[0].key@ == "execution.app_guard"@
            ||| snapshot@[0].key@ == "execution.shell_guard"@
        }) ==> taken is Ok,
{
    let keys = companion_keys();
    assert(keys.len() == 9);
    assert(keys[0] == "android.local_network"@ && keys[1] == "android.notifications"@ && keys[2]
        == "android.notification_listener"@ && keys[3] == "automation.exact_alarm"@ && keys[4]
        == "visual.accessibility"@ && keys[5] == "visual.media_projection_session"@ && keys[6]
        == "shizuku.shell"@ && keys[7] == "execution.app_guard"@ && keys[8]
        == "execution.shell_guard"@);
}

/// What is there is available, and what is not is not; a module that is ready has its root and its
/// guard, its framework with its helper, and the application's surface with the application. The
/// application's shell goes with it.
pub proof fn the_facts_of_a_module(
    companion: bool,
    helper: bool,
    connected: bool,
    facts: MagiskFacts,
    later: MagiskFacts,
)
    requires
        call_ensures(MagiskFacts::ready, (companion, helper), facts),
        call_ensures(MagiskFacts::with_companion, (facts, connected), later),
    ensures
        facts.magisk_module is Available && facts.magisk_root is Available
            && facts.execution_root_guard is Available,
        facts.magisk_framework == (if helper {
            CapabilityState::Available
        } else {
            CapabilityState::Unavailable
        }),
        facts.app_execution_surface == (if companion {
            CapabilityState::Available
        } else {
            CapabilityState::Unavailable
        }),
        facts.shizuku_shell is Unavailable,
        later.app_execution_surface == (if connected {
            CapabilityState::Available
        } else {
            CapabilityState::Unavailable
        }),
        !connected ==> later.shizuku_shell is Unavailable,
        connected ==> later.shizuku_shell == facts.shizuku_shell,
        later.magisk_module == facts.magisk_module && later.magisk_root == facts.magisk_root
            && later.magisk_framework == facts.magisk_framework && later.execution_root_guard
            == facts.execution_root_guard,
{
}

} // verus!

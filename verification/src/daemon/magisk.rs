//! The runtime host in the daemon: what it registers of itself, and what makes it change that.

use crate::contract::common::{
    AutomationExecutionState, CapabilityState, ErrorCode, TaskState, UuidV4,
};
use crate::daemon::capability::{availability, state_of};
use crate::daemon::executor::{MagiskExecutorFence, MagiskExecutorHandle};
use crate::daemon::helper::{family_fact, FamilyFlags, HelperFamily};
use crate::daemon::host::{OutstandingWork, SourceGeneration, WakeAlarmProbe};
use crate::contract::internal::Fence;
use crate::error::DomainError;
use crate::text::{decimal, decimal_text, joined, owned_texts, slices, texts};
use vstd::prelude::*;

verus! {

/// The version that the module and the daemon must both be.
pub const MODULE_VERSION_CODE: u64 = 3_000;

/// One capability as the host registers it.
#[derive(Clone, Copy, Debug, PartialEq, Eq)]
pub struct Registration {
    pub key: &'static str,
    pub state: CapabilityState,
    pub reason: Option<&'static str>,
    pub has_executor: bool,
    pub source_generation: u64,
}

/// One thing that the host does to what it published.
#[derive(Clone, Copy, Debug, PartialEq, Eq)]
pub enum HostAction {
    Register(Registration),
    /// The whole runtime is made unavailable.
    SetUnavailable(&'static str),
    /// The helper is given up.
    WithdrawHelper,
}

/// A registration of something that is there or, for `reason`, is not.
pub open spec fn registration(
    key: &'static str,
    ready: bool,
    reason: &'static str,
    has_executor: bool,
    generation: u64,
) -> HostAction {
    HostAction::Register(
        Registration {
            key,
            state: availability(ready),
            reason: if ready {
                None
            } else {
                Some(reason)
            },
            has_executor,
            source_generation: generation,
        },
    )
}

fn register(
    key: &'static str,
    ready: bool,
    reason: &'static str,
    has_executor: bool,
    generation: u64,
) -> (action: HostAction)
    ensures
        action == registration(key, ready, reason, has_executor, generation),
{
    HostAction::Register(
        Registration {
            key,
            state: state_of(ready),
            reason: if ready {
                None
            } else {
                Some(reason)
            },
            has_executor,
            source_generation: generation,
        },
    )
}

/// The registration of one family of the helper.
pub open spec fn family_registration(
    family: HelperFamily,
    helper_ready: bool,
    probe_succeeded: bool,
    operation_denied: bool,
    generation: u64,
) -> HostAction {
    let fact = family_fact(family, helper_ready, probe_succeeded, operation_denied);
    HostAction::Register(
        Registration {
            key: family.spec_key(),
            state: fact.state,
            reason: fact.reason,
            has_executor: fact.state is Available,
            source_generation: generation,
        },
    )
}

fn register_family(
    family: HelperFamily,
    helper_ready: bool,
    probe_succeeded: bool,
    operation_denied: bool,
    generation: u64,
) -> (action: HostAction)
    ensures
        action == family_registration(
            family,
            helper_ready,
            probe_succeeded,
            operation_denied,
            generation,
        ),
{
    let reason = if !helper_ready {
        Some("HELPER_UNAVAILABLE")
    } else if !probe_succeeded {
        Some(family.probe_failure())
    } else if operation_denied {
        Some("OPERATION_DENIED")
    } else {
        None
    };
    let available = reason.is_none();
    HostAction::Register(
        Registration {
            key: family.key(),
            state: state_of(available),
            reason,
            has_executor: available,
            source_generation: generation,
        },
    )
}

/// The registrations of the helper and of each of its families.
pub open spec fn helper_registrations(
    helper_ready: bool,
    probes: FamilyFlags,
    denials: FamilyFlags,
    generation: u64,
) -> Seq<HostAction> {
    seq![
        registration(
            "magisk.framework",
            helper_ready,
            "HELPER_UNAVAILABLE",
            helper_ready,
            generation,
        ),
        family_registration(
            HelperFamily::Launch,
            helper_ready,
            probes.launch,
            denials.launch,
            generation,
        ),
        family_registration(
            HelperFamily::Clipboard,
            helper_ready,
            probes.clipboard,
            denials.clipboard,
            generation,
        ),
        family_registration(
            HelperFamily::Notifications,
            helper_ready,
            probes.notifications,
            denials.notifications,
            generation,
        ),
    ]
}

fn register_helper(
    actions: &mut Vec<HostAction>,
    helper_ready: bool,
    probes: FamilyFlags,
    denials: FamilyFlags,
    generation: u64,
)
    ensures
        final(actions)@ == old(actions)@ + helper_registrations(
            helper_ready,
            probes,
            denials,
            generation,
        ),
{
    actions.push(
        register("magisk.framework", helper_ready, "HELPER_UNAVAILABLE", helper_ready, generation),
    );
    actions.push(
        register_family(
            HelperFamily::Launch,
            helper_ready,
            probes.launch,
            denials.launch,
            generation,
        ),
    );
    actions.push(
        register_family(
            HelperFamily::Clipboard,
            helper_ready,
            probes.clipboard,
            denials.clipboard,
            generation,
        ),
    );
    actions.push(
        register_family(
            HelperFamily::Notifications,
            helper_ready,
            probes.notifications,
            denials.notifications,
            generation,
        ),
    );
    assert(actions@ =~= old(actions)@ + helper_registrations(
        helper_ready,
        probes,
        denials,
        generation,
    ));
}

/// The registrations of root execution and of its guard.
pub open spec fn guard_registrations(ready: bool, reason: &'static str, generation: u64) -> Seq<
    HostAction,
> {
    seq![
        registration("magisk.root", ready, reason, ready, generation),
        registration("execution.root_guard", ready, reason, ready, generation),
    ]
}

fn register_guard(
    actions: &mut Vec<HostAction>,
    ready: bool,
    reason: &'static str,
    generation: u64,
)
    ensures
        final(actions)@ == old(actions)@ + guard_registrations(ready, reason, generation),
{
    actions.push(register("magisk.root", ready, reason, ready, generation));
    actions.push(register("execution.root_guard", ready, reason, ready, generation));
    assert(actions@ =~= old(actions)@ + guard_registrations(ready, reason, generation));
}

/// What a host finds when it is activated.
#[derive(Clone, Copy, Debug)]
pub struct ActivationFacts {
    /// Nothing of an earlier instance is left uncleaned.
    pub guards_are_clean: bool,
    /// The guard was probed and works.
    pub guard_works: bool,
    pub wake_alarm: WakeAlarmProbe,
    pub helper: bool,
    pub probes: FamilyFlags,
}

impl ActivationFacts {
    pub open spec fn guard_ready(self) -> bool {
        self.guards_are_clean && self.guard_works
    }

    pub open spec fn wake_alarm_ready(self) -> bool {
        self.wake_alarm.created && self.wake_alarm.clock_read && self.wake_alarm.armed
            && self.wake_alarm.disarmed
    }
}

/// What the host has published of itself.
#[derive(Clone, Copy, Debug)]
pub struct HostFacts {
    pub guard_ready: bool,
    pub module_ready: bool,
    pub wake_alarm_ready: bool,
    pub helper: bool,
    pub family_probes: FamilyFlags,
    pub published_denials: FamilyFlags,
    pub capability_generation: SourceGeneration,
    pub helper_generation: SourceGeneration,
}

/// What the host has published of itself, over plain generations.
pub struct HostModel {
    pub guard_ready: bool,
    pub module_ready: bool,
    pub wake_alarm_ready: bool,
    pub helper: bool,
    pub family_probes: FamilyFlags,
    pub published_denials: FamilyFlags,
    pub capability_generation: u64,
    pub helper_generation: u64,
}

impl View for HostFacts {
    type V = HostModel;

    open spec fn view(&self) -> HostModel {
        HostModel {
            guard_ready: self.guard_ready,
            module_ready: self.module_ready,
            wake_alarm_ready: self.wake_alarm_ready,
            helper: self.helper,
            family_probes: self.family_probes,
            published_denials: self.published_denials,
            capability_generation: self.capability_generation.value(),
            helper_generation: self.helper_generation.value(),
        }
    }
}

/// What becomes of a change of the host: the next state and, unless the generations are exhausted,
/// what is done.
pub struct Change {
    pub host: HostModel,
    pub actions: Result<Seq<HostAction>, DomainError>,
}

pub open spec fn exhausted() -> DomainError {
    DomainError { code: ErrorCode::ResourceLimit, reason: "capability generation exhausted" }
}

/// The fixed things that an activated host does first.
pub open spec fn activation_actions(facts: ActivationFacts) -> Seq<HostAction> {
    let module = HostAction::Register(
        Registration {
            key: "magisk.module",
            state: CapabilityState::Available,
            reason: None,
            has_executor: false,
            source_generation: 1,
        },
    );
    let alarm = registration(
        "magisk.wake_alarm",
        facts.wake_alarm_ready(),
        "WAKE_ALARM_UNAVAILABLE",
        facts.wake_alarm_ready(),
        1,
    );
    let closing = if facts.guard_ready() {
        Seq::empty()
    } else {
        seq![HostAction::SetUnavailable("CLEANUP_UNVERIFIED")]
    };
    seq![module] + guard_registrations(facts.guard_ready(), "CLEANUP_UNVERIFIED", 1) + seq![alarm]
        + helper_registrations(facts.helper, facts.probes, FamilyFlags::spec_none(), 1) + closing
}

impl HostModel {
    /// A new generation of the capabilities, for which `actions` are done.
    pub open spec fn published(self, actions: Seq<HostAction>) -> Change {
        if self.capability_generation == u64::MAX {
            Change { host: self, actions: Err(exhausted()) }
        } else {
            Change {
                host: HostModel {
                    capability_generation: (self.capability_generation + 1) as u64,
                    ..self
                },
                actions: Ok(actions),
            }
        }
    }

    pub open spec fn next_generation(self) -> u64 {
        (self.capability_generation + 1) as u64
    }

    pub open spec fn unchanged(self) -> Change {
        Change { host: self, actions: Ok(Seq::empty()) }
    }

    /// The guards of an earlier instance could not be cleaned.
    pub open spec fn after_recovery_failure(self) -> Change {
        HostModel { guard_ready: false, ..self }.published(
            guard_registrations(false, "CLEANUP_UNVERIFIED", self.next_generation()).push(
                HostAction::SetUnavailable("CLEANUP_UNVERIFIED"),
            ),
        )
    }

    /// The scheduler was looked at.
    pub open spec fn after_scheduler(self, faulted: bool) -> Change {
        if faulted && self.wake_alarm_ready {
            HostModel { wake_alarm_ready: false, ..self }.published(
                seq![
                    registration(
                        "magisk.wake_alarm",
                        false,
                        "WAKE_ALARM_UNAVAILABLE",
                        false,
                        self.next_generation(),
                    ),
                ],
            )
        } else {
            self.unchanged()
        }
    }

    /// The quarantine of commands was looked at.
    pub open spec fn after_quarantine(self, flagged: bool) -> Change {
        if self.guard_ready && flagged {
            HostModel { guard_ready: false, ..self }.published(
                seq![HostAction::SetUnavailable("CLEANUP_UNVERIFIED")] + guard_registrations(
                    false,
                    "CLEANUP_UNVERIFIED",
                    self.next_generation(),
                ),
            )
        } else {
            self.unchanged()
        }
    }

    /// The module was looked at.
    pub open spec fn after_module(self, ready: bool) -> Change {
        if self.module_ready == ready {
            self.unchanged()
        } else {
            let guard = ready && self.guard_ready;
            let opening = if ready {
                Seq::empty()
            } else {
                seq![HostAction::SetUnavailable("MODULE_UNAVAILABLE")]
            };
            HostModel { module_ready: ready, guard_ready: guard, ..self }.published(
                opening + seq![
                    registration(
                        "magisk.module",
                        ready,
                        "MODULE_UNAVAILABLE",
                        false,
                        self.next_generation(),
                    ),
                ] + guard_registrations(
                    guard,
                    "MODULE_OR_GUARD_UNAVAILABLE",
                    self.next_generation(),
                ),
            )
        }
    }

    /// A helper was started and probed.
    pub open spec fn after_helper_start(self, probes: FamilyFlags) -> Change {
        HostModel {
            helper: true,
            family_probes: probes,
            published_denials: FamilyFlags::spec_none(),
            ..self
        }.published(
            helper_registrations(true, probes, FamilyFlags::spec_none(), self.next_generation()),
        )
    }

    /// The helper was lost.
    pub open spec fn after_helper_loss(self) -> Change {
        HostModel { helper: false, ..self }.published(
            seq![HostAction::WithdrawHelper] + helper_registrations(
                false,
                self.family_probes,
                self.published_denials,
                self.next_generation(),
            ),
        )
    }

    /// The helper lives, and was denied what `denials` tells.
    pub open spec fn after_denials(self, denials: FamilyFlags) -> Change {
        if denials == self.published_denials {
            self.unchanged()
        } else {
            HostModel { published_denials: denials, ..self }.published(
                helper_registrations(true, self.family_probes, denials, self.next_generation()),
            )
        }
    }
}

/// What comes next for the helper.
#[derive(Debug)]
pub enum HelperStep {
    Publish(Vec<HostAction>),
    /// A helper is started at this generation.
    Start(u64),
}

fn same_flags(left: FamilyFlags, right: FamilyFlags) -> (equal: bool)
    ensures
        equal == (left == right),
{
    left.launch == right.launch && left.clipboard == right.clipboard && left.notifications
        == right.notifications
}

/// Whether `actions` and `host` are what a change gives.
pub open spec fn is_change(
    change: Change,
    host: HostModel,
    actions: Result<Vec<HostAction>, DomainError>,
) -> bool {
    &&& host == change.host
    &&& match (actions, change.actions) {
        (Ok(actions), Ok(expected)) => actions@ == expected,
        (Err(error), Err(expected)) => error == expected,
        _ => false,
    }
}

impl HostFacts {
    /// The first state of a host, and what it does first.
    pub fn activate(facts: ActivationFacts) -> (activated: (Self, Vec<HostAction>))
        ensures
            activated.0@ == (HostModel {
                guard_ready: facts.guard_ready(),
                module_ready: true,
                wake_alarm_ready: facts.wake_alarm_ready(),
                helper: facts.helper,
                family_probes: facts.probes,
                published_denials: FamilyFlags::spec_none(),
                capability_generation: 1,
                helper_generation: 1,
            }),
            activated.1@ == activation_actions(facts),
    {
        let guard_ready = facts.guards_are_clean && facts.guard_works;
        let wake_alarm_ready = facts.wake_alarm.available();
        let capability_generation = SourceGeneration::initial();
        let generation = capability_generation.current();
        let mut actions: Vec<HostAction> = Vec::new();
        actions.push(
            HostAction::Register(
                Registration {
                    key: "magisk.module",
                    state: CapabilityState::Available,
                    reason: None,
                    has_executor: false,
                    source_generation: generation,
                },
            ),
        );
        register_guard(&mut actions, guard_ready, "CLEANUP_UNVERIFIED", generation);
        actions.push(
            register(
                "magisk.wake_alarm",
                wake_alarm_ready,
                "WAKE_ALARM_UNAVAILABLE",
                wake_alarm_ready,
                generation,
            ),
        );
        register_helper(&mut actions, facts.helper, facts.probes, FamilyFlags::none(), generation);
        if !guard_ready {
            actions.push(HostAction::SetUnavailable("CLEANUP_UNVERIFIED"));
        }
        assert(actions@ =~= activation_actions(facts));
        let host = HostFacts {
            guard_ready,
            module_ready: true,
            wake_alarm_ready,
            helper: facts.helper,
            family_probes: facts.probes,
            published_denials: FamilyFlags::none(),
            capability_generation,
            helper_generation: SourceGeneration::initial(),
        };
        (host, actions)
    }

    /// Takes in that the guards of an earlier instance could not be cleaned.
    pub fn recovery_failed(&mut self) -> (actions: Result<Vec<HostAction>, DomainError>)
        ensures
            is_change(old(self)@.after_recovery_failure(), final(self)@, actions),
    {
        self.guard_ready = false;
        let generation = match self.capability_generation.advance() {
            Ok(generation) => generation,
            Err(error) => {
                return Err(error);
            },
        };
        let mut actions: Vec<HostAction> = Vec::new();
        register_guard(&mut actions, false, "CLEANUP_UNVERIFIED", generation);
        actions.push(HostAction::SetUnavailable("CLEANUP_UNVERIFIED"));
        assert(actions@ =~= guard_registrations(false, "CLEANUP_UNVERIFIED", generation).push(
            HostAction::SetUnavailable("CLEANUP_UNVERIFIED"),
        ));
        Ok(actions)
    }

    /// Takes in whether the scheduler has ended. Without it no time is kept any more, so the wake
    /// alarm is lost with it.
    pub fn refresh_scheduler(&mut self, faulted: bool) -> (actions: Result<
        Vec<HostAction>,
        DomainError,
    >)
        ensures
            is_change(old(self)@.after_scheduler(faulted), final(self)@, actions),
    {
        let mut actions: Vec<HostAction> = Vec::new();
        if faulted && self.wake_alarm_ready {
            self.wake_alarm_ready = false;
            let generation = match self.capability_generation.advance() {
                Ok(generation) => generation,
                Err(error) => {
                    return Err(error);
                },
            };
            actions.push(
                register("magisk.wake_alarm", false, "WAKE_ALARM_UNAVAILABLE", false, generation),
            );
        }
        assert(actions@ =~= old(self)@.after_scheduler(faulted).actions->Ok_0);
        Ok(actions)
    }

    /// Takes in whether a command left something behind that could not be verified clean.
    pub fn refresh_quarantine(&mut self, flagged: bool) -> (actions: Result<
        Vec<HostAction>,
        DomainError,
    >)
        ensures
            is_change(old(self)@.after_quarantine(flagged), final(self)@, actions),
    {
        let mut actions: Vec<HostAction> = Vec::new();
        if self.guard_ready && flagged {
            self.guard_ready = false;
            actions.push(HostAction::SetUnavailable("CLEANUP_UNVERIFIED"));
            let generation = match self.capability_generation.advance() {
                Ok(generation) => generation,
                Err(error) => {
                    return Err(error);
                },
            };
            register_guard(&mut actions, false, "CLEANUP_UNVERIFIED", generation);
        }
        assert(actions@ =~= old(self)@.after_quarantine(flagged).actions->Ok_0);
        Ok(actions)
    }

    /// Takes in whether the module is ready.
    pub fn refresh_module(&mut self, ready: bool) -> (actions: Result<Vec<HostAction>, DomainError>)
        ensures
            is_change(old(self)@.after_module(ready), final(self)@, actions),
    {
        let mut actions: Vec<HostAction> = Vec::new();
        if self.module_ready != ready {
            self.module_ready = ready;
            if !ready {
                self.guard_ready = false;
                actions.push(HostAction::SetUnavailable("MODULE_UNAVAILABLE"));
            }
            let generation = match self.capability_generation.advance() {
                Ok(generation) => generation,
                Err(error) => {
                    return Err(error);
                },
            };
            actions.push(register("magisk.module", ready, "MODULE_UNAVAILABLE", false, generation));
            register_guard(
                &mut actions,
                ready && self.guard_ready,
                "MODULE_OR_GUARD_UNAVAILABLE",
                generation,
            );
        }
        assert(actions@ =~= old(self)@.after_module(ready).actions->Ok_0);
        Ok(actions)
    }

    /// Takes in what is seen of the helper: a helper that lives tells its denials, one that does
    /// not is given up, and a host that could use one without having one starts it.
    pub fn refresh_helper(&mut self, alive: bool, denials: FamilyFlags, boot_completed: bool) -> (
        step: Result<HelperStep, DomainError>)
        ensures
            ({
                let before = old(self)@;
                let change = if before.helper && alive {
                    before.after_denials(denials)
                } else if before.helper {
                    before.after_helper_loss()
                } else {
                    before.unchanged()
                };
                if before.helper || !before.module_ready || !before.guard_ready || !boot_completed {
                    match step {
                        Ok(HelperStep::Publish(actions)) => is_change(
                            change,
                            final(self)@,
                            Ok(actions),
                        ),
                        Ok(HelperStep::Start(_)) => false,
                        Err(error) => is_change(change, final(self)@, Err(error)),
                    }
                } else if before.helper_generation == u64::MAX {
                    step == Err::<HelperStep, _>(exhausted()) && final(self)@ == before
                } else {
                    &&& step == Ok::<_, DomainError>(
                        HelperStep::Start((before.helper_generation + 1) as u64),
                    )
                    &&& final(self)@ == HostModel {
                        helper_generation: (before.helper_generation + 1) as u64,
                        ..before
                    }
                }
            }),
    {
        let mut actions: Vec<HostAction> = Vec::new();
        if self.helper && alive {
            if !same_flags(denials, self.published_denials) {
                self.published_denials = denials;
                let generation = match self.capability_generation.advance() {
                    Ok(generation) => generation,
                    Err(error) => {
                        return Err(error);
                    },
                };
                register_helper(&mut actions, true, self.family_probes, denials, generation);
            }
            assert(actions@ =~= old(self)@.after_denials(denials).actions->Ok_0);
            return Ok(HelperStep::Publish(actions));
        }
        if self.helper {
            self.helper = false;
            let generation = match self.capability_generation.advance() {
                Ok(generation) => generation,
                Err(error) => {
                    return Err(error);
                },
            };
            actions.push(HostAction::WithdrawHelper);
            register_helper(
                &mut actions,
                false,
                self.family_probes,
                self.published_denials,
                generation,
            );
            assert(actions@ =~= old(self)@.after_helper_loss().actions->Ok_0);
            return Ok(HelperStep::Publish(actions));
        }
        if !self.module_ready || !self.guard_ready || !boot_completed {
            assert(actions@ =~= Seq::empty());
            return Ok(HelperStep::Publish(actions));
        }
        match self.helper_generation.advance() {
            Ok(generation) => Ok(HelperStep::Start(generation)),
            Err(error) => Err(error),
        }
    }

    /// Takes in that a helper was started, and what its families were probed for.
    pub fn helper_started(&mut self, probes: FamilyFlags) -> (actions: Result<
        Vec<HostAction>,
        DomainError,
    >)
        ensures
            is_change(old(self)@.after_helper_start(probes), final(self)@, actions),
    {
        self.family_probes = probes;
        self.published_denials = FamilyFlags::none();
        self.helper = true;
        let generation = match self.capability_generation.advance() {
            Ok(generation) => generation,
            Err(error) => {
                return Err(error);
            },
        };
        let mut actions: Vec<HostAction> = Vec::new();
        register_helper(&mut actions, true, probes, FamilyFlags::none(), generation);
        assert(actions@ =~= helper_registrations(
            true,
            probes,
            FamilyFlags::spec_none(),
            generation,
        ));
        Ok(actions)
    }

    /// The generation of the helper, if there is one.
    pub open spec fn live_helper(self) -> Option<u64> {
        if self.helper {
            Some(self.helper_generation.value())
        } else {
            None
        }
    }

    /// The right to run primitives for this host as it is now.
    pub fn executor(&self, runtime_epoch: UuidV4, host_generation: u64, instance: UuidV4) -> (handle:
        Result<MagiskExecutorHandle, DomainError>)
        ensures
            ({
                let fence = MagiskExecutorFence {
                    runtime_epoch,
                    host_generation,
                    runtime_instance_id: instance,
                    source_generation: self.capability_generation.value(),
                };
                &&& handle is Ok <==> MagiskExecutorHandle::generations_fit(
                    fence,
                    self.live_helper(),
                )
                &&& match handle {
                    Ok(handle) => handle.spec_fence() == fence && handle.spec_helper_generation()
                        == self.live_helper(),
                    Err(error) => error == (DomainError {
                        code: ErrorCode::InvalidArgument,
                        reason: "invalid Magisk executor generation fence",
                    }),
                }
            }),
    {
        let helper_generation = if self.helper {
            Some(self.helper_generation.current())
        } else {
            None
        };
        MagiskExecutorHandle::new(
            MagiskExecutorFence {
                runtime_epoch,
                host_generation,
                runtime_instance_id: instance,
                source_generation: self.capability_generation.current(),
            },
            helper_generation,
        )
    }
}

/// Whatever becomes of a host, a guard that was lost does not come back within the instance.
pub proof fn a_lost_guard_stays_lost(
    host: HostModel,
    faulted: bool,
    flagged: bool,
    ready: bool,
    denials: FamilyFlags,
    probes: FamilyFlags,
)
    requires
        !host.guard_ready,
    ensures
        !host.after_recovery_failure().host.guard_ready,
        !host.after_scheduler(faulted).host.guard_ready,
        !host.after_quarantine(flagged).host.guard_ready,
        !host.after_module(ready).host.guard_ready,
        !host.after_denials(denials).host.guard_ready,
        !host.after_helper_loss().host.guard_ready,
        !host.after_helper_start(probes).host.guard_ready,
{
}

/// Whatever becomes of a host, a wake alarm that was lost does not come back within the instance.
pub proof fn a_lost_wake_alarm_stays_lost(
    host: HostModel,
    faulted: bool,
    flagged: bool,
    ready: bool,
    denials: FamilyFlags,
    probes: FamilyFlags,
)
    requires
        !host.wake_alarm_ready,
    ensures
        !host.after_recovery_failure().host.wake_alarm_ready,
        !host.after_scheduler(faulted).host.wake_alarm_ready,
        !host.after_quarantine(flagged).host.wake_alarm_ready,
        !host.after_module(ready).host.wake_alarm_ready,
        !host.after_denials(denials).host.wake_alarm_ready,
        !host.after_helper_loss().host.wake_alarm_ready,
        !host.after_helper_start(probes).host.wake_alarm_ready,
{
}

/// Whether a host has no guard without the module.
pub open spec fn guard_needs_module(host: HostModel) -> bool {
    host.guard_ready ==> host.module_ready
}

/// A host never has a guard without the module: an activated one does not, nothing that becomes of
/// it changes that, and a module that is found missing leaves no guard.
pub proof fn a_missing_module_leaves_no_guard(
    host: HostModel,
    faulted: bool,
    flagged: bool,
    ready: bool,
    denials: FamilyFlags,
    probes: FamilyFlags,
)
    ensures
        host.module_ready ==> guard_needs_module(host),
        guard_needs_module(host) ==> {
            &&& guard_needs_module(host.after_recovery_failure().host)
            &&& guard_needs_module(host.after_scheduler(faulted).host)
            &&& guard_needs_module(host.after_quarantine(flagged).host)
            &&& guard_needs_module(host.after_module(ready).host)
            &&& guard_needs_module(host.after_denials(denials).host)
            &&& guard_needs_module(host.after_helper_loss().host)
            &&& guard_needs_module(host.after_helper_start(probes).host)
            &&& !host.after_module(false).host.guard_ready
        },
{
}

/// Whether the actions of a change register anything at a generation other than `generation`.
pub open spec fn registers_at(actions: Seq<HostAction>, generation: u64) -> bool {
    forall|i: int|
        0 <= i < actions.len() ==> (#[trigger] actions[i] matches HostAction::Register(made)
            ==> made.source_generation == generation)
}

/// Whatever is registered anew is registered at a generation that nothing was registered at
/// before.
pub proof fn a_change_has_its_own_generation(
    host: HostModel,
    faulted: bool,
    flagged: bool,
    ready: bool,
    denials: FamilyFlags,
    probes: FamilyFlags,
)
    ensures
        forall|change: Change|
            #![trigger change.actions]
            (change == host.after_recovery_failure() || change == host.after_scheduler(faulted)
                || change == host.after_quarantine(flagged) || change == host.after_module(ready)
                || change == host.after_denials(denials) || change == host.after_helper_loss()
                || change == host.after_helper_start(probes)) ==> match change.actions {
                Ok(actions) => actions.len() > 0 ==> {
                    &&& registers_at(actions, change.host.capability_generation)
                    &&& change.host.capability_generation == host.capability_generation + 1
                },
                Err(error) => error == exhausted() && host.capability_generation == u64::MAX,
            },
{
}

// ---------------------------------------------------------------------------------------
// Work and admission.
// ---------------------------------------------------------------------------------------

pub open spec fn task_is_open(state: TaskState) -> bool {
    state is Created || state is Queued || state is Running
}

pub open spec fn open_tasks(states: Seq<TaskState>) -> nat
    decreases states.len(),
{
    if states.len() == 0 {
        0
    } else {
        open_tasks(states.drop_last()) + if task_is_open(states.last()) {
            1nat
        } else {
            0
        }
    }
}

pub open spec fn execution_is_open(state: AutomationExecutionState) -> bool {
    state is Queued || state is Running
}

pub open spec fn open_executions(states: Seq<AutomationExecutionState>) -> nat
    decreases states.len(),
{
    if states.len() == 0 {
        0
    } else {
        open_executions(states.drop_last()) + if execution_is_open(states.last()) {
            1nat
        } else {
            0
        }
    }
}

/// A count as it is told, which ends at the largest number.
pub open spec fn told_count(count: nat) -> u32 {
    if count > u32::MAX {
        u32::MAX
    } else {
        count as u32
    }
}

fn count_up(count: u32, more: bool) -> (next: u32)
    ensures
        next == told_count(count as nat + if more {
            1nat
        } else {
            0
        }),
{
    if more && count < u32::MAX {
        count + 1
    } else {
        count
    }
}

/// What a host still has to do: its tasks and automations that have not ended, and whether any
/// execution is reserved.
pub fn outstanding_work(
    tasks: &[TaskState],
    executions: &[AutomationExecutionState],
    reservations: usize,
) -> (work: OutstandingWork)
    ensures
        work == (OutstandingWork {
            tasks: told_count(open_tasks(tasks@)),
            automation_executions: told_count(open_executions(executions@)),
            synchronous_executions: if reservations > 0 {
                1
            } else {
                0
            },
        }),
{
    let mut open: u32 = 0;
    for i in 0..tasks.len()
        invariant
            open == told_count(open_tasks(tasks@.take(i as int))),
    {
        assert(tasks@.take(i + 1).drop_last() =~= tasks@.take(i as int));
        let more = match tasks[i] {
            TaskState::Created => true,
            TaskState::Queued => true,
            TaskState::Running => true,
            _ => false,
        };
        open = count_up(open, more);
    }
    assert(tasks@.take(tasks@.len() as int) =~= tasks@);
    let mut running: u32 = 0;
    for i in 0..executions.len()
        invariant
            running == told_count(open_executions(executions@.take(i as int))),
    {
        assert(executions@.take(i + 1).drop_last() =~= executions@.take(i as int));
        let more = match executions[i] {
            AutomationExecutionState::Queued => true,
            AutomationExecutionState::Running => true,
            _ => false,
        };
        running = count_up(running, more);
    }
    assert(executions@.take(executions@.len() as int) =~= executions@);
    OutstandingWork {
        tasks: open,
        automation_executions: running,
        synchronous_executions: if reservations > 0 {
            1
        } else {
            0
        },
    }
}

/// Whether a public request is taken in. While a transition is prepared only the status is told.
pub fn check_admission(admission_open: bool, status: bool) -> (checked: Result<(), DomainError>)
    ensures
        checked == (if admission_open || status {
            Ok(())
        } else {
            Err(
                DomainError {
                    code: ErrorCode::HostTransitionPending,
                    reason: "Runtime host transition is pending",
                },
            )
        }),
{
    if admission_open || status {
        Ok(())
    } else {
        Err(
            DomainError::new(
                ErrorCode::HostTransitionPending,
                "Runtime host transition is pending",
            ),
        )
    }
}

/// The system's time as the runtime keeps it.
pub fn system_time_ms(timestamp: i64) -> (now: Result<u64, DomainError>)
    ensures
        now == (if timestamp >= 0 {
            Ok(timestamp as u64)
        } else {
            Err(
                DomainError { code: ErrorCode::InternalError, reason: "system time is invalid" },
            )
        }),
{
    if timestamp >= 0 {
        Ok(timestamp as u64)
    } else {
        Err(DomainError::new(ErrorCode::InternalError, "system time is invalid"))
    }
}

/// Whether everything that an earlier instance left is known to be gone.
#[derive(Clone, Copy, Debug, PartialEq, Eq, Structural)]
pub enum RecoveryProof {
    Clean,
    CleanupUnverified,
}

pub fn recovery_proof(guards_are_clean: bool) -> (verdict: RecoveryProof)
    ensures
        verdict == (if guards_are_clean {
            RecoveryProof::Clean
        } else {
            RecoveryProof::CleanupUnverified
        }),
{
    if guards_are_clean {
        RecoveryProof::Clean
    } else {
        RecoveryProof::CleanupUnverified
    }
}

impl RecoveryProof {
    /// Whether the host gives up its readiness on a recovery.
    pub fn withdraws_readiness(self) -> (withdraws: bool)
        ensures
            withdraws == (self is CleanupUnverified),
    {
        match self {
            RecoveryProof::CleanupUnverified => true,
            RecoveryProof::Clean => false,
        }
    }
}

/// Whether two fences are of one runtime instance.
pub open spec fn same_instance(live: Fence, fence: Fence) -> bool {
    live.runtime_epoch@ == fence.runtime_epoch@ && live.host_generation == fence.host_generation
        && live.runtime_instance_id@ == fence.runtime_instance_id@
}

/// Refuses what is meant for another runtime instance.
pub fn check_activation(live: &Fence, fence: &Fence) -> (checked: Result<(), DomainError>)
    ensures
        checked == (if same_instance(*live, *fence) {
            Ok(())
        } else {
            Err(
                DomainError {
                    code: ErrorCode::StaleAuthority,
                    reason: "Magisk Runtime activation fence is stale",
                },
            )
        }),
{
    if !live.runtime_epoch.same_as(&fence.runtime_epoch) || live.host_generation
        != fence.host_generation || !live.runtime_instance_id.same_as(&fence.runtime_instance_id) {
        return Err(
            DomainError::new(
                ErrorCode::StaleAuthority,
                "Magisk Runtime activation fence is stale",
            ),
        );
    }
    Ok(())
}

// ---------------------------------------------------------------------------------------
// The source of network events.
// ---------------------------------------------------------------------------------------

/// Which source tells the runtime of the default network.
#[derive(Clone, Copy, Debug, PartialEq, Eq, Structural)]
pub struct NetworkEventSelection {
    /// The application is connected.
    pub connected: bool,
    /// The application's source is the one in use.
    pub companion_selected: bool,
}

impl NetworkEventSelection {
    pub fn new() -> (selection: Self)
        ensures
            !selection.connected,
            !selection.companion_selected,
    {
        NetworkEventSelection { connected: false, companion_selected: false }
    }

    /// Whether the application's source can be started.
    pub fn check_start(&self) -> (checked: Result<(), DomainError>)
        ensures
            checked == (if self.connected {
                Ok(())
            } else {
                Err(
                    DomainError {
                        code: ErrorCode::CapabilityUnavailable,
                        reason: "authenticated companion network source is unavailable",
                    },
                )
            }),
    {
        if self.connected {
            Ok(())
        } else {
            Err(
                DomainError::new(
                    ErrorCode::CapabilityUnavailable,
                    "authenticated companion network source is unavailable",
                ),
            )
        }
    }

    /// Whether the application is told to stop its source. One that is gone has stopped by itself.
    pub fn tells_stop(&self) -> (tells: bool)
        ensures
            tells == self.connected,
    {
        self.connected
    }

    /// The application connected. Whether its source has to be put in place of the other.
    pub fn use_companion(&mut self) -> (replace: bool)
        ensures
            final(self).connected,
            final(self).companion_selected,
            replace == !old(self).companion_selected,
    {
        self.connected = true;
        let replace = !self.companion_selected;
        self.companion_selected = true;
        replace
    }

    /// The application is gone.
    pub fn disconnect(&mut self)
        ensures
            !final(self).connected,
            final(self).companion_selected == old(self).companion_selected,
    {
        self.connected = false;
    }

    /// The process is unbound. Whether the daemon's own source has to be put in place of the
    /// other.
    pub fn use_native(&mut self) -> (replace: bool)
        ensures
            final(self).connected == old(self).connected,
            !final(self).companion_selected,
            replace == old(self).companion_selected,
    {
        let replace = self.companion_selected;
        self.companion_selected = false;
        replace
    }
}

// ---------------------------------------------------------------------------------------
// Starting the helper.
// ---------------------------------------------------------------------------------------

pub const HELPER_START_MS: u64 = 5_000;

pub const HELPER_RETRY_MS: u64 = 20;

/// The name of the helper's socket.
pub fn helper_socket_name(sdk_int: u32) -> (name: String)
    ensures
        name@ == "framework-api"@ + decimal(sdk_int as nat) + ".sock"@,
{
    let front = joined("framework-api", decimal_text(sdk_int as u64).as_str());
    joined(front.as_str(), ".sock")
}

/// Checks what is in the place of the helper's socket.
pub fn check_stale_socket(is_socket: bool) -> (checked: Result<(), DomainError>)
    ensures
        checked == (if is_socket {
            Ok(())
        } else {
            Err(
                DomainError {
                    code: ErrorCode::IoError,
                    reason: "helper socket path is not a socket",
                },
            )
        }),
{
    if is_socket {
        Ok(())
    } else {
        Err(DomainError::new(ErrorCode::IoError, "helper socket path is not a socket"))
    }
}

/// The arguments of the helper: its class, the descriptor of its socket, the level of the SDK and
/// its generation.
pub fn helper_arguments(sdk_int: u32, generation: u64) -> (arguments: Vec<String>)
    ensures
        texts(arguments@) == seq![
            "/system/bin"@,
            "com.droidbridge.helper.DroidBridgeFrameworkHelper"@,
            "3"@,
            decimal(sdk_int as nat),
            decimal(generation as nat),
        ],
{
    let sdk = decimal_text(sdk_int as u64);
    let current = decimal_text(generation);
    let parts = [
        "/system/bin",
        "com.droidbridge.helper.DroidBridgeFrameworkHelper",
        "3",
        sdk.as_str(),
        current.as_str(),
    ];
    assert(slices(parts@) =~= seq![
        "/system/bin"@,
        "com.droidbridge.helper.DroidBridgeFrameworkHelper"@,
        "3"@,
        decimal(sdk_int as nat),
        decimal(generation as nat),
    ]);
    owned_texts(&parts)
}

/// What came of connecting to the helper.
#[derive(Clone, Copy, Debug, PartialEq, Eq, Structural)]
pub enum ConnectAttempt {
    Connected,
    /// Nobody accepts connections yet.
    NotListening,
    Failed,
}

/// Whether the helper is connected, or is tried again after a while. A helper that ended or let its
/// time pass is given up.
pub fn connect_step(attempt: ConnectAttempt, child_ended: bool, elapsed_ms: u64) -> (connected:
    Result<bool, DomainError>)
    ensures
        connected == (match attempt {
            ConnectAttempt::Connected => Ok(true),
            ConnectAttempt::NotListening => if child_ended || elapsed_ms >= HELPER_START_MS {
                Err(
                    DomainError {
                        code: ErrorCode::IoError,
                        reason: "framework helper did not accept",
                    },
                )
            } else {
                Ok(false)
            },
            ConnectAttempt::Failed => Err(
                DomainError {
                    code: ErrorCode::IoError,
                    reason: "framework helper connection failed",
                },
            ),
        }),
{
    match attempt {
        ConnectAttempt::Connected => Ok(true),
        ConnectAttempt::NotListening => {
            if child_ended || elapsed_ms >= HELPER_START_MS {
                return Err(
                    DomainError::new(ErrorCode::IoError, "framework helper did not accept"),
                );
            }
            Ok(false)
        },
        ConnectAttempt::Failed => Err(
            DomainError::new(ErrorCode::IoError, "framework helper connection failed"),
        ),
    }
}

/// The operation that probes a family.
pub fn probe_operation(family: HelperFamily) -> (operation: &'static str)
    ensures
        operation@ == (match family {
            HelperFamily::Launch => "probe_launch"@,
            HelperFamily::Clipboard => "probe"@,
            HelperFamily::Notifications => "probe_notifications"@,
        }),
{
    match family {
        HelperFamily::Launch => "probe_launch",
        HelperFamily::Clipboard => "probe",
        HelperFamily::Notifications => "probe_notifications",
    }
}

/// When the alarm is set that a wake alarm is probed with: in a minute.
pub fn probe_deadline(now_s: i64) -> (deadline: Option<i64>)
    ensures
        deadline == (if now_s + 60 <= i64::MAX {
            Some((now_s + 60) as i64)
        } else {
            None
        }),
{
    now_s.checked_add(60)
}

// ---------------------------------------------------------------------------------------
// Laws.
// ---------------------------------------------------------------------------------------

/// Whether an action registers a capability as available, or as unavailable for a reason.
pub open spec fn says(
    action: HostAction,
    key: &'static str,
    ready: bool,
    reason: &'static str,
    generation: u64,
) -> bool {
    &&& action matches HostAction::Register(made)
    &&& made.key == key
    &&& ready ==> made.state is Available && made.reason is None
    &&& !ready ==> made.state is Unavailable && made.reason == Some(reason) && !made.has_executor
    &&& made.source_generation == generation
}

/// Whether an action registers a family of the helper: as available exactly if there is a helper,
/// the family's probe succeeded and it was not denied, and otherwise for the first of these that
/// fails.
pub open spec fn says_family(
    action: HostAction,
    key: &'static str,
    helper: bool,
    probed: bool,
    denied: bool,
    failure: &'static str,
    generation: u64,
) -> bool {
    &&& says(
        action,
        key,
        helper && probed && !denied,
        if !helper {
            "HELPER_UNAVAILABLE"
        } else if !probed {
            failure
        } else {
            "OPERATION_DENIED"
        },
        generation,
    )
    &&& action->Register_0.has_executor == (helper && probed && !denied)
}

/// Whether four actions from `at` on register the helper and its three families, each by its own
/// probe and its own denial.
pub open spec fn says_helper(
    actions: Seq<HostAction>,
    at: int,
    helper: bool,
    probes: FamilyFlags,
    denials: FamilyFlags,
    generation: u64,
) -> bool {
    &&& says(actions[at], "magisk.framework", helper, "HELPER_UNAVAILABLE", generation)
    &&& says_family(
        actions[at + 1],
        "magisk.launch",
        helper,
        probes.launch,
        denials.launch,
        "LAUNCH_PROBE_FAILED",
        generation,
    )
    &&& says_family(
        actions[at + 2],
        "magisk.clipboard",
        helper,
        probes.clipboard,
        denials.clipboard,
        "CLIPBOARD_PROBE_FAILED",
        generation,
    )
    &&& says_family(
        actions[at + 3],
        "magisk.notifications",
        helper,
        probes.notifications,
        denials.notifications,
        "NOTIFICATION_PROBE_FAILED",
        generation,
    )
}

/// A host that is activated registers its module, its root, its guard, its wake alarm and its helper
/// as it found them, all at the first generation; root and guard only if nothing of an earlier
/// instance is left and the guard works, and the alarm only if every step of its probe worked. A
/// host without its guard makes the runtime unavailable.
pub proof fn an_activated_host_says_what_it_found(
    facts: ActivationFacts,
    activated: (HostFacts, Vec<HostAction>),
)
    requires
        call_ensures(HostFacts::activate, (facts,), activated),
    ensures
        ({
            let guarded = facts.guards_are_clean && facts.guard_works;
            let timed = facts.wake_alarm.created && facts.wake_alarm.clock_read
                && facts.wake_alarm.armed && facts.wake_alarm.disarmed;
            let none = FamilyFlags { launch: false, clipboard: false, notifications: false };
            let actions = activated.1@;
            &&& actions.len() == (if guarded {
                8int
            } else {
                9
            })
            &&& says(actions[0], "magisk.module", true, "", 1)
            &&& !actions[0]->Register_0.has_executor
            &&& says(actions[1], "magisk.root", guarded, "CLEANUP_UNVERIFIED", 1)
            &&& says(actions[2], "execution.root_guard", guarded, "CLEANUP_UNVERIFIED", 1)
            &&& actions[1]->Register_0.has_executor == guarded
            &&& actions[2]->Register_0.has_executor == guarded
            &&& says(actions[3], "magisk.wake_alarm", timed, "WAKE_ALARM_UNAVAILABLE", 1)
            &&& actions[3]->Register_0.has_executor == timed
            &&& says_helper(actions, 4, facts.helper, facts.probes, none, 1)
            &&& !guarded ==> actions[8] == HostAction::SetUnavailable("CLEANUP_UNVERIFIED")
            &&& activated.0.guard_ready == guarded
            &&& activated.0.wake_alarm_ready == timed
            &&& activated.0.helper == facts.helper
            &&& activated.0.module_ready
            &&& activated.0@.capability_generation == 1 && activated.0@.helper_generation == 1
        }),
{
}

/// What a host loses is said at once, at a new generation: its guard by a failed recovery, by a
/// command that left something behind or by a missing module, and its alarm by a scheduler that
/// ended. What it had lost already is not said again.
pub proof fn a_loss_is_said_once(faulted: bool, flagged: bool)
    ensures
        forall|host: &mut HostFacts, actions: Result<Vec<HostAction>, DomainError>| #[trigger]
            call_ensures(HostFacts::recovery_failed, (host,), actions) && host@.capability_generation
                < u64::MAX ==> {
                let said = actions->Ok_0@;
                let generation = (host@.capability_generation + 1) as u64;
                &&& actions is Ok && said.len() == 3
                &&& !final(host)@.guard_ready
                &&& final(host)@.capability_generation == generation
                &&& says(said[0], "magisk.root", false, "CLEANUP_UNVERIFIED", generation)
                &&& says(said[1], "execution.root_guard", false, "CLEANUP_UNVERIFIED", generation)
                &&& said[2] == HostAction::SetUnavailable("CLEANUP_UNVERIFIED")
            },
        forall|host: &mut HostFacts, actions: Result<Vec<HostAction>, DomainError>| #[trigger]
            call_ensures(HostFacts::refresh_quarantine, (host, flagged), actions)
                && host@.capability_generation < u64::MAX ==> {
                let said = actions->Ok_0@;
                let generation = (host@.capability_generation + 1) as u64;
                &&& actions is Ok
                &&& !(host@.guard_ready && flagged) ==> said.len() == 0 && final(host)@ == host@
                &&& host@.guard_ready && flagged ==> {
                    &&& said.len() == 3
                    &&& !final(host)@.guard_ready
                    &&& said[0] == HostAction::SetUnavailable("CLEANUP_UNVERIFIED")
                    &&& says(said[1], "magisk.root", false, "CLEANUP_UNVERIFIED", generation)
                    &&& says(
                        said[2],
                        "execution.root_guard",
                        false,
                        "CLEANUP_UNVERIFIED",
                        generation,
                    )
                }
            },
        forall|host: &mut HostFacts, actions: Result<Vec<HostAction>, DomainError>| #[trigger]
            call_ensures(HostFacts::refresh_scheduler, (host, faulted), actions)
                && host@.capability_generation < u64::MAX ==> {
                let said = actions->Ok_0@;
                let generation = (host@.capability_generation + 1) as u64;
                &&& actions is Ok
                &&& !(host@.wake_alarm_ready && faulted) ==> said.len() == 0 && final(host)@ == host@
                &&& host@.wake_alarm_ready && faulted ==> {
                    &&& said.len() == 1
                    &&& !final(host)@.wake_alarm_ready
                    &&& says(
                        said[0],
                        "magisk.wake_alarm",
                        false,
                        "WAKE_ALARM_UNAVAILABLE",
                        generation,
                    )
                }
            },
{
}

/// A module that comes or goes is said once, with root and guard, which need both the module and
/// the guard; one that goes makes the runtime unavailable first.
pub proof fn a_module_comes_and_goes(ready: bool)
    ensures
        forall|host: &mut HostFacts, actions: Result<Vec<HostAction>, DomainError>| #[trigger]
            call_ensures(HostFacts::refresh_module, (host, ready), actions)
                && host@.capability_generation < u64::MAX ==> {
                let said = actions->Ok_0@;
                let generation = (host@.capability_generation + 1) as u64;
                let guarded = ready && host@.guard_ready;
                &&& actions is Ok
                &&& host@.module_ready == ready ==> said.len() == 0 && final(host)@ == host@
                &&& host@.module_ready != ready ==> {
                    let at = if ready {
                        0int
                    } else {
                        1
                    };
                    &&& said.len() == 3 + at
                    &&& !ready ==> said[0] == HostAction::SetUnavailable("MODULE_UNAVAILABLE")
                    &&& says(said[at], "magisk.module", ready, "MODULE_UNAVAILABLE", generation)
                    &&& says(
                        said[at + 1],
                        "magisk.root",
                        guarded,
                        "MODULE_OR_GUARD_UNAVAILABLE",
                        generation,
                    )
                    &&& says(
                        said[at + 2],
                        "execution.root_guard",
                        guarded,
                        "MODULE_OR_GUARD_UNAVAILABLE",
                        generation,
                    )
                    &&& final(host)@.module_ready == ready
                    &&& final(host)@.guard_ready == guarded
                }
            },
{
}

/// A helper that was started is said with what its families were probed for and with nothing denied.
/// A helper that lives is said again only if its denials changed; one that was lost is given up
/// first. A host starts one only with its module, its guard and a finished boot, at a generation of
/// its own.
pub proof fn a_helper_comes_and_goes(
    probes: FamilyFlags,
    alive: bool,
    denials: FamilyFlags,
    boot_completed: bool,
)
    ensures
        forall|host: &mut HostFacts, actions: Result<Vec<HostAction>, DomainError>| #[trigger]
            call_ensures(HostFacts::helper_started, (host, probes), actions)
                && host@.capability_generation < u64::MAX ==> {
                let none = FamilyFlags { launch: false, clipboard: false, notifications: false };
                &&& actions is Ok && actions->Ok_0@.len() == 4
                &&& says_helper(
                    actions->Ok_0@,
                    0,
                    true,
                    probes,
                    none,
                    (host@.capability_generation + 1) as u64,
                )
                &&& final(host)@.helper && final(host)@.family_probes == probes
                &&& final(host)@.published_denials == none
            },
        forall|host: &mut HostFacts, step: Result<HelperStep, DomainError>| #[trigger]
            call_ensures(HostFacts::refresh_helper, (host, alive, denials, boot_completed), step)
                && host@.capability_generation < u64::MAX && host@.helper_generation < u64::MAX
                ==> {
                let generation = (host@.capability_generation + 1) as u64;
                &&& step is Ok
                &&& step->Ok_0 is Start <==> !host@.helper && host@.module_ready
                    && host@.guard_ready && boot_completed
                &&& step->Ok_0 is Start ==> step->Ok_0->Start_0 == host@.helper_generation + 1
                    && final(host)@.helper_generation == host@.helper_generation + 1
                &&& host@.helper && alive && denials != host@.published_denials ==> says_helper(
                    step->Ok_0->Publish_0@,
                    0,
                    true,
                    host@.family_probes,
                    denials,
                    generation,
                ) && final(host)@.published_denials == denials && final(host)@.helper
                &&& host@.helper && alive && denials == host@.published_denials
                    ==> step->Ok_0->Publish_0@.len() == 0 && final(host)@ == host@
                &&& host@.helper && !alive ==> step->Ok_0->Publish_0@[0] is WithdrawHelper
                    && says_helper(
                    step->Ok_0->Publish_0@,
                    1,
                    false,
                    host@.family_probes,
                    host@.published_denials,
                    generation,
                ) && !final(host)@.helper
            },
{
}

proof fn lemma_open_tasks(states: Seq<TaskState>)
    ensures
        open_tasks(states) == states.filter(
            |state: TaskState| state is Created || state is Queued || state is Running,
        ).len(),
    decreases states.len(),
{
    reveal(Seq::filter);
    if states.len() > 0 {
        lemma_open_tasks(states.drop_last());
    }
}

proof fn lemma_open_executions(states: Seq<AutomationExecutionState>)
    ensures
        open_executions(states) == states.filter(
            |state: AutomationExecutionState| state is Queued || state is Running,
        ).len(),
    decreases states.len(),
{
    reveal(Seq::filter);
    if states.len() > 0 {
        lemma_open_executions(states.drop_last());
    }
}

/// What is outstanding are the tasks that were created, queued or run, the automations that are
/// queued or run, and whether anything is reserved.
pub proof fn outstanding_work_has_not_ended(
    tasks: &[TaskState],
    executions: &[AutomationExecutionState],
    reservations: usize,
    work: OutstandingWork,
)
    requires
        call_ensures(outstanding_work, (tasks, executions, reservations), work),
    ensures
        ({
            let open = tasks@.filter(
                |state: TaskState| state is Created || state is Queued || state is Running,
            ).len();
            let running = executions@.filter(
                |state: AutomationExecutionState| state is Queued || state is Running,
            ).len();
            &&& open <= u32::MAX ==> work.tasks == open
            &&& open > u32::MAX ==> work.tasks == u32::MAX
            &&& running <= u32::MAX ==> work.automation_executions == running
            &&& running > u32::MAX ==> work.automation_executions == u32::MAX
            &&& work.synchronous_executions == 0 <==> reservations == 0
        }),
{
    lemma_open_tasks(tasks@);
    lemma_open_executions(executions@);
}

/// What is meant for another epoch, another generation or another instance is refused.
pub proof fn an_instance_is_known_by_every_part(
    live: Fence,
    fence: Fence,
    checked: Result<(), DomainError>,
)
    requires
        call_ensures(check_activation, (&live, &fence), checked),
    ensures
        live.runtime_epoch@ != fence.runtime_epoch@ ==> checked is Err,
        live.host_generation != fence.host_generation ==> checked is Err,
        live.runtime_instance_id@ != fence.runtime_instance_id@ ==> checked is Err,
        live == fence ==> checked is Ok,
        checked matches Err(error) ==> error.code is StaleAuthority,
{
}

/// A helper is waited for up to five seconds, as long as it runs.
pub proof fn a_helper_is_waited_for(
    child_ended: bool,
    elapsed_ms: u64,
    connected: Result<bool, DomainError>,
)
    requires
        call_ensures(
            connect_step,
            (ConnectAttempt::NotListening, child_ended, elapsed_ms),
            connected,
        ),
    ensures
        connected == Ok::<_, DomainError>(false) <==> !child_ended && elapsed_ms < 5_000,
        connected is Err <==> child_ended || elapsed_ms >= 5_000,
{
}

} // verus!

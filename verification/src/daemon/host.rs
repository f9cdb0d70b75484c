//! Which process hosts the runtime, and how that changes hands.

use crate::contract::common::{optional_id, ErrorCode, RuntimeHost, UuidV4};
use crate::error::DomainError;
use crate::text::{chars_of, radix_value};
use vstd::prelude::*;

verus! {

/// The version of this package as one number.
pub const VERSION_CODE: u64 = 3_000_000;

/// Whether a part of a version is made of digits only.
pub open spec fn is_version_part(part: Seq<char>) -> bool {
    part.len() > 0 && forall|i: int| 0 <= i < part.len() ==> '0' <= #[trigger] part[i] <= '9'
}

/// The number a part of a version stands for.
pub fn parse_version_part(part: &str) -> (value: u64)
    requires
        is_version_part(part@),
        radix_value(part@, 10) <= u64::MAX,
    ensures
        value == radix_value(part@, 10),
{
    let digits = chars_of(part);
    let mut value: u64 = 0;
    for i in 0..digits.len()
        invariant
            digits@ == part@,
            is_version_part(part@),
            value == radix_value(part@.take(i as int), 10),
            radix_value(part@, 10) <= u64::MAX,
    {
        let ghost next = part@.take(i + 1);
        proof {
            assert(next.drop_last() =~= part@.take(i as int));
            assert(next.last() == part@[i as int]);
            lemma_prefix_is_smaller(part@, i + 1);
            assert('0' <= part@[i as int] <= '9');
        }
        value = value * 10 + (digits[i] as u64 - '0' as u64);
    }
    assert(part@.take(part@.len() as int) =~= part@);
    value
}

proof fn lemma_prefix_is_smaller(digits: Seq<char>, n: int)
    requires
        is_version_part(digits),
        0 <= n <= digits.len(),
    ensures
        radix_value(digits.take(n), 10) <= radix_value(digits, 10),
    decreases digits.len() - n,
{
    if n < digits.len() {
        lemma_prefix_is_smaller(digits, n + 1);
        assert(digits.take(n + 1).drop_last() =~= digits.take(n));
    } else {
        assert(digits.take(n) =~= digits);
    }
}

/// The number of a version: a million for each major, a thousand for each minor and one for each
/// patch.
pub fn version_code(major: u64, minor: u64, patch: u64) -> (code: u64)
    requires
        major * 1_000_000 + minor * 1_000 + patch <= u64::MAX,
    ensures
        code == major * 1_000_000 + minor * 1_000 + patch,
{
    major * 1_000_000 + minor * 1_000 + patch
}

/// The generation of a source of capabilities. It only grows.
#[derive(Clone, Copy, Debug, PartialEq, Eq, Structural)]
pub struct SourceGeneration(u64);

impl SourceGeneration {
    pub closed spec fn value(self) -> u64 {
        self.0
    }

    pub fn initial() -> (generation: Self)
        ensures
            generation.value() == 1,
    {
        SourceGeneration(1)
    }

    pub fn current(self) -> (current: u64)
        ensures
            current == self.value(),
    {
        self.0
    }

    /// The next generation, or nothing new once they are exhausted.
    pub fn advance(&mut self) -> (next: Result<u64, DomainError>)
        ensures
            match next {
                Ok(next) => next == old(self).value() + 1 && final(self).value() == next,
                Err(error) => {
                    &&& final(self).value() == old(self).value()
                    &&& error == DomainError {
                        code: ErrorCode::ResourceLimit,
                        reason: "capability generation exhausted",
                    }
                },
            },
            next is Ok <==> old(self).value() < u64::MAX,
    {
        if self.0 == u64::MAX {
            return Err(
                DomainError::new(ErrorCode::ResourceLimit, "capability generation exhausted"),
            );
        }
        self.0 = self.0 + 1;
        Ok(self.0)
    }
}

/// What came of trying a wake alarm.
#[derive(Clone, Copy, Debug, PartialEq, Eq, Structural)]
pub struct WakeAlarmProbe {
    pub created: bool,
    pub clock_read: bool,
    pub armed: bool,
    pub disarmed: bool,
}

impl Default for WakeAlarmProbe {
    fn default() -> (probe: Self)
        ensures
            probe == (WakeAlarmProbe {
                created: false,
                clock_read: false,
                armed: false,
                disarmed: false,
            }),
    {
        WakeAlarmProbe { created: false, clock_read: false, armed: false, disarmed: false }
    }
}

impl WakeAlarmProbe {
    /// Whether a wake alarm can be used: every step worked.
    pub fn available(self) -> (available: bool)
        ensures
            available == (self.created && self.clock_read && self.armed && self.disarmed),
    {
        self.created && self.clock_read && self.armed && self.disarmed
    }
}

/// What a host still has to do.
#[derive(Clone, Copy, Debug, PartialEq, Eq, Structural)]
pub struct OutstandingWork {
    pub tasks: u32,
    pub automation_executions: u32,
    pub synchronous_executions: u32,
}

impl OutstandingWork {
    pub open spec fn idle(self) -> bool {
        self.tasks == 0 && self.automation_executions == 0 && self.synchronous_executions == 0
    }

    pub fn is_idle(&self) -> (idle: bool)
        ensures
            idle == self.idle(),
    {
        self.tasks == 0 && self.automation_executions == 0 && self.synchronous_executions == 0
    }
}

/// A transition that was prepared.
#[derive(Debug, PartialEq, Eq)]
pub struct HostPreparation {
    pub transition_id: UuidV4,
    pub store_revision: u64,
}

/// What came of a promotion that may also wait.
#[derive(Debug, PartialEq, Eq)]
pub enum PromotionOutcome {
    Prepared(HostPreparation),
    Deferred,
}

impl PromotionOutcome {
    pub fn is_deferred(&self) -> (deferred: bool)
        ensures
            deferred == (*self is Deferred),
    {
        match self {
            PromotionOutcome::Deferred => true,
            PromotionOutcome::Prepared(_) => false,
        }
    }
}

/// The transitions of one host: at most one is prepared, and a host that was released is retired
/// for good.
#[derive(Debug)]
pub struct HostCoordinator {
    host: RuntimeHost,
    generation: u64,
    instance: UuidV4,
    preparing: Option<UuidV4>,
    retired: bool,
}

/// What a coordinator holds.
pub struct CoordinatorModel {
    pub host: RuntimeHost,
    pub generation: u64,
    pub instance: Seq<char>,
    pub preparing: Option<Seq<char>>,
    pub retired: bool,
}

impl View for HostCoordinator {
    type V = CoordinatorModel;

    closed spec fn view(&self) -> CoordinatorModel {
        CoordinatorModel {
            host: self.host,
            generation: self.generation,
            instance: self.instance@,
            preparing: optional_id(self.preparing),
            retired: self.retired,
        }
    }
}

impl CoordinatorModel {
    /// What speaks against preparing a transition to `target`.
    pub open spec fn prepare_fault(self, target: RuntimeHost, outstanding: OutstandingWork) -> Option<
        DomainError,
    > {
        if self.retired || self.preparing is Some || target == self.host {
            Some(
                DomainError {
                    code: ErrorCode::HostTransitionPending,
                    reason: "runtime transition cannot be prepared",
                },
            )
        } else if !outstanding.idle() {
            Some(
                DomainError {
                    code: ErrorCode::HostTransitionPending,
                    reason: "runtime host is not idle",
                },
            )
        } else {
            None
        }
    }

    /// Whether `transition_id` is the transition that is prepared.
    pub open spec fn prepared(self, transition_id: Seq<char>) -> bool {
        self.preparing == Some(transition_id) && !self.retired
    }

    /// Whether new work is taken in.
    pub open spec fn open(self) -> bool {
        self.preparing is None && !self.retired
    }
}

impl HostCoordinator {
    pub fn new(host: RuntimeHost, generation: u64, instance: UuidV4) -> (coordinator: Self)
        ensures
            coordinator@ == (CoordinatorModel {
                host,
                generation,
                instance: instance@,
                preparing: None,
                retired: false,
            }),
    {
        HostCoordinator { host, generation, instance, preparing: None, retired: false }
    }

    pub fn admission_open(&self) -> (open: bool)
        ensures
            open == self@.open(),
    {
        self.preparing.is_none() && !self.retired
    }

    /// Prepares a transition to another host. Only an idle host is handed over.
    pub fn prepare(
        &mut self,
        transition_id: UuidV4,
        target: RuntimeHost,
        outstanding: OutstandingWork,
        store_revision: u64,
    ) -> (prepared: Result<HostPreparation, DomainError>)
        ensures
            match old(self)@.prepare_fault(target, outstanding) {
                Some(error) => prepared == Err::<HostPreparation, _>(error) && final(self)@ == old(self)@,
                None => {
                    &&& prepared == Ok::<_, DomainError>(
                        HostPreparation { transition_id, store_revision },
                    )
                    &&& final(self)@ == CoordinatorModel {
                        preparing: Some(transition_id@),
                        ..old(self)@
                    }
                },
            },
    {
        if self.retired || self.preparing.is_some() || target == self.host {
            return Err(
                DomainError::new(
                    ErrorCode::HostTransitionPending,
                    "runtime transition cannot be prepared",
                ),
            );
        }
        if !outstanding.is_idle() {
            return Err(
                DomainError::new(ErrorCode::HostTransitionPending, "runtime host is not idle"),
            );
        }
        self.preparing = Some(transition_id.clone());
        Ok(HostPreparation { transition_id, store_revision })
    }

    /// Prepares a promotion to the module if it can be done now.
    pub fn optional_promotion(
        &mut self,
        transition_id: UuidV4,
        outstanding: OutstandingWork,
        store_revision: u64,
    ) -> (outcome: PromotionOutcome)
        ensures
            if old(self)@.prepare_fault(RuntimeHost::MagiskBackend, outstanding) is None {
                &&& outcome == PromotionOutcome::Prepared(
                    HostPreparation { transition_id, store_revision },
                )
                &&& final(self)@ == CoordinatorModel {
                    preparing: Some(transition_id@),
                    ..old(self)@
                }
            } else {
                outcome is Deferred && final(self)@ == old(self)@
            },
    {
        if !outstanding.is_idle() {
            return PromotionOutcome::Deferred;
        }
        match self.prepare(
            transition_id,
            RuntimeHost::MagiskBackend,
            outstanding,
            store_revision,
        ) {
            Ok(preparation) => PromotionOutcome::Prepared(preparation),
            Err(_) => PromotionOutcome::Deferred,
        }
    }

    fn is_prepared(&self, transition_id: &UuidV4) -> (prepared: bool)
        ensures
            prepared == self@.prepared(transition_id@),
    {
        match &self.preparing {
            Some(preparing) => preparing.same_as(transition_id) && !self.retired,
            None => false,
        }
    }

    /// Gives up the transition that is prepared.
    pub fn abort(&mut self, transition_id: &UuidV4) -> (aborted: Result<(), DomainError>)
        ensures
            if old(self)@.prepared(transition_id@) {
                aborted is Ok && final(self)@ == CoordinatorModel { preparing: None, ..old(self)@ }
            } else {
                aborted == Err::<(), _>(
                    DomainError {
                        code: ErrorCode::StaleAuthority,
                        reason: "transition id is not prepared",
                    },
                ) && final(self)@ == old(self)@
            },
    {
        if !self.is_prepared(transition_id) {
            return Err(
                DomainError::new(ErrorCode::StaleAuthority, "transition id is not prepared"),
            );
        }
        self.preparing = None;
        Ok(())
    }

    /// Retires this host for the transition that is prepared.
    pub fn release(&mut self, transition_id: &UuidV4) -> (released: Result<(), DomainError>)
        ensures
            if old(self)@.prepared(transition_id@) {
                released is Ok && final(self)@ == CoordinatorModel { retired: true, ..old(self)@ }
            } else {
                released == Err::<(), _>(
                    DomainError {
                        code: ErrorCode::StaleAuthority,
                        reason: "transition id is not prepared",
                    },
                ) && final(self)@ == old(self)@
            },
    {
        if !self.is_prepared(transition_id) {
            return Err(
                DomainError::new(ErrorCode::StaleAuthority, "transition id is not prepared"),
            );
        }
        self.retired = true;
        Ok(())
    }

    pub fn identity(&self) -> (identity: (RuntimeHost, u64, &UuidV4))
        ensures
            identity.0 == self@.host,
            identity.1 == self@.generation,
            identity.2@ == self@.instance,
    {
        (self.host, self.generation, &self.instance)
    }
}

/// A retired host takes in no work, prepares nothing and stays retired: no transition can be
/// prepared, aborted or released on it any more.
pub proof fn a_retired_host_stays_retired(
    coordinator: CoordinatorModel,
    target: RuntimeHost,
    outstanding: OutstandingWork,
    transition_id: Seq<char>,
)
    requires
        coordinator.retired,
    ensures
        !coordinator.open(),
        coordinator.prepare_fault(target, outstanding) is Some,
        !coordinator.prepared(transition_id),
{
}

/// A transition that was prepared and then given up leaves the host as it was.
pub proof fn an_aborted_transition_leaves_no_trace(
    coordinator: CoordinatorModel,
    target: RuntimeHost,
    outstanding: OutstandingWork,
    transition_id: Seq<char>,
)
    requires
        coordinator.prepare_fault(target, outstanding) is None,
    ensures
        ({
            let prepared = CoordinatorModel { preparing: Some(transition_id), ..coordinator };
            &&& prepared.prepared(transition_id)
            &&& !prepared.open()
            &&& CoordinatorModel { preparing: None, ..prepared } == coordinator
        }),
{
}

/// The directory that holds the daemon's state, as the system identifies it.
#[derive(Clone, Copy, Debug, PartialEq, Eq, Structural)]
pub struct CanonicalDirectoryIdentity {
    pub device: u64,
    pub inode: u64,
    pub uid: u32,
}

/// Whether the directory is still the one that was found first.
pub fn canonical_directory_matches(
    expected: CanonicalDirectoryIdentity,
    observed: Option<CanonicalDirectoryIdentity>,
) -> (matches: bool)
    ensures
        matches == (observed == Some(expected)),
{
    match observed {
        Some(observed) => observed.device == expected.device && observed.inode == expected.inode
            && observed.uid == expected.uid,
        None => false,
    }
}

/// What is known of the guard of an execution.
#[derive(Clone, Copy, Debug, PartialEq, Eq, Structural)]
pub enum ExecutionGuardState {
    Clean,
    Running,
    CleanupUnverified,
}

impl ExecutionGuardState {
    /// A guard that dies while it runs leaves its cleanup in doubt.
    pub fn observe_guard_death(&mut self)
        ensures
            *final(self) == (if *old(self) is Running {
                ExecutionGuardState::CleanupUnverified
            } else {
                *old(self)
            }),
    {
        if *self == ExecutionGuardState::Running {
            *self = ExecutionGuardState::CleanupUnverified;
        }
    }

    /// Nothing survives a reboot.
    pub fn observe_reboot(&mut self)
        ensures
            *final(self) is Clean,
    {
        *self = ExecutionGuardState::Clean;
    }

    pub fn blocks_admission(self) -> (blocks: bool)
        ensures
            blocks == (self is CleanupUnverified),
    {
        match self {
            ExecutionGuardState::CleanupUnverified => true,
            _ => false,
        }
    }
}

// ---------------------------------------------------------------------------------------
// Laws.
// ---------------------------------------------------------------------------------------

/// A transition is prepared only by a host that is not retired, has no other one prepared, goes to
/// another host and has nothing left to do; from then on it takes in no work. What is refused
/// changes nothing.
pub proof fn only_an_idle_host_prepares(
    transition_id: UuidV4,
    target: RuntimeHost,
    outstanding: OutstandingWork,
    store_revision: u64,
)
    ensures
        forall|host: &mut HostCoordinator, prepared: Result<HostPreparation, DomainError>|
            #[trigger]
            call_ensures(
                HostCoordinator::prepare,
                (host, transition_id, target, outstanding, store_revision),
                prepared,
            ) ==> {
                &&& prepared is Ok <==> {
                    &&& !host@.retired
                    &&& host@.preparing is None
                    &&& target != host@.host
                    &&& outstanding.tasks == 0
                    &&& outstanding.automation_executions == 0
                    &&& outstanding.synchronous_executions == 0
                }
                &&& prepared matches Ok(preparation) ==> preparation.transition_id == transition_id
                    && preparation.store_revision == store_revision && final(host)@.preparing
                    == Some(transition_id@) && final(host)@.retired == host@.retired
                        && final(host)@.host == host@.host
                        && final(host)@.generation == host@.generation
                &&& prepared is Err ==> final(host)@ == host@
            },
{
}

/// Only the transition that is prepared can be given up or released; giving it up opens the host
/// again, and releasing it retires the host.
pub proof fn only_the_prepared_transition_ends(transition_id: UuidV4)
    ensures
        forall|host: &mut HostCoordinator, aborted: Result<(), DomainError>| #[trigger]
            call_ensures(HostCoordinator::abort, (host, &transition_id), aborted) ==> {
                &&& aborted is Ok <==> host@.preparing == Some(transition_id@) && !host@.retired
                &&& aborted is Ok ==> final(host)@.preparing is None && !final(host)@.retired
                &&& aborted is Err ==> final(host)@ == host@
            },
        forall|host: &mut HostCoordinator, released: Result<(), DomainError>| #[trigger]
            call_ensures(HostCoordinator::release, (host, &transition_id), released) ==> {
                &&& released is Ok <==> host@.preparing == Some(transition_id@) && !host@.retired
                &&& released is Ok ==> final(host)@.retired
                &&& released is Err ==> final(host)@ == host@
            },
        forall|host: HostCoordinator, open: bool| #[trigger]
            call_ensures(HostCoordinator::admission_open, (&host,), open) ==> (open
                <==> host@.preparing is None && !host@.retired),
{
}

/// A promotion is to the module, and waits where it cannot be prepared.
pub proof fn a_promotion_is_prepared_or_waits(
    transition_id: UuidV4,
    outstanding: OutstandingWork,
    store_revision: u64,
)
    ensures
        forall|host: &mut HostCoordinator, outcome: PromotionOutcome| #[trigger]
            call_ensures(
                HostCoordinator::optional_promotion,
                (host, transition_id, outstanding, store_revision),
                outcome,
            ) ==> {
                &&& outcome is Prepared <==> {
                    &&& !host@.retired && host@.preparing is None
                    &&& host@.host !is MagiskBackend
                    &&& outstanding.tasks == 0 && outstanding.automation_executions == 0
                        && outstanding.synchronous_executions == 0
                }
                &&& outcome is Deferred ==> final(host)@ == host@
                &&& outcome matches PromotionOutcome::Prepared(preparation)
                    ==> final(host)@.preparing == Some(preparation.transition_id@)
                    && preparation.transition_id
                    == transition_id
            },
{
}

} // verus!

//! The connection to the application and the executions that are forwarded over it.
//!
//! One channel owns one connection together with its correlation state, so that another connection
//! never takes over the identifiers of an earlier one.

use crate::contract::common::{
    clone_optional_id, code_of_token, error_code, is_uuid_v4, ErrorCode, UuidV4,
};
use crate::daemon::guard::new_uuid;
use crate::daemon::ledger::{outcome_of, ConnectionLedger, LedgerModel, MAX_OUTSTANDING};
use crate::daemon::protocol::{
    MessageKind, Operation, WireEnvelope, MAX_FILE_DESCRIPTORS, PROTOCOL_VERSION,
};
use crate::error::DomainError;
use crate::json::{
    an_object_holds_its_members, entry, json_text, lemma_member_at, member, member_models, object,
    render, text_value, value_of_bytes, Json, JsonModel, Member,
};
use crate::text::texts;
use std::collections::VecDeque;
use vstd::prelude::*;
use vstd::utf8::encode_utf8;

verus! {

pub const COMPANION_PRIMITIVE_TIMEOUT_MS: u64 = 15_000;

/// One result of an execution, and its descriptors by their roles.
#[derive(Debug)]
pub struct CompanionPrimitiveResult<D> {
    pub payload: Json,
    pub descriptors: Vec<(String, D)>,
}

/// Something for the owner of a connection: a request of the peer, or the response to one of the
/// daemon's own requests.
#[derive(Debug)]
pub enum CompanionEvent<D> {
    Request { envelope: WireEnvelope, descriptors: Vec<D> },
    Response(WireEnvelope),
}

/// The owner that requests are made for.
#[derive(Debug)]
pub struct CompanionFence {
    pub runtime_epoch: UuidV4,
    pub host_generation: u64,
    pub runtime_instance_id: Option<UuidV4>,
}

/// Who waits for a response.
#[derive(Clone, Copy, Debug, PartialEq, Eq, Structural)]
pub enum Waiter {
    Owner,
    Execution,
}

/// An open request and who waits for its response.
#[derive(Debug)]
pub struct Waiting {
    pub message_id: UuidV4,
    pub waiter: Waiter,
}

/// The state of one connection.
pub struct CompanionChannel<D> {
    pub ledger: ConnectionLedger,
    pub fence: Option<CompanionFence>,
    pub waiters: Vec<Waiting>,
    pub events: VecDeque<CompanionEvent<D>>,
    pub failure: Option<ErrorCode>,
}

/// Who waits, by message identifier.
pub open spec fn waiting_ids(waiters: Seq<Waiting>) -> Seq<(Seq<char>, Waiter)> {
    Seq::new(waiters.len(), |i: int| (waiters[i].message_id@, waiters[i].waiter))
}

/// Where the request with an identifier waits, or the length.
pub open spec fn waiting_position(waiting: Seq<(Seq<char>, Waiter)>, id: Seq<char>) -> int
    decreases waiting.len(),
{
    if waiting.len() == 0 {
        0
    } else if waiting[0].0 == id {
        0
    } else {
        1 + waiting_position(waiting.skip(1), id)
    }
}

/// The executions among those that wait.
pub open spec fn waiting_executions(waiting: Seq<(Seq<char>, Waiter)>) -> Seq<Seq<char>>
    decreases waiting.len(),
{
    if waiting.len() == 0 {
        Seq::empty()
    } else if waiting.last().1 is Execution {
        waiting_executions(waiting.drop_last()).push(waiting.last().0)
    } else {
        waiting_executions(waiting.drop_last())
    }
}

pub open spec fn lost_error(code: ErrorCode) -> DomainError {
    DomainError { code, reason: "companion execution channel is closed" }
}

/// The failure of whatever waits on a connection that is gone.
pub fn lost(code: ErrorCode) -> (error: DomainError)
    ensures
        error == lost_error(code),
{
    DomainError::new(code, "companion execution channel is closed")
}

pub open spec fn no_instance_error() -> DomainError {
    DomainError {
        code: ErrorCode::CapabilityUnavailable,
        reason: "companion Runtime instance is unavailable",
    }
}

fn no_instance() -> (error: DomainError)
    ensures
        error == no_instance_error(),
{
    DomainError::new(
        ErrorCode::CapabilityUnavailable,
        "companion Runtime instance is unavailable",
    )
}

fn protocol_error(reason: &'static str) -> (error: DomainError)
    ensures
        error == (DomainError { code: ErrorCode::ProtocolIncompatible, reason }),
{
    DomainError::new(ErrorCode::ProtocolIncompatible, reason)
}

/// The payload of an execution.
pub open spec fn execute_model(
    primitive: Seq<char>,
    payload: JsonModel,
    execution_id: Seq<char>,
) -> JsonModel {
    JsonModel::Object(
        seq![
            ("execution_id"@, JsonModel::Text(execution_id)),
            ("payload"@, payload),
            ("primitive"@, JsonModel::Text(primitive)),
        ],
    )
}

/// The payload of a cancellation.
pub open spec fn cancel_model(primitive: Seq<char>, execution_id: Seq<char>) -> JsonModel {
    JsonModel::Object(
        seq![
            ("execution_id"@, JsonModel::Text(execution_id)),
            ("primitive"@, JsonModel::Text(primitive)),
        ],
    )
}

/// Whether an envelope is a request of the owner `fence` for an operation.
pub open spec fn is_request_for(
    envelope: WireEnvelope,
    message_id: Seq<char>,
    fence: CompanionFence,
    operation: Operation,
    payload: JsonModel,
    roles: Seq<Seq<char>>,
) -> bool {
    &&& envelope.protocol_version == PROTOCOL_VERSION
    &&& envelope.kind is Request
    &&& envelope.message_id@ == message_id
    &&& envelope.reply_to is None
    &&& envelope.runtime_epoch == fence.runtime_epoch
    &&& envelope.host_generation == fence.host_generation
    &&& envelope.runtime_instance_id == fence.runtime_instance_id
    &&& envelope.operation == operation
    &&& envelope.payload@ == payload
    &&& texts(envelope.fd_roles@) == roles
}

/// What came of a message.
#[derive(Debug)]
pub enum Dispatched<D> {
    /// The owner has an event to look at.
    Queued,
    /// The execution of a request has its result.
    Settled { message_id: UuidV4, result: Result<CompanionPrimitiveResult<D>, DomainError> },
}

impl<D> CompanionChannel<D> {
    pub open spec fn wf(self) -> bool {
        self.ledger@.wf()
    }

    /// Who waits, by message identifier.
    pub open spec fn waiting(self) -> Seq<(Seq<char>, Waiter)> {
        waiting_ids(self.waiters@)
    }

    pub fn new() -> (channel: Self)
        ensures
            channel.wf(),
            channel.ledger@ == LedgerModel::fresh(),
            channel.fence is None,
            channel.waiting() == Seq::<(Seq<char>, Waiter)>::empty(),
            channel.events@.len() == 0,
            channel.failure is None,
    {
        let channel = CompanionChannel {
            ledger: ConnectionLedger::new(),
            fence: None,
            waiters: Vec::new(),
            events: VecDeque::new(),
            failure: None,
        };
        assert(channel.waiting() =~= Seq::<(Seq<char>, Waiter)>::empty());
        channel
    }

    /// Sets the owner that requests are made for.
    pub fn set_fence(
        &mut self,
        runtime_epoch: UuidV4,
        host_generation: u64,
        runtime_instance_id: Option<UuidV4>,
    )
        ensures
            *final(self) == (CompanionChannel {
                fence: Some(
                    CompanionFence { runtime_epoch, host_generation, runtime_instance_id },
                ),
                ..*old(self)
            }),
    {
        self.fence = Some(CompanionFence { runtime_epoch, host_generation, runtime_instance_id });
    }

    /// The oldest event, or nothing yet.
    pub fn next_event(&mut self) -> (event: Result<Option<CompanionEvent<D>>, DomainError>)
        ensures
            final(self).ledger == old(self).ledger,
            final(self).fence == old(self).fence,
            final(self).waiters == old(self).waiters,
            final(self).failure == old(self).failure,
            match old(self).failure {
                Some(code) => event == Err::<Option<CompanionEvent<D>>, _>(lost_error(code))
                    && final(self).events@ == old(self).events@,
                None => if old(self).events@.len() == 0 {
                    event == Ok::<Option<CompanionEvent<D>>, DomainError>(None) && final(self).events@ == old(self).events@
                } else {
                    event == Ok::<_, DomainError>(Some(old(self).events@[0])) && final(self).events@
                        == old(self).events@.skip(1)
                },
            },
    {
        if let Some(code) = self.failure {
            return Err(lost(code));
        }
        let event = self.events.pop_front();
        assert(event is Some ==> self.events@ =~= old(self).events@.skip(1));
        Ok(event)
    }

    /// Opens a request of the daemon's own, whose response is an event.
    pub fn request_control(&mut self, envelope: &WireEnvelope) -> (requested: Result<
        (),
        DomainError,
    >)
        requires
            old(self).wf(),
        ensures
            final(self).wf(),
            final(self).fence == old(self).fence,
            final(self).events == old(self).events,
            final(self).failure == old(self).failure,
            match old(self).failure {
                Some(code) => requested == Err::<(), _>(lost_error(code)),
                None => requested == outcome_of(old(self).ledger@.control_fault(*envelope)),
            },
            if requested is Ok {
                &&& final(self).ledger@ == old(self).ledger@.reserved(*envelope, false)
                &&& final(self).waiting() == old(self).waiting().push(
                    (envelope.message_id@, Waiter::Owner),
                )
            } else {
                final(self).ledger@ == old(self).ledger@ && final(self).waiting() == old(self).waiting()
            },
    {
        if let Some(code) = self.failure {
            return Err(lost(code));
        }
        match self.ledger.reserve_control_envelope(envelope) {
            Ok(()) => {},
            Err(error) => {
                return Err(error);
            },
        }
        self.add_waiter(envelope, Waiter::Owner);
        Ok(())
    }

    fn add_waiter(&mut self, envelope: &WireEnvelope, waiter: Waiter)
        ensures
            final(self).ledger == old(self).ledger,
            final(self).fence == old(self).fence,
            final(self).events == old(self).events,
            final(self).failure == old(self).failure,
            final(self).waiting() == old(self).waiting().push((envelope.message_id@, waiter)),
    {
        let ghost before = self.waiters@;
        self.waiters.push(Waiting { message_id: envelope.message_id.clone(), waiter });
        assert(waiting_ids(self.waiters@) =~= waiting_ids(before).push(
            (envelope.message_id@, waiter),
        ));
    }

    /// Notes a response to a request of the peer.
    pub fn respond(&mut self, envelope: &WireEnvelope) -> (responded: Result<(), DomainError>)
        requires
            old(self).wf(),
        ensures
            final(self).wf(),
            final(self).fence == old(self).fence,
            final(self).events == old(self).events,
            final(self).failure == old(self).failure,
            final(self).waiters == old(self).waiters,
            match old(self).failure {
                Some(code) => responded == Err::<(), _>(lost_error(code)),
                None => responded == outcome_of(
                    old(self).ledger@.message_fault(
                        old(self).ledger@.outgoing,
                        envelope.message_id@,
                    ),
                ),
            },
            final(self).ledger@ == (if responded is Ok {
                old(self).ledger@.sent(envelope.message_id@)
            } else {
                old(self).ledger@
            }),
    {
        if let Some(code) = self.failure {
            return Err(lost(code));
        }
        self.ledger.observe_outgoing(envelope.message_id.clone())
    }

    /// What speaks against a request for the owner, before one is made: the connection is gone, or
    /// no instance is known.
    pub open spec fn owner_fault(self) -> Option<DomainError> {
        match self.failure {
            Some(code) => Some(lost_error(code)),
            None => if self.fence is Some && self.fence->0.runtime_instance_id is Some {
                None
            } else {
                Some(no_instance_error())
            },
        }
    }

    fn owner_request(
        &self,
        message_id: UuidV4,
        operation: Operation,
        payload: Json,
        roles: Vec<String>,
    ) -> (envelope: Result<WireEnvelope, DomainError>)
        ensures
            match envelope {
                Ok(envelope) => {
                    &&& self.owner_fault() is None
                    &&& is_request_for(
                        envelope,
                        message_id@,
                        self.fence->0,
                        operation,
                        payload@,
                        texts(roles@),
                    )
                },
                Err(error) => self.owner_fault() == Some(error),
            },
    {
        if let Some(code) = self.failure {
            return Err(lost(code));
        }
        match &self.fence {
            Some(fence) => {
                if fence.runtime_instance_id.is_none() {
                    return Err(no_instance());
                }
                Ok(
                    WireEnvelope::request(
                        message_id,
                        fence.runtime_epoch.clone(),
                        fence.host_generation,
                        clone_optional_id(&fence.runtime_instance_id),
                        operation,
                        payload,
                        roles,
                    ),
                )
            },
            None => Err(no_instance()),
        }
    }

    /// Opens an execution under an identifier, for the current owner.
    pub fn submit_as(
        &mut self,
        message_id: UuidV4,
        primitive: &str,
        payload: Json,
        execution_id: &UuidV4,
        roles: Vec<String>,
    ) -> (submitted: Result<WireEnvelope, DomainError>)
        requires
            old(self).wf(),
        ensures
            final(self).wf(),
            final(self).fence == old(self).fence,
            final(self).events == old(self).events,
            final(self).failure == old(self).failure,
            match submitted {
                Ok(envelope) => {
                    &&& roles@.len() <= MAX_FILE_DESCRIPTORS
                    &&& old(self).owner_fault() is None
                    &&& is_request_for(
                        envelope,
                        message_id@,
                        old(self).fence->0,
                        Operation::CompanionExecute,
                        execute_model(primitive@, payload@, execution_id@),
                        texts(roles@),
                    )
                    &&& old(self).ledger@.business_fault(envelope) is None
                    &&& final(self).ledger@ == old(self).ledger@.reserved(envelope, true)
                    &&& final(self).waiting() == old(self).waiting().push(
                        (message_id@, Waiter::Execution),
                    )
                },
                Err(error) => {
                    &&& final(self).ledger@ == old(self).ledger@
                    &&& final(self).waiting() == old(self).waiting()
                    &&& if roles@.len() > MAX_FILE_DESCRIPTORS {
                        error == DomainError {
                            code: ErrorCode::ResourceLimit,
                            reason: "companion execution exceeds the descriptor bound",
                        }
                    } else if old(self).owner_fault() is Some {
                        error == old(self).owner_fault()->0
                    } else {
                        forall|envelope: WireEnvelope|
                            #[trigger] is_request_for(
                                envelope,
                                message_id@,
                                old(self).fence->0,
                                Operation::CompanionExecute,
                                execute_model(primitive@, payload@, execution_id@),
                                texts(roles@),
                            ) ==> old(self).ledger@.business_fault(envelope) == Some(error)
                    }
                },
            },
    {
        if roles.len() > MAX_FILE_DESCRIPTORS {
            return Err(
                DomainError::new(
                    ErrorCode::ResourceLimit,
                    "companion execution exceeds the descriptor bound",
                ),
            );
        }
        let ghost expected = execute_model(primitive@, payload@, execution_id@);
        let mut members: Vec<Member> = Vec::new();
        members.push(entry("execution_id", text_value(execution_id.as_str())));
        members.push(entry("payload", payload));
        members.push(entry("primitive", text_value(primitive)));
        assert(member_models(members@) =~= expected->Object_0);
        let envelope = match self.owner_request(
            message_id,
            Operation::CompanionExecute,
            object(members),
            roles,
        ) {
            Ok(envelope) => envelope,
            Err(error) => {
                return Err(error);
            },
        };
        match self.ledger.reserve_business_envelope(&envelope) {
            Ok(()) => {},
            Err(error) => {
                return Err(error);
            },
        }
        self.add_waiter(&envelope, Waiter::Execution);
        Ok(envelope)
    }

    /// Opens an execution under a fresh identifier. Which one that is, is left to chance; the
    /// request fails as one under some identifier fails.
    pub fn submit(
        &mut self,
        primitive: &str,
        payload: Json,
        execution_id: &UuidV4,
        roles: Vec<String>,
    ) -> (submitted: Result<WireEnvelope, DomainError>)
        requires
            old(self).wf(),
        ensures
            final(self).wf(),
            final(self).fence == old(self).fence,
            final(self).events == old(self).events,
            final(self).failure == old(self).failure,
            match submitted {
                Ok(envelope) => {
                    &&& roles@.len() <= MAX_FILE_DESCRIPTORS
                    &&& old(self).owner_fault() is None
                    &&& is_request_for(
                        envelope,
                        envelope.message_id@,
                        old(self).fence->0,
                        Operation::CompanionExecute,
                        execute_model(primitive@, payload@, execution_id@),
                        texts(roles@),
                    )
                    &&& is_uuid_v4(envelope.message_id@)
                    &&& old(self).ledger@.business_fault(envelope) is None
                    &&& final(self).ledger@ == old(self).ledger@.reserved(envelope, true)
                    &&& final(self).waiting() == old(self).waiting().push(
                        (envelope.message_id@, Waiter::Execution),
                    )
                },
                Err(error) => {
                    &&& final(self).ledger@ == old(self).ledger@
                    &&& final(self).waiting() == old(self).waiting()
                    &&& if roles@.len() > MAX_FILE_DESCRIPTORS {
                        error == DomainError {
                            code: ErrorCode::ResourceLimit,
                            reason: "companion execution exceeds the descriptor bound",
                        }
                    } else if old(self).owner_fault() is Some {
                        error == old(self).owner_fault()->0
                    } else {
                        exists|message_id: Seq<char>|
                            #[trigger] is_uuid_v4(message_id) && (forall|envelope: WireEnvelope|
                                #[trigger] is_request_for(
                                    envelope,
                                    message_id,
                                    old(self).fence->0,
                                    Operation::CompanionExecute,
                                    execute_model(primitive@, payload@, execution_id@),
                                    texts(roles@),
                                ) ==> old(self).ledger@.business_fault(envelope) == Some(error))
                    }
                },
            },
    {
        let message_id = match new_uuid() {
            Ok(message_id) => message_id,
            Err(error) => {
                return Err(error);
            },
        };
        self.submit_as(message_id, primitive, payload, execution_id, roles)
    }

    /// Opens a cancellation under an identifier, for the current owner. Its response is an event.
    pub fn cancel_as(&mut self, message_id: UuidV4, primitive: &str, execution_id: &UuidV4) -> (
        cancelled: Result<WireEnvelope, DomainError>)
        requires
            old(self).wf(),
        ensures
            final(self).wf(),
            final(self).fence == old(self).fence,
            final(self).events == old(self).events,
            final(self).failure == old(self).failure,
            match cancelled {
                Ok(envelope) => {
                    &&& old(self).owner_fault() is None
                    &&& is_request_for(
                        envelope,
                        message_id@,
                        old(self).fence->0,
                        Operation::CompanionCancel,
                        cancel_model(primitive@, execution_id@),
                        Seq::empty(),
                    )
                    &&& old(self).ledger@.control_fault(envelope) is None
                    &&& final(self).ledger@ == old(self).ledger@.reserved(envelope, false)
                    &&& final(self).waiting() == old(self).waiting().push(
                        (message_id@, Waiter::Owner),
                    )
                },
                Err(error) => {
                    &&& final(self).ledger@ == old(self).ledger@
                    &&& final(self).waiting() == old(self).waiting()
                    &&& if old(self).owner_fault() is Some {
                        error == old(self).owner_fault()->0
                    } else {
                        forall|envelope: WireEnvelope|
                            #[trigger] is_request_for(
                                envelope,
                                message_id@,
                                old(self).fence->0,
                                Operation::CompanionCancel,
                                cancel_model(primitive@, execution_id@),
                                Seq::empty(),
                            ) ==> old(self).ledger@.control_fault(envelope) == Some(error)
                    }
                },
            },
    {
        let ghost expected = cancel_model(primitive@, execution_id@);
        let mut members: Vec<Member> = Vec::new();
        members.push(entry("execution_id", text_value(execution_id.as_str())));
        members.push(entry("primitive", text_value(primitive)));
        assert(member_models(members@) =~= expected->Object_0);
        let roles: Vec<String> = Vec::new();
        assert(texts(roles@) =~= Seq::empty());
        let envelope = match self.owner_request(
            message_id,
            Operation::CompanionCancel,
            object(members),
            roles,
        ) {
            Ok(envelope) => envelope,
            Err(error) => {
                return Err(error);
            },
        };
        match self.ledger.reserve_control_envelope(&envelope) {
            Ok(()) => {},
            Err(error) => {
                return Err(error);
            },
        }
        self.add_waiter(&envelope, Waiter::Owner);
        Ok(envelope)
    }

    /// Opens a cancellation under a fresh identifier. Which one that is, is left to chance; the
    /// request fails as one under some identifier fails.
    pub fn cancel_execution(&mut self, primitive: &str, execution_id: &UuidV4) -> (cancelled: Result<
        WireEnvelope,
        DomainError,
    >)
        requires
            old(self).wf(),
        ensures
            final(self).wf(),
            final(self).fence == old(self).fence,
            final(self).events == old(self).events,
            final(self).failure == old(self).failure,
            old(self).owner_fault() is Some ==> cancelled == Err::<WireEnvelope, _>(
                old(self).owner_fault()->0,
            ),
            match cancelled {
                Ok(envelope) => {
                    &&& is_request_for(
                        envelope,
                        envelope.message_id@,
                        old(self).fence->0,
                        Operation::CompanionCancel,
                        cancel_model(primitive@, execution_id@),
                        Seq::empty(),
                    )
                    &&& is_uuid_v4(envelope.message_id@)
                    &&& old(self).ledger@.control_fault(envelope) is None
                    &&& final(self).ledger@ == old(self).ledger@.reserved(envelope, false)
                    &&& final(self).waiting() == old(self).waiting().push(
                        (envelope.message_id@, Waiter::Owner),
                    )
                },
                Err(error) => {
                    &&& final(self).ledger@ == old(self).ledger@
                    &&& final(self).waiting() == old(self).waiting()
                    &&& old(self).owner_fault() is None ==> exists|message_id: Seq<char>|
                        #[trigger] is_uuid_v4(message_id) && (forall|envelope: WireEnvelope|
                            #[trigger] is_request_for(
                                envelope,
                                message_id,
                                old(self).fence->0,
                                Operation::CompanionCancel,
                                cancel_model(primitive@, execution_id@),
                                Seq::empty(),
                            ) ==> old(self).ledger@.control_fault(envelope) == Some(error))
                },
            },
    {
        let message_id = match new_uuid() {
            Ok(message_id) => message_id,
            Err(error) => {
                return Err(error);
            },
        };
        self.cancel_as(message_id, primitive, execution_id)
    }

    fn find_waiter(&self, id: &UuidV4) -> (position: usize)
        ensures
            position == waiting_position(self.waiting(), id@),
            position <= self.waiters@.len(),
    {
        let ghost models = self.waiting();
        let mut position: usize = 0;
        assert(models.skip(0) =~= models);
        while position < self.waiters.len() && !self.waiters[position].message_id.same_as(id)
            invariant
                position <= self.waiters@.len(),
                models == self.waiting(),
                waiting_position(models, id@) == position + waiting_position(
                    models.skip(position as int),
                    id@,
                ),
            decreases self.waiters@.len() - position,
        {
            let ghost rest = models.skip(position as int);
            assert(rest[0] == models[position as int]);
            assert(rest.skip(1) =~= models.skip(position + 1));
            position += 1;
        }
        proof {
            let rest = models.skip(position as int);
            if position < self.waiters@.len() {
                assert(rest[0] == models[position as int]);
            }
        }
        position
    }

    /// What speaks against a message that came.
    pub open spec fn dispatch_fault(self, envelope: WireEnvelope, descriptors: int) -> Option<
        DomainError,
    > {
        let seen = self.ledger@.received(envelope.message_id@);
        if self.ledger@.message_fault(self.ledger@.incoming, envelope.message_id@) is Some {
            self.ledger@.message_fault(self.ledger@.incoming, envelope.message_id@)
        } else {
            match envelope.kind {
                MessageKind::Request => if self.events@.len() >= MAX_OUTSTANDING {
                    Some(
                        DomainError {
                            code: ErrorCode::ResourceLimit,
                            reason: "inbound companion requests exceed the outstanding bound",
                        },
                    )
                } else {
                    None
                },
                MessageKind::Cancel => Some(
                    DomainError {
                        code: ErrorCode::ProtocolIncompatible,
                        reason: "unexpected cancellation direction",
                    },
                ),
                MessageKind::Response => if seen.completion_fault(envelope) is Some {
                    seen.completion_fault(envelope)
                } else {
                    let at = waiting_position(self.waiting(), envelope.reply_to->0@);
                    if at >= self.waiting().len() {
                        Some(
                            DomainError {
                                code: ErrorCode::ProtocolIncompatible,
                                reason: "unknown companion reply correlation",
                            },
                        )
                    } else if self.waiting()[at].1 is Owner && descriptors > 0 {
                        Some(
                            DomainError {
                                code: ErrorCode::ProtocolIncompatible,
                                reason: "daemon control response contains descriptors",
                            },
                        )
                    } else {
                        None
                    }
                },
            }
        }
    }

    /// The ledger after a message that is refused: the message counts as received unless that is
    /// what speaks against it, and a response closes its request even if it is refused after that.
    pub open spec fn refused_ledger(self, envelope: WireEnvelope) -> LedgerModel {
        let seen = self.ledger@.received(envelope.message_id@);
        if self.ledger@.message_fault(self.ledger@.incoming, envelope.message_id@) is Some {
            self.ledger@
        } else if envelope.kind is Response && seen.completion_fault(envelope) is None {
            seen.completed(envelope.reply_to->0@)
        } else {
            seen
        }
    }

    /// What still waits after a message that is refused: a response that closes its request takes
    /// whatever waits for it along.
    pub open spec fn refused_waiting(self, envelope: WireEnvelope) -> Seq<(Seq<char>, Waiter)> {
        let seen = self.ledger@.received(envelope.message_id@);
        let at = waiting_position(self.waiting(), envelope.reply_to->0@);
        if self.ledger@.message_fault(self.ledger@.incoming, envelope.message_id@) is None
            && envelope.kind is Response && seen.completion_fault(envelope) is None && at
            < self.waiting().len() {
            self.waiting().remove(at)
        } else {
            self.waiting()
        }
    }

    /// Takes in a message that came. A request, and the response to one of the daemon's own, become
    /// events; the response to an execution settles it.
    pub fn dispatch(
        &mut self,
        envelope: WireEnvelope,
        descriptors: Vec<D>,
    ) -> (dispatched: Result<Dispatched<D>, DomainError>)
        requires
            old(self).wf(),
        ensures
            final(self).wf(),
            final(self).fence == old(self).fence,
            final(self).failure == old(self).failure,
            match old(self).dispatch_fault(envelope, descriptors@.len() as int) {
                Some(error) => {
                    &&& dispatched == Err::<Dispatched<D>, _>(error)
                    &&& final(self).events@ == old(self).events@
                    &&& final(self).ledger@ == old(self).refused_ledger(envelope)
                    &&& final(self).waiting() == old(self).refused_waiting(envelope)
                },
                None => dispatched is Ok,
            },
            dispatched matches Ok(dispatched) ==> match envelope.kind {
                MessageKind::Request => {
                    &&& dispatched is Queued
                    &&& final(self).events@ == old(self).events@.push(
                        CompanionEvent::Request { envelope, descriptors },
                    )
                    &&& final(self).waiting() == old(self).waiting()
                    &&& final(self).ledger@ == old(self).ledger@.received(envelope.message_id@)
                },
                _ => {
                    let at = waiting_position(old(self).waiting(), envelope.reply_to->0@);
                    &&& final(self).waiting() == old(self).waiting().remove(at)
                    &&& final(self).ledger@ == old(self).ledger@.received(
                        envelope.message_id@,
                    ).completed(envelope.reply_to->0@)
                    &&& match old(self).waiting()[at].1 {
                        Waiter::Owner => {
                            &&& dispatched is Queued
                            &&& final(self).events@ == old(self).events@.push(
                                CompanionEvent::Response(envelope),
                            )
                        },
                        Waiter::Execution => {
                            &&& final(self).events@ == old(self).events@
                            &&& dispatched matches Dispatched::Settled { message_id, result }
                            &&& message_id@ == envelope.reply_to->0@
                            &&& is_result(
                                result,
                                envelope.payload@,
                                texts(envelope.fd_roles@),
                                descriptors@,
                            )
                        },
                    }
                },
            },
    {
        match self.ledger.observe_incoming(envelope.message_id.clone()) {
            Ok(()) => {},
            Err(error) => {
                return Err(error);
            },
        }
        match envelope.kind {
            MessageKind::Request => {
                if self.events.len() >= MAX_OUTSTANDING {
                    return Err(
                        DomainError::new(
                            ErrorCode::ResourceLimit,
                            "inbound companion requests exceed the outstanding bound",
                        ),
                    );
                }
                self.events.push_back(CompanionEvent::Request { envelope, descriptors });
                Ok(Dispatched::Queued)
            },
            MessageKind::Cancel => Err(protocol_error("unexpected cancellation direction")),
            MessageKind::Response => {
                match self.ledger.complete_envelope(&envelope) {
                    Ok(()) => {},
                    Err(error) => {
                        return Err(error);
                    },
                }
                let reply_to = match &envelope.reply_to {
                    Some(reply_to) => reply_to.clone(),
                    None => {
                        return Err(protocol_error("companion reply lacks correlation"));
                    },
                };
                let at: usize = self.find_waiter(&reply_to);
                if at >= self.waiters.len() {
                    return Err(protocol_error("unknown companion reply correlation"));
                }
                let ghost before = self.waiters@;
                let waiting = self.waiters.remove(at);
                assert(waiting_ids(self.waiters@) =~= waiting_ids(before).remove(at as int));
                match waiting.waiter {
                    Waiter::Owner => {
                        if descriptors.len() > 0 {
                            return Err(
                                protocol_error("daemon control response contains descriptors"),
                            );
                        }
                        self.events.push_back(CompanionEvent::Response(envelope));
                        Ok(Dispatched::Queued)
                    },
                    Waiter::Execution => {
                        let result = result_for(
                            &envelope.payload,
                            envelope.fd_roles.as_slice(),
                            descriptors,
                        );
                        Ok(Dispatched::Settled { message_id: reply_to, result })
                    },
                }
            },
        }
    }

    /// Ends the connection, once: no event is left, nothing waits, and the executions that did are
    /// handed back to be told.
    pub fn lose(&mut self, code: ErrorCode) -> (executions: Vec<UuidV4>)
        ensures
            final(self).ledger == old(self).ledger,
            final(self).fence == old(self).fence,
            if old(self).failure is Some {
                &&& executions@.len() == 0
                &&& final(self).failure == old(self).failure
                &&& final(self).waiters == old(self).waiters
                &&& final(self).events == old(self).events
            } else {
                &&& final(self).failure == Some(code)
                &&& final(self).events@.len() == 0
                &&& final(self).waiting() == Seq::<(Seq<char>, Waiter)>::empty()
                &&& id_texts(executions@) == waiting_executions(old(self).waiting())
            },
    {
        let mut executions: Vec<UuidV4> = Vec::new();
        if self.failure.is_some() {
            return executions;
        }
        self.failure = Some(code);
        self.events = VecDeque::new();
        let ghost models = self.waiting();
        assert(id_texts(executions@) =~= Seq::empty());
        for i in 0..self.waiters.len()
            invariant
                models == self.waiting(),
                id_texts(executions@) == waiting_executions(models.take(i as int)),
        {
            proof {
                assert(models.take(i + 1).drop_last() =~= models.take(i as int));
                assert(models.take(i + 1).last() == models[i as int]);
            }
            if self.waiters[i].waiter == Waiter::Execution {
                let ghost before = executions@;
                executions.push(self.waiters[i].message_id.clone());
                assert(id_texts(executions@) =~= id_texts(before).push(models[i as int].0));
            }
        }
        assert(models.take(models.len() as int) =~= models);
        self.waiters = Vec::new();
        assert(self.waiting() =~= Seq::<(Seq<char>, Waiter)>::empty());
        executions
    }
}

/// The texts of identifiers.
pub open spec fn id_texts(ids: Seq<UuidV4>) -> Seq<Seq<char>> {
    Seq::new(ids.len(), |i: int| ids[i]@)
}

/// The role of each descriptor, as far as there are both.
pub open spec fn labelled<D>(
    roles: Seq<Seq<char>>,
    descriptors: Seq<D>,
    result: Seq<(String, D)>,
) -> bool {
    let count = if roles.len() <= descriptors.len() {
        roles.len()
    } else {
        descriptors.len()
    };
    &&& result.len() == count
    &&& forall|i: int|
        0 <= i < count ==> (#[trigger] result[i]).0@ == roles[i] && result[i].1 == descriptors[i]
}

/// The code that a value stands for: its token, or an object of that one member, which is null.
pub open spec fn code_of_value(value: JsonModel) -> Option<ErrorCode> {
    match value {
        JsonModel::Text(token) => code_of_token(token),
        JsonModel::Object(members) => if members.len() == 1 && members[0].1 is Null {
            code_of_token(members[0].0)
        } else {
            None
        },
        _ => None,
    }
}

/// The code that an error carries.
pub open spec fn code_of_error(error: JsonModel) -> Option<ErrorCode> {
    match error.get("code"@) {
        Some(value) => code_of_value(value),
        None => None,
    }
}

fn carried_code(error: &Json) -> (code: Option<ErrorCode>)
    ensures
        code == code_of_error(error@),
{
    match error.get("code") {
        Some(Json::Text(token)) => error_code(token.as_str()),
        Some(Json::Object(members)) => {
            proof {
                an_object_holds_its_members(*members);
            }
            if members.len() == 1 {
                let sole = &members[0];
                assert(member_models(members@)[0] == sole@);
                match &sole.value {
                    Json::Null => error_code(sole.key.as_str()),
                    _ => None,
                }
            } else {
                None
            }
        },
        _ => None,
    }
}

/// Whether `result` is what a payload stands for: its error, which comes without descriptors, or
/// its own payload.
pub open spec fn is_result<D>(
    result: Result<CompanionPrimitiveResult<D>, DomainError>,
    payload: JsonModel,
    roles: Seq<Seq<char>>,
    descriptors: Seq<D>,
) -> bool {
    let unlabelled = roles.len() == 0 || descriptors.len() == 0;
    if payload.get("error"@) is Some {
        result == Err::<CompanionPrimitiveResult<D>, _>(
            match code_of_error(payload.get("error"@)->0) {
                None => DomainError {
                    code: ErrorCode::ProtocolIncompatible,
                    reason: "companion failure carries no error code",
                },
                Some(code) => if unlabelled {
                    DomainError { code, reason: "companion execution reported a typed failure" }
                } else {
                    DomainError {
                        code: ErrorCode::ProtocolIncompatible,
                        reason: "companion failure result carries descriptors",
                    }
                },
            },
        )
    } else {
        match (payload.get("payload"@), result) {
            (Some(expected), Ok(result)) => result.payload@ == expected && labelled(
                roles,
                descriptors,
                result.descriptors@,
            ),
            (None, Err(error)) => error == DomainError {
                code: ErrorCode::ProtocolIncompatible,
                reason: "companion result carries no payload",
            },
            _ => false,
        }
    }
}

/// Reads the result of an execution off its payload.
pub fn result_for<D>(
    payload: &Json,
    roles: &[String],
    descriptors: Vec<D>,
) -> (result: Result<CompanionPrimitiveResult<D>, DomainError>)
    ensures
        is_result(result, payload@, texts(roles@), descriptors@),
{
    let some_labelled = roles.len() > 0 && descriptors.len() > 0;
    if let Some(error) = payload.get("error") {
        let code = match carried_code(error) {
            Some(code) => code,
            None => {
                return Err(protocol_error("companion failure carries no error code"));
            },
        };
        if some_labelled {
            return Err(protocol_error("companion failure result carries descriptors"));
        }
        return Err(DomainError::new(code, "companion execution reported a typed failure"));
    }
    let payload = match payload.get("payload") {
        Some(payload) => payload.clone(),
        None => {
            return Err(protocol_error("companion result carries no payload"));
        },
    };
    let ghost all = descriptors@;
    let mut labelled_descriptors: Vec<(String, D)> = Vec::new();
    let mut rest = descriptors;
    let count: usize = if roles.len() <= rest.len() {
        roles.len()
    } else {
        rest.len()
    };
    for i in 0..count
        invariant
            count <= roles@.len(),
            count <= all.len(),
            rest@ == all.skip(i as int),
            labelled_descriptors@.len() == i,
            forall|k: int|
                0 <= k < i ==> (#[trigger] labelled_descriptors@[k]).0@ == roles@[k]@
                    && labelled_descriptors@[k].1 == all[k],
    {
        let descriptor = rest.remove(0);
        assert(rest@ =~= all.skip(i + 1));
        labelled_descriptors.push((roles[i].as_str().to_owned(), descriptor));
    }
    Ok(CompanionPrimitiveResult { payload, descriptors: labelled_descriptors })
}

/// The payload of an execution, read from bytes.
pub fn primitive_payload(payload: &[u8]) -> (value: Result<Json, DomainError>)
    ensures
        match (value, value_of_bytes(payload@)) {
            (Ok(value), Some(expected)) => value@ == expected,
            (Err(error), None) => error == (DomainError {
                code: ErrorCode::InvalidArgument,
                reason: "companion primitive payload is invalid",
            }),
            _ => false,
        },
{
    match Json::parse(payload) {
        Some(value) => Ok(value),
        None => Err(DomainError::invalid("companion primitive payload is invalid")),
    }
}

/// The bytes of a result.
pub fn result_bytes(payload: &Json) -> (bytes: Vec<u8>)
    ensures
        bytes@ == encode_utf8(render(payload@)),
{
    let text = json_text(payload);
    vstd::slice::slice_to_vec(text.as_str().as_bytes())
}

/// Refuses an execution while no application is connected.
pub fn require_channel(connected: bool) -> (checked: Result<(), DomainError>)
    ensures
        checked == (if connected {
            Ok(())
        } else {
            Err(
                DomainError {
                    code: ErrorCode::CapabilityUnavailable,
                    reason: "the authenticated companion execution surface is unavailable",
                },
            )
        }),
{
    if !connected {
        return Err(
            DomainError::new(
                ErrorCode::CapabilityUnavailable,
                "the authenticated companion execution surface is unavailable",
            ),
        );
    }
    Ok(())
}

/// The outcome of an execution that was waited for.
pub fn execution_outcome<D>(
    settled: Option<Result<CompanionPrimitiveResult<D>, DomainError>>,
) -> (outcome: Result<CompanionPrimitiveResult<D>, DomainError>)
    ensures
        outcome == (match settled {
            Some(result) => result,
            None => Err(
                DomainError {
                    code: ErrorCode::Timeout,
                    reason: "companion execution did not settle within its deadline",
                },
            ),
        }),
{
    match settled {
        Some(result) => result,
        None => Err(
            DomainError::new(
                ErrorCode::Timeout,
                "companion execution did not settle within its deadline",
            ),
        ),
    }
}

/// An execution that is open when the connection is lost is told exactly once: it is among those
/// that are handed back, and losing the connection again hands back none.
pub proof fn an_open_execution_is_told_of_a_loss(waiting: Seq<(Seq<char>, Waiter)>, i: int)
    requires
        0 <= i < waiting.len(),
        waiting[i].1 is Execution,
    ensures
        waiting_executions(waiting).contains(waiting[i].0),
        waiting_executions(Seq::<(Seq<char>, Waiter)>::empty()).len() == 0,
    decreases waiting.len(),
{
    let earlier = waiting.drop_last();
    let told = waiting_executions(waiting);
    if i < waiting.len() - 1 {
        an_open_execution_is_told_of_a_loss(earlier, i);
        let before = waiting_executions(earlier);
        let k = choose|k: int| 0 <= k < before.len() && before[k] == waiting[i].0;
        assert(told[k] == before[k]);
    } else {
        assert(told.last() == waiting[i].0);
        assert(told[told.len() - 1] == waiting[i].0);
    }
}

proof fn lemma_execute_members(primitive: Seq<char>, payload: JsonModel, execution_id: Seq<char>)
    ensures
        ({
            let model = execute_model(primitive, payload, execution_id);
            &&& model.get("execution_id"@) == Some(JsonModel::Text(execution_id))
            &&& model.get("payload"@) == Some(payload)
            &&& model.get("primitive"@) == Some(JsonModel::Text(primitive))
        }),
{
    let members = execute_model(primitive, payload, execution_id)->Object_0;
    assert("execution_id"@ != "payload"@) by {
        reveal_strlit("execution_id");
        reveal_strlit("payload");
        assert("execution_id"@.len() != "payload"@.len());
    }
    assert("execution_id"@ != "primitive"@) by {
        reveal_strlit("execution_id");
        reveal_strlit("primitive");
        assert("execution_id"@.len() != "primitive"@.len());
    }
    assert("payload"@ != "primitive"@) by {
        reveal_strlit("payload");
        reveal_strlit("primitive");
        assert("payload"@.len() != "primitive"@.len());
    }
    lemma_member_at(members, 0);
    lemma_member_at(members, 1);
    lemma_member_at(members, 2);
}

proof fn lemma_cancel_members(primitive: Seq<char>, execution_id: Seq<char>)
    ensures
        ({
            let model = cancel_model(primitive, execution_id);
            &&& model.get("execution_id"@) == Some(JsonModel::Text(execution_id))
            &&& model.get("primitive"@) == Some(JsonModel::Text(primitive))
        }),
{
    let members = cancel_model(primitive, execution_id)->Object_0;
    assert("execution_id"@ != "primitive"@) by {
        reveal_strlit("execution_id");
        reveal_strlit("primitive");
        assert("execution_id"@.len() != "primitive"@.len());
    }
    lemma_member_at(members, 0);
    lemma_member_at(members, 1);
}

/// An execution is sent as it was asked: under its identifier, for the current owner, with its own
/// primitive, payload and roles.
pub proof fn an_execution_is_sent_as_it_was_asked(
    envelope: WireEnvelope,
    message_id: Seq<char>,
    fence: CompanionFence,
    primitive: Seq<char>,
    payload: JsonModel,
    execution_id: Seq<char>,
    roles: Seq<Seq<char>>,
)
    requires
        is_request_for(
            envelope,
            message_id,
            fence,
            Operation::CompanionExecute,
            execute_model(primitive, payload, execution_id),
            roles,
        ),
    ensures
        envelope.kind is Request && envelope.protocol_version == 1 && envelope.reply_to is None,
        envelope.operation is CompanionExecute,
        envelope.message_id@ == message_id,
        envelope.runtime_epoch == fence.runtime_epoch,
        envelope.host_generation == fence.host_generation,
        envelope.runtime_instance_id == fence.runtime_instance_id,
        envelope.payload@.get("execution_id"@) == Some(JsonModel::Text(execution_id)),
        envelope.payload@.get("payload"@) == Some(payload),
        envelope.payload@.get("primitive"@) == Some(JsonModel::Text(primitive)),
        envelope.fd_roles@.len() == roles.len(),
        forall|i: int| 0 <= i < roles.len() ==> #[trigger] roles[i] == envelope.fd_roles@[i]@,
{
    lemma_execute_members(primitive, payload, execution_id);
    let names = texts(envelope.fd_roles@);
    assert(names.len() == envelope.fd_roles@.len());
    assert forall|i: int| 0 <= i < roles.len() implies #[trigger] roles[i]
        == envelope.fd_roles@[i]@ by {
        assert(names[i] == envelope.fd_roles@[i]@);
    }
}

/// A cancellation names the execution and its primitive, and carries neither a payload of its own
/// nor a descriptor.
pub proof fn a_cancellation_names_its_execution(
    envelope: WireEnvelope,
    message_id: Seq<char>,
    fence: CompanionFence,
    primitive: Seq<char>,
    execution_id: Seq<char>,
)
    requires
        is_request_for(
            envelope,
            message_id,
            fence,
            Operation::CompanionCancel,
            cancel_model(primitive, execution_id),
            Seq::empty(),
        ),
    ensures
        envelope.kind is Request && envelope.reply_to is None,
        envelope.operation is CompanionCancel,
        envelope.message_id@ == message_id,
        envelope.runtime_instance_id == fence.runtime_instance_id,
        envelope.payload@.get("execution_id"@) == Some(JsonModel::Text(execution_id)),
        envelope.payload@.get("primitive"@) == Some(JsonModel::Text(primitive)),
        envelope.payload@.get("payload"@) is None,
        envelope.fd_roles@.len() == 0,
{
    lemma_cancel_members(primitive, execution_id);
    reveal_strlit("payload");
    reveal_strlit("primitive");
    reveal_strlit("execution_id");
    assert("payload"@.len() != "primitive"@.len());
    assert("payload"@.len() != "execution_id"@.len());
    reveal_with_fuel(member, 4);
    assert(texts(envelope.fd_roles@).len() == envelope.fd_roles@.len());
}

/// Nothing is asked of the application on a connection that is gone, or for an owner without an
/// instance; a connection that is gone is told by how it was lost.
pub proof fn a_request_needs_an_owner<D>(channel: CompanionChannel<D>)
    ensures
        channel.owner_fault() is None <==> channel.failure is None && channel.fence is Some
            && channel.fence->0.runtime_instance_id is Some,
        channel.failure matches Some(code) ==> channel.owner_fault()->0.code == code,
        channel.failure is None && channel.owner_fault() is Some ==> channel.owner_fault()->0.code
            is CapabilityUnavailable,
{
}

proof fn lemma_waiting_position(waiting: Seq<(Seq<char>, Waiter)>, id: Seq<char>)
    ensures
        0 <= waiting_position(waiting, id) <= waiting.len(),
        waiting_position(waiting, id) < waiting.len() ==> waiting[waiting_position(
            waiting,
            id,
        )].0 == id,
        forall|j: int| 0 <= j < waiting_position(waiting, id) ==> (#[trigger] waiting[j]).0 != id,
    decreases waiting.len(),
{
    if waiting.len() > 0 && waiting[0].0 != id {
        let rest = waiting.skip(1);
        lemma_waiting_position(rest, id);
        assert forall|j: int| 0 <= j < waiting_position(waiting, id) implies (
        #[trigger] waiting[j]).0 != id by {
            if j > 0 {
                assert(rest[j - 1] == waiting[j]);
            }
        }
    }
}

/// A message goes to whom it is for: a request becomes an event, and so does the response to a
/// request of the daemon's own; the response to an execution settles that execution, by its
/// identifier, and is no event. What was waited for is waited for no more, and nothing else
/// changes among those that wait.
pub proof fn a_message_goes_to_whom_it_is_for<D>(envelope: WireEnvelope, descriptors: Vec<D>)
    ensures
        forall|channel: &mut CompanionChannel<D>, dispatched: Result<Dispatched<D>, DomainError>|
            #[trigger]
            call_ensures(
                CompanionChannel::<D>::dispatch,
                (channel, envelope, descriptors),
                dispatched,
            ) ==> {
                &&& envelope.kind is Cancel ==> dispatched is Err
                &&& envelope.kind is Request && channel.events@.len() >= 64 ==> dispatched is Err
                &&& channel.ledger@.seen.contains(envelope.message_id@) ==> dispatched is Err
                &&& dispatched is Err ==> final(channel).events@ == channel.events@
                &&& dispatched is Ok && envelope.kind is Request ==> dispatched->Ok_0 is Queued
                    && final(channel).events@ == channel.events@.push(
                    CompanionEvent::Request { envelope, descriptors },
                ) && final(channel).waiting() == channel.waiting()
                &&& dispatched is Ok && envelope.kind is Response ==> exists|at: int|
                    {
                        &&& 0 <= at < channel.waiting().len()
                        &&& (#[trigger] channel.waiting()[at]).0 == envelope.reply_to->0@
                        &&& final(channel).waiting() == channel.waiting().remove(at)
                        &&& channel.waiting()[at].1 is Owner ==> descriptors@.len() == 0
                            && dispatched->Ok_0 is Queued && final(channel).events@
                            == channel.events@.push(CompanionEvent::Response(envelope))
                        &&& channel.waiting()[at].1 is Execution ==> dispatched->Ok_0 is Settled
                            && dispatched->Ok_0->message_id@ == envelope.reply_to->0@ && final(channel).events@ == channel.events@
                    }
            },
{
    assert forall|channel: &mut CompanionChannel<D>, dispatched: Result<Dispatched<D>, DomainError>|
        #[trigger]
        call_ensures(
            CompanionChannel::<D>::dispatch,
            (channel, envelope, descriptors),
            dispatched,
        ) && dispatched is Ok && envelope.kind is Response implies exists|at: int|
        {
            &&& 0 <= at < channel.waiting().len()
            &&& (#[trigger] channel.waiting()[at]).0 == envelope.reply_to->0@
            &&& final(channel).waiting() == channel.waiting().remove(at)
            &&& channel.waiting()[at].1 is Owner ==> descriptors@.len() == 0 && dispatched->Ok_0 is
                Queued && final(channel).events@ == channel.events@.push(
                CompanionEvent::Response(envelope),
            )
            &&& channel.waiting()[at].1 is Execution ==> dispatched->Ok_0 is Settled
                && dispatched->Ok_0->message_id@ == envelope.reply_to->0@ && final(channel).events@
                == channel.events@
        } by {
        let at = waiting_position(channel.waiting(), envelope.reply_to->0@);
        lemma_waiting_position(channel.waiting(), envelope.reply_to->0@);
        assert(channel.waiting()[at].0 == envelope.reply_to->0@);
    }
}

/// The result of an execution is the payload that came back, with each descriptor under its own
/// role; an error that came back is that error, and never a result.
pub proof fn a_result_is_what_came_back<D>(
    payload: Json,
    roles: &[String],
    descriptors: Vec<D>,
    result: Result<CompanionPrimitiveResult<D>, DomainError>,
)
    requires
        call_ensures(result_for::<D>, (&payload, roles, descriptors), result),
    ensures
        result is Ok <==> payload@.get("error"@) is None && payload@.get("payload"@) is Some,
        result matches Ok(told) ==> {
            &&& payload@.get("payload"@) == Some(told.payload@)
            &&& told.descriptors@.len() <= roles@.len()
            &&& told.descriptors@.len() <= descriptors@.len()
            &&& told.descriptors@.len() == roles@.len() || told.descriptors@.len()
                == descriptors@.len()
            &&& forall|i: int|
                0 <= i < told.descriptors@.len() ==> (#[trigger] told.descriptors@[i]).0@
                    == roles@[i]@ && told.descriptors@[i].1 == descriptors@[i]
        },
        payload@.get("error"@) matches Some(error) ==> {
            &&& result is Err
            &&& (roles@.len() == 0 || descriptors@.len() == 0) && error.get("code"@) is Some
                && error.get("code"@)->0 is Text && code_of_token(error.get("code"@)->0->Text_0)
                is Some ==> result->Err_0.code == code_of_token(
                error.get("code"@)->0->Text_0,
            )->0
        },
{
    let names = texts(roles@);
    assert(names.len() == roles@.len());
    if let Ok(told) = result {
        assert forall|i: int| 0 <= i < told.descriptors@.len() implies (
        #[trigger] told.descriptors@[i]).0@ == roles@[i]@ && told.descriptors@[i].1
            == descriptors@[i] by {
            assert(names[i] == roles@[i]@);
        }
    }
}

/// When a connection is lost, exactly the executions that wait are handed back, in their order.
pub proof fn a_loss_is_told_to_every_execution(waiting: Seq<(Seq<char>, Waiter)>)
    ensures
        waiting_executions(waiting) == waiting.filter(
            |entry: (Seq<char>, Waiter)| entry.1 is Execution,
        ).map_values(|entry: (Seq<char>, Waiter)| entry.0),
    decreases waiting.len(),
{
    reveal(Seq::filter);
    let chosen = waiting.filter(|entry: (Seq<char>, Waiter)| entry.1 is Execution);
    let picked = chosen.map_values(|entry: (Seq<char>, Waiter)| entry.0);
    if waiting.len() > 0 {
        let earlier = waiting.drop_last();
        a_loss_is_told_to_every_execution(earlier);
        let before = earlier.filter(|entry: (Seq<char>, Waiter)| entry.1 is Execution);
        if waiting.last().1 is Execution {
            assert(chosen =~= before.push(waiting.last()));
            assert(picked =~= before.map_values(|entry: (Seq<char>, Waiter)| entry.0).push(
                waiting.last().0,
            ));
        } else {
            assert(chosen =~= before);
        }
    } else {
        assert(picked =~= Seq::empty());
    }
}

/// A connection is lost once: it then says how, has no event left and lets nobody wait, and exactly
/// the executions that waited are handed back, in their order.
pub proof fn a_connection_is_lost_once<D>(code: ErrorCode)
    ensures
        forall|channel: &mut CompanionChannel<D>, executions: Vec<UuidV4>| #[trigger]
            call_ensures(CompanionChannel::<D>::lose, (channel, code), executions) ==> {
                let waited = channel.waiting().filter(
                    |entry: (Seq<char>, Waiter)| entry.1 is Execution,
                );
                &&& channel.failure is Some ==> executions@.len() == 0 && final(channel).failure
                    == channel.failure
                &&& channel.failure is None ==> {
                    &&& final(channel).failure == Some(code)
                    &&& final(channel).events@.len() == 0
                    &&& final(channel).waiting().len() == 0
                    &&& executions@.len() == waited.len()
                    &&& forall|i: int|
                        0 <= i < executions@.len() ==> (#[trigger] executions@[i])@ == waited[i].0
                }
            },
{
    assert forall|channel: &mut CompanionChannel<D>, executions: Vec<UuidV4>| #[trigger]
        call_ensures(CompanionChannel::<D>::lose, (channel, code), executions)
            && channel.failure is None implies {
        let waited = channel.waiting().filter(
            |entry: (Seq<char>, Waiter)| entry.1 is Execution,
        );
        &&& executions@.len() == waited.len()
        &&& forall|i: int|
            0 <= i < executions@.len() ==> (#[trigger] executions@[i])@ == waited[i].0
    } by {
        let waited = channel.waiting().filter(
            |entry: (Seq<char>, Waiter)| entry.1 is Execution,
        );
        a_loss_is_told_to_every_execution(channel.waiting());
        let names = id_texts(executions@);
        assert(names.len() == executions@.len());
        assert forall|i: int| 0 <= i < executions@.len() implies (#[trigger] executions@[i])@
            == waited[i].0 by {
            assert(names[i] == executions@[i]@);
        }
    }
}

} // verus!

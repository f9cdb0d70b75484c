//! The correlation state of one connection: which requests are still open, which of them take a
//! business slot, and which message identifiers were already used.

use crate::contract::common::{
    clone_optional_id, optional_id, same_optional_id, ErrorCode, UuidV4,
};
use crate::daemon::protocol::{MessageKind, Operation, WireEnvelope};
use crate::error::DomainError;
use vstd::hash_map::StringHashMap;
use vstd::hash_set::StringHashSet;
use vstd::prelude::*;

verus! {

pub const MAX_OUTSTANDING: usize = 64;

pub const RESERVED_CONTROL: usize = 4;

pub const MAX_BUSINESS_OUTSTANDING: usize = 60;

pub const MAX_CONNECTION_MESSAGES: usize = 65_536;

/// What is kept of a request until its response comes.
pub struct PendingRequest {
    pub operation: Operation,
    pub runtime_epoch: UuidV4,
    pub host_generation: u64,
    pub runtime_instance_id: Option<UuidV4>,
}

/// What is kept of `request`.
pub open spec fn pending_of(request: WireEnvelope) -> PendingRequest {
    PendingRequest {
        operation: request.operation,
        runtime_epoch: request.runtime_epoch,
        host_generation: request.host_generation,
        runtime_instance_id: request.runtime_instance_id,
    }
}

pub struct ConnectionLedger {
    outstanding: StringHashMap<PendingRequest>,
    business: StringHashSet,
    seen: StringHashSet,
    incoming_messages: usize,
    outgoing_messages: usize,
}

/// What a ledger holds, by message identifier.
pub struct LedgerModel {
    pub outstanding: Map<Seq<char>, PendingRequest>,
    pub business: Set<Seq<char>>,
    pub seen: Set<Seq<char>>,
    pub incoming: nat,
    pub outgoing: nat,
}

impl View for ConnectionLedger {
    type V = LedgerModel;

    closed spec fn view(&self) -> LedgerModel {
        LedgerModel {
            outstanding: self.outstanding@,
            business: self.business@,
            seen: self.seen@,
            incoming: self.incoming_messages as nat,
            outgoing: self.outgoing_messages as nat,
        }
    }
}

impl LedgerModel {
    /// Every business slot belongs to an open request, every open request has been seen, and no
    /// bound is exceeded.
    pub open spec fn wf(self) -> bool {
        &&& self.outstanding.dom().finite()
        &&& self.business.finite()
        &&& self.seen.finite()
        &&& self.business.subset_of(self.outstanding.dom())
        &&& self.outstanding.dom().subset_of(self.seen)
        &&& self.outstanding.dom().len() <= MAX_OUTSTANDING
        &&& self.business.len() <= MAX_BUSINESS_OUTSTANDING
        &&& self.incoming <= MAX_CONNECTION_MESSAGES
        &&& self.outgoing <= MAX_CONNECTION_MESSAGES
        &&& self.seen.len() == self.incoming + self.outgoing
    }

    /// The ledger of a fresh connection.
    pub open spec fn fresh() -> LedgerModel {
        LedgerModel {
            outstanding: Map::empty(),
            business: Set::empty(),
            seen: Set::empty(),
            incoming: 0,
            outgoing: 0,
        }
    }

    /// The ledger once a message that came in was noted.
    pub open spec fn received(self, id: Seq<char>) -> LedgerModel {
        LedgerModel { seen: self.seen.insert(id), incoming: self.incoming + 1, ..self }
    }

    /// The ledger once a message that goes out was noted.
    pub open spec fn sent(self, id: Seq<char>) -> LedgerModel {
        LedgerModel { seen: self.seen.insert(id), outgoing: self.outgoing + 1, ..self }
    }

    /// The ledger once a request was opened.
    pub open spec fn reserved(self, request: WireEnvelope, business: bool) -> LedgerModel {
        LedgerModel {
            outstanding: self.outstanding.insert(request.message_id@, pending_of(request)),
            business: if business {
                self.business.insert(request.message_id@)
            } else {
                self.business
            },
            ..self.sent(request.message_id@)
        }
    }

    /// The ledger once a request was closed.
    pub open spec fn completed(self, id: Seq<char>) -> LedgerModel {
        LedgerModel {
            outstanding: self.outstanding.remove(id),
            business: self.business.remove(id),
            ..self
        }
    }

    /// What speaks against noting a message of which `count` of its direction were noted.
    pub open spec fn message_fault(self, count: nat, id: Seq<char>) -> Option<DomainError> {
        if count >= MAX_CONNECTION_MESSAGES {
            Some(
                DomainError {
                    code: ErrorCode::ResourceLimit,
                    reason: "daemon connection message history is exhausted",
                },
            )
        } else if self.seen.contains(id) {
            Some(
                DomainError {
                    code: ErrorCode::ProtocolIncompatible,
                    reason: "duplicate daemon message id",
                },
            )
        } else {
            None
        }
    }

    /// What speaks against opening a request, apart from the slots.
    pub open spec fn request_fault(self, request: WireEnvelope) -> Option<DomainError> {
        if !(request.kind is Request) {
            Some(
                DomainError {
                    code: ErrorCode::ProtocolIncompatible,
                    reason: "only requests can reserve daemon correlation state",
                },
            )
        } else {
            self.message_fault(self.outgoing, request.message_id@)
        }
    }

    /// What speaks against opening a request that takes a business slot.
    pub open spec fn business_fault(self, request: WireEnvelope) -> Option<DomainError> {
        if self.business.len() >= MAX_BUSINESS_OUTSTANDING || self.outstanding.dom().len()
            >= MAX_OUTSTANDING {
            Some(
                DomainError {
                    code: ErrorCode::ResourceLimit,
                    reason: "daemon business request slots are full",
                },
            )
        } else {
            self.request_fault(request)
        }
    }

    /// What speaks against opening a control request.
    pub open spec fn control_fault(self, request: WireEnvelope) -> Option<DomainError> {
        if self.outstanding.dom().len() >= MAX_OUTSTANDING {
            Some(
                DomainError {
                    code: ErrorCode::ResourceLimit,
                    reason: "daemon request slots are full",
                },
            )
        } else {
            self.request_fault(request)
        }
    }

    /// What speaks against closing a request with `response`.
    pub open spec fn completion_fault(self, response: WireEnvelope) -> Option<DomainError> {
        if !(response.kind is Response) {
            Some(
                DomainError {
                    code: ErrorCode::ProtocolIncompatible,
                    reason: "only responses can complete daemon correlation state",
                },
            )
        } else if response.reply_to is None {
            Some(
                DomainError {
                    code: ErrorCode::ProtocolIncompatible,
                    reason: "response lacks reply id",
                },
            )
        } else if !self.outstanding.contains_key(response.reply_to->0@) {
            Some(
                DomainError {
                    code: ErrorCode::ProtocolIncompatible,
                    reason: "unknown daemon reply correlation",
                },
            )
        } else {
            reply_fault(self.outstanding[response.reply_to->0@], response)
        }
    }
}

/// What speaks against `response` as the reply to `request`.
pub open spec fn reply_fault(request: PendingRequest, response: WireEnvelope) -> Option<
    DomainError,
> {
    if request.operation != response.operation {
        Some(
            DomainError {
                code: ErrorCode::ProtocolIncompatible,
                reason: "mismatched daemon reply operation",
            },
        )
    } else if request.runtime_epoch@ != response.runtime_epoch@ || request.host_generation
        != response.host_generation || (request.operation.forwards() && optional_id(
        request.runtime_instance_id,
    ) != optional_id(response.runtime_instance_id)) {
        Some(
            DomainError {
                code: ErrorCode::StaleAuthority,
                reason: "daemon reply owner fence is stale",
            },
        )
    } else {
        None
    }
}

/// The outcome that a fault, or its absence, stands for.
pub open spec fn outcome_of(fault: Option<DomainError>) -> Result<(), DomainError> {
    match fault {
        Some(error) => Err(error),
        None => Ok(()),
    }
}

impl Default for ConnectionLedger {
    fn default() -> (ledger: Self)
        ensures
            ledger@ == LedgerModel::fresh(),
            ledger@.wf(),
    {
        ConnectionLedger {
            outstanding: StringHashMap::new(),
            business: StringHashSet::new(),
            seen: StringHashSet::new(),
            incoming_messages: 0,
            outgoing_messages: 0,
        }
    }
}

impl ConnectionLedger {
    pub fn new() -> (ledger: Self)
        ensures
            ledger@ == LedgerModel::fresh(),
            ledger@.wf(),
    {
        Self::default()
    }

    /// Opens a request that takes a business slot.
    pub fn reserve_business_envelope(&mut self, request: &WireEnvelope) -> (reserved: Result<
        (),
        DomainError,
    >)
        requires
            old(self)@.wf(),
        ensures
            final(self)@.wf(),
            reserved == outcome_of(old(self)@.business_fault(*request)),
            final(self)@ == (if reserved is Ok {
                old(self)@.reserved(*request, true)
            } else {
                old(self)@
            }),
    {
        if self.business.len() >= MAX_BUSINESS_OUTSTANDING || self.outstanding.len()
            >= MAX_OUTSTANDING {
            return Err(
                DomainError::new(
                    ErrorCode::ResourceLimit,
                    "daemon business request slots are full",
                ),
            );
        }
        self.reserve(request, true)
    }

    /// Opens a control request.
    pub fn reserve_control_envelope(&mut self, request: &WireEnvelope) -> (reserved: Result<
        (),
        DomainError,
    >)
        requires
            old(self)@.wf(),
        ensures
            final(self)@.wf(),
            reserved == outcome_of(old(self)@.control_fault(*request)),
            final(self)@ == (if reserved is Ok {
                old(self)@.reserved(*request, false)
            } else {
                old(self)@
            }),
    {
        if self.outstanding.len() >= MAX_OUTSTANDING {
            return Err(DomainError::new(ErrorCode::ResourceLimit, "daemon request slots are full"));
        }
        self.reserve(request, false)
    }

    fn reserve(&mut self, request: &WireEnvelope, business: bool) -> (reserved: Result<
        (),
        DomainError,
    >)
        requires
            old(self)@.wf(),
            old(self)@.outstanding.dom().len() < MAX_OUTSTANDING,
            business ==> old(self)@.business.len() < MAX_BUSINESS_OUTSTANDING,
        ensures
            final(self)@.wf(),
            reserved == outcome_of(old(self)@.request_fault(*request)),
            final(self)@ == (if reserved is Ok {
                old(self)@.reserved(*request, business)
            } else {
                old(self)@
            }),
    {
        if request.kind != MessageKind::Request {
            return Err(
                DomainError::new(
                    ErrorCode::ProtocolIncompatible,
                    "only requests can reserve daemon correlation state",
                ),
            );
        }
        let ghost before = self@;
        let message_id = request.message_id.clone();
        match self.observe_outgoing(message_id) {
            Ok(()) => {},
            Err(error) => {
                return Err(error);
            },
        }
        if business {
            self.business.insert(request.message_id.as_str().to_owned());
        }
        self.outstanding.insert(
            request.message_id.as_str().to_owned(),
            PendingRequest {
                operation: request.operation,
                runtime_epoch: request.runtime_epoch.clone(),
                host_generation: request.host_generation,
                runtime_instance_id: clone_optional_id(&request.runtime_instance_id),
            },
        );
        proof {
            let id = request.message_id@;
            assert(!before.outstanding.dom().contains(id));
            assert(self@.outstanding.dom() =~= before.outstanding.dom().insert(id));
            assert(self@.outstanding =~= before.reserved(*request, business).outstanding);
        }
        Ok(())
    }

    /// Closes the request that a response answers. A response that does not answer an open request
    /// of the same owner changes nothing.
    pub fn complete_envelope(&mut self, response: &WireEnvelope) -> (completed: Result<
        (),
        DomainError,
    >)
        requires
            old(self)@.wf(),
        ensures
            final(self)@.wf(),
            completed == outcome_of(old(self)@.completion_fault(*response)),
            final(self)@ == (if completed is Ok {
                old(self)@.completed(response.reply_to->0@)
            } else {
                old(self)@
            }),
    {
        if response.kind != MessageKind::Response {
            return Err(
                DomainError::new(
                    ErrorCode::ProtocolIncompatible,
                    "only responses can complete daemon correlation state",
                ),
            );
        }
        let reply_to = match &response.reply_to {
            Some(reply_to) => reply_to,
            None => {
                return Err(
                    DomainError::new(ErrorCode::ProtocolIncompatible, "response lacks reply id"),
                );
            },
        };
        match self.outstanding.get(reply_to.as_str()) {
            None => {
                return Err(
                    DomainError::new(
                        ErrorCode::ProtocolIncompatible,
                        "unknown daemon reply correlation",
                    ),
                );
            },
            Some(request) => {
                if request.operation != response.operation {
                    return Err(
                        DomainError::new(
                            ErrorCode::ProtocolIncompatible,
                            "mismatched daemon reply operation",
                        ),
                    );
                }
                if !request.runtime_epoch.same_as(&response.runtime_epoch)
                    || request.host_generation != response.host_generation || (
                request.operation.is_forwarded() && !same_optional_id(
                    &request.runtime_instance_id,
                    &response.runtime_instance_id,
                )) {
                    return Err(
                        DomainError::new(
                            ErrorCode::StaleAuthority,
                            "daemon reply owner fence is stale",
                        ),
                    );
                }
            },
        }
        let ghost before = self@;
        self.outstanding.remove(reply_to.as_str());
        self.business.remove(reply_to.as_str());
        proof {
            let id = reply_to@;
            assert(self@.outstanding.dom() =~= before.outstanding.dom().remove(id));
        }
        Ok(())
    }

    /// Notes a message that came in.
    pub fn observe_incoming(&mut self, message_id: UuidV4) -> (observed: Result<(), DomainError>)
        requires
            old(self)@.wf(),
        ensures
            final(self)@.wf(),
            observed == outcome_of(old(self)@.message_fault(old(self)@.incoming, message_id@)),
            final(self)@ == (if observed is Ok {
                old(self)@.received(message_id@)
            } else {
                old(self)@
            }),
    {
        if self.incoming_messages >= MAX_CONNECTION_MESSAGES {
            return Err(
                DomainError::new(
                    ErrorCode::ResourceLimit,
                    "daemon connection message history is exhausted",
                ),
            );
        }
        let ghost before = self.seen@;
        if !self.seen.insert(message_id.as_str().to_owned()) {
            assert(self.seen@ =~= before);
            return Err(
                DomainError::new(ErrorCode::ProtocolIncompatible, "duplicate daemon message id"),
            );
        }
        self.incoming_messages = self.incoming_messages + 1;
        Ok(())
    }

    /// Notes a message that goes out.
    pub fn observe_outgoing(&mut self, message_id: UuidV4) -> (observed: Result<(), DomainError>)
        requires
            old(self)@.wf(),
        ensures
            final(self)@.wf(),
            observed == outcome_of(old(self)@.message_fault(old(self)@.outgoing, message_id@)),
            final(self)@ == (if observed is Ok {
                old(self)@.sent(message_id@)
            } else {
                old(self)@
            }),
    {
        if self.outgoing_messages >= MAX_CONNECTION_MESSAGES {
            return Err(
                DomainError::new(
                    ErrorCode::ResourceLimit,
                    "daemon connection message history is exhausted",
                ),
            );
        }
        let ghost before = self.seen@;
        if !self.seen.insert(message_id.as_str().to_owned()) {
            assert(self.seen@ =~= before);
            return Err(
                DomainError::new(ErrorCode::ProtocolIncompatible, "duplicate daemon message id"),
            );
        }
        self.outgoing_messages = self.outgoing_messages + 1;
        Ok(())
    }
}

/// However many business requests are open, a control request that is new still finds a slot, as
/// long as fewer control requests are open than are reserved for them.
pub proof fn control_slots_are_reserved(ledger: LedgerModel)
    requires
        ledger.wf(),
        ledger.outstanding.dom().difference(ledger.business).len() < RESERVED_CONTROL,
    ensures
        ledger.outstanding.dom().len() < MAX_OUTSTANDING,
{
    let open = ledger.outstanding.dom();
    let control = open.difference(ledger.business);
    assert(open =~= ledger.business.union(control));
    assert(ledger.business.disjoint(control));
    vstd::set_lib::lemma_set_disjoint_lens(ledger.business, control);
}

/// A request is closed at most once: after its response was taken, another response to it is
/// refused.
pub proof fn a_request_is_answered_once(
    ledger: LedgerModel,
    first: WireEnvelope,
    second: WireEnvelope,
)
    requires
        ledger.wf(),
        ledger.completion_fault(first) is None,
        second.kind is Response,
        second.reply_to is Some,
        second.reply_to->0@ == first.reply_to->0@,
    ensures
        ledger.completed(first.reply_to->0@).completion_fault(second) == Some(
            DomainError {
                code: ErrorCode::ProtocolIncompatible,
                reason: "unknown daemon reply correlation",
            },
        ),
{
}

/// An identifier is used once on a connection: after it was noted in either direction, it is
/// refused in both.
pub proof fn an_identifier_is_used_once(ledger: LedgerModel, id: Seq<char>)
    ensures
        ledger.received(id).message_fault(ledger.received(id).incoming, id) is Some,
        ledger.received(id).message_fault(ledger.received(id).outgoing, id) is Some,
        ledger.sent(id).message_fault(ledger.sent(id).incoming, id) is Some,
        ledger.sent(id).message_fault(ledger.sent(id).outgoing, id) is Some,
{
}

/// A response that `WireEnvelope::response` makes to an open request, for the request's own
/// instance, closes it, and closing gives back the slot that opening took.
pub proof fn a_proper_response_closes_its_request(
    ledger: LedgerModel,
    request: WireEnvelope,
    response: WireEnvelope,
    business: bool,
)
    requires
        ledger.wf(),
        ledger.request_fault(request) is None,
        response.kind is Response,
        response.reply_to == Some(request.message_id),
        response.runtime_epoch == request.runtime_epoch,
        response.host_generation == request.host_generation,
        response.runtime_instance_id == request.runtime_instance_id,
        response.operation == request.operation,
    ensures
        ledger.reserved(request, business).completion_fault(response) is None,
        ledger.reserved(request, business).completed(request.message_id@).outstanding
            == ledger.outstanding,
        ledger.reserved(request, business).completed(request.message_id@).business
            == ledger.business,
{
    let id = request.message_id@;
    assert(!ledger.outstanding.dom().contains(id));
    assert(!ledger.business.contains(id));
    assert(ledger.reserved(request, business).completed(id).outstanding =~= ledger.outstanding);
    assert(ledger.reserved(request, business).completed(id).business =~= ledger.business);
}

/// A request that takes a business slot is refused with 60 of them open, or with 64 requests of any
/// kind, and a control request only with 64 of any kind; both are refused under an identifier that
/// was used before. One that is opened is kept under its identifier and takes one slot.
pub proof fn slots_are_bounded(request: WireEnvelope)
    ensures
        forall|ledger: &mut ConnectionLedger, reserved: Result<(), DomainError>| #[trigger]
            call_ensures(
                ConnectionLedger::reserve_business_envelope,
                (ledger, &request),
                reserved,
            ) ==> {
                &&& ledger@.business.len() >= 60 ==> reserved is Err
                &&& ledger@.outstanding.dom().len() >= 64 ==> reserved is Err
                &&& ledger@.outgoing >= 65_536 ==> reserved is Err
                &&& ledger@.seen.contains(request.message_id@) ==> reserved is Err
                &&& request.kind !is Request ==> reserved is Err
                &&& reserved is Err && request.kind is Request && !ledger@.seen.contains(
                    request.message_id@,
                ) && ledger@.outgoing < 65_536 ==> ledger@.business.len() >= 60
                    || ledger@.outstanding.dom().len() >= 64
                &&& reserved is Err ==> final(ledger)@ == ledger@
                &&& reserved is Ok ==> final(ledger)@.outstanding.contains_key(request.message_id@)
                    && final(ledger)@.business.contains(request.message_id@)
                        && final(ledger)@.seen.contains(request.message_id@)
                        && final(ledger)@.outgoing
                    == ledger@.outgoing + 1 && final(ledger)@.incoming == ledger@.incoming
            },
        forall|ledger: &mut ConnectionLedger, reserved: Result<(), DomainError>| #[trigger]
            call_ensures(
                ConnectionLedger::reserve_control_envelope,
                (ledger, &request),
                reserved,
            ) ==> {
                &&& ledger@.outstanding.dom().len() >= 64 ==> reserved is Err
                &&& ledger@.outgoing >= 65_536 ==> reserved is Err
                &&& ledger@.seen.contains(request.message_id@) ==> reserved is Err
                &&& request.kind !is Request ==> reserved is Err
                &&& reserved is Err && request.kind is Request && !ledger@.seen.contains(
                    request.message_id@,
                ) && ledger@.outgoing < 65_536 ==> ledger@.outstanding.dom().len() >= 64
                &&& reserved is Err ==> final(ledger)@ == ledger@
                &&& reserved is Ok ==> final(ledger)@.outstanding.contains_key(request.message_id@)
                    && final(ledger)@.business == ledger@.business && final(ledger)@.seen.contains(
                    request.message_id@,
                )
            },
{
}

/// A response closes a request exactly if the request is open, and the two agree in their operation,
/// their epoch and their generation, and in their instance where the operation is carried between
/// runtimes. What is closed is open no more, and everything else stays as it was.
pub proof fn a_response_closes_only_its_own_request(response: WireEnvelope)
    ensures
        forall|ledger: &mut ConnectionLedger, completed: Result<(), DomainError>| #[trigger]
            call_ensures(ConnectionLedger::complete_envelope, (ledger, &response), completed) ==> {
                &&& completed is Ok ==> {
                    let id = response.reply_to->0@;
                    let request = ledger@.outstanding[id];
                    &&& response.kind is Response && response.reply_to is Some
                    &&& ledger@.outstanding.contains_key(id)
                    &&& request.operation == response.operation
                    &&& request.runtime_epoch@ == response.runtime_epoch@
                    &&& request.host_generation == response.host_generation
                    &&& (request.operation is RuntimeForward || request.operation is RuntimeCancel
                        || request.operation is CompanionExecute || request.operation is
                        CompanionCancel) ==> optional_id(request.runtime_instance_id)
                        == optional_id(response.runtime_instance_id)
                    &&& !final(ledger)@.outstanding.contains_key(id)
                    &&& !final(ledger)@.business.contains(id)
                    &&& forall|other: Seq<char>|
                        other != id ==> #[trigger] final(ledger)@.outstanding.contains_key(other)
                            == ledger@.outstanding.contains_key(other)
                                && final(ledger)@.business.contains(other) == ledger@.business.contains(other)
                }
                &&& completed is Err ==> final(ledger)@ == ledger@
                &&& completed is Err && response.kind is Response && response.reply_to is Some
                    && ledger@.outstanding.contains_key(response.reply_to->0@) ==> {
                    let request = ledger@.outstanding[response.reply_to->0@];
                    ||| request.operation != response.operation
                    ||| request.runtime_epoch@ != response.runtime_epoch@
                    ||| request.host_generation != response.host_generation
                    ||| optional_id(request.runtime_instance_id) != optional_id(
                        response.runtime_instance_id,
                    )
                }
            },
{
}

/// Messages are counted by their direction: one that comes in never counts as one that goes out.
pub proof fn each_direction_is_counted_apart(message_id: UuidV4)
    ensures
        forall|ledger: &mut ConnectionLedger, observed: Result<(), DomainError>| #[trigger]
            call_ensures(ConnectionLedger::observe_incoming, (ledger, message_id), observed) ==> {
                &&& observed is Ok <==> ledger@.incoming < 65_536 && !ledger@.seen.contains(
                    message_id@,
                )
                &&& observed is Ok ==> final(ledger)@.incoming == ledger@.incoming + 1
                    && final(ledger)@.outgoing == ledger@.outgoing
            },
        forall|ledger: &mut ConnectionLedger, observed: Result<(), DomainError>| #[trigger]
            call_ensures(ConnectionLedger::observe_outgoing, (ledger, message_id), observed) ==> {
                &&& observed is Ok <==> ledger@.outgoing < 65_536 && !ledger@.seen.contains(
                    message_id@,
                )
                &&& observed is Ok ==> final(ledger)@.outgoing == ledger@.outgoing + 1
                    && final(ledger)@.incoming == ledger@.incoming
            },
{
}

} // verus!

//! Receiving one reply of the kernel, piece by piece.

use crate::bytes::{push_bytes, ByteOrder};
use crate::contract::common::ErrorCode;
use crate::daemon::network::netlink::{completes, reply_is_complete_in, SourceDump};
use crate::error::DomainError;
use vstd::prelude::*;

verus! {

pub const NETLINK_TIMEOUT_SECONDS: i64 = 5;

pub const NETLINK_REPLY_BYTES: usize = 262_144;

pub const SOCKET_TABLE_BYTES: u64 = 8_388_608;

/// A reply that is being received, from a kernel that writes integers in an order.
#[derive(Debug)]
pub struct ReplyBuffer {
    pub order: ByteOrder,
    pub bytes: Vec<u8>,
    pub complete: bool,
    pub closed: bool,
}

/// What came of one attempt to receive.
#[derive(Debug)]
pub enum Received {
    Bytes(Vec<u8>),
    Interrupted,
    /// Nothing came in time.
    Silent,
    /// Nothing more will come.
    Closed,
    Failed,
}

impl ReplyBuffer {
    /// Whether what is complete is so, and no bound is exceeded.
    pub open spec fn wf(self) -> bool {
        &&& self.bytes@.len() <= NETLINK_REPLY_BYTES
        &&& self.complete ==> completes(self.order, self.bytes@, 0)
    }

    pub fn new(order: ByteOrder) -> (buffer: Self)
        ensures
            buffer.wf(),
            buffer.order == order,
            buffer.bytes@.len() == 0,
            !buffer.complete,
            !buffer.closed,
    {
        ReplyBuffer { order, bytes: Vec::new(), complete: false, closed: false }
    }

    /// Whether more is to be received: the reply has not come to its end, and there is room.
    pub fn wants_more(&self) -> (wants: bool)
        ensures
            wants == (self.bytes@.len() < NETLINK_REPLY_BYTES && !self.complete && !self.closed),
    {
        self.bytes.len() < NETLINK_REPLY_BYTES && !self.complete && !self.closed
    }

    /// The room that is left.
    pub fn room(&self) -> (room: usize)
        requires
            self.wf(),
        ensures
            room == NETLINK_REPLY_BYTES - self.bytes@.len(),
    {
        NETLINK_REPLY_BYTES - self.bytes.len()
    }

    /// Takes in what came. Bytes are kept and the reply is looked at anew; silence ends it as it
    /// is; a failure is reported.
    pub fn receive(&mut self, received: Received) -> (taken: Result<(), DomainError>)
        requires
            old(self).wf(),
            received matches Received::Bytes(bytes) ==> old(self).bytes@.len() + bytes@.len()
                <= NETLINK_REPLY_BYTES,
        ensures
            final(self).wf(),
            final(self).order == old(self).order,
            final(self).bytes@ == (match received {
                Received::Bytes(bytes) => old(self).bytes@ + bytes@,
                _ => old(self).bytes@,
            }),
            final(self).complete == (match received {
                Received::Bytes(bytes) => if bytes@.len() > 0 {
                    completes(old(self).order, old(self).bytes@ + bytes@, 0)
                } else {
                    old(self).complete
                },
                _ => old(self).complete,
            }),
            final(self).closed == (old(self).closed || (match received {
                Received::Bytes(bytes) => bytes@.len() == 0,
                Received::Silent => true,
                Received::Closed => true,
                _ => false,
            })),
            taken == (if received is Failed {
                Err(
                    DomainError {
                        code: ErrorCode::IoError,
                        reason: "daemon netlink reply cannot be read",
                    },
                )
            } else {
                Ok(())
            }),
    {
        match received {
            Received::Bytes(bytes) => {
                let ghost before = self.bytes@;
                if bytes.len() == 0 {
                    assert(before + bytes@ =~= before);
                    self.closed = true;
                } else {
                    self.complete = false;
                    push_bytes(&mut self.bytes, bytes.as_slice());
                    self.complete = reply_is_complete_in(self.order, self.bytes.as_slice());
                }
            },
            Received::Interrupted => {},
            Received::Silent => {
                self.closed = true;
            },
            Received::Closed => {
                self.closed = true;
            },
            Received::Failed => {
                return Err(
                    DomainError::new(ErrorCode::IoError, "daemon netlink reply cannot be read"),
                );
            },
        }
        Ok(())
    }

    /// The reply as it came. One that did not come to its end is truncated; no reply at all is no
    /// reply.
    pub fn finish(self) -> (dump: Result<SourceDump, DomainError>)
        ensures
            dump == (if self.bytes@.len() == 0 {
                Err(
                    DomainError {
                        code: ErrorCode::IoError,
                        reason: "daemon netlink dump was not answered",
                    },
                )
            } else {
                Ok(SourceDump { bytes: self.bytes, truncated: !self.complete })
            }),
    {
        if self.bytes.len() == 0 {
            return Err(
                DomainError::new(ErrorCode::IoError, "daemon netlink dump was not answered"),
            );
        }
        Ok(SourceDump { bytes: self.bytes, truncated: !self.complete })
    }
}

/// A reply takes up to 262144 bytes and no more, and more is asked for exactly as long as it has
/// not come to its end, nothing closed it, and there is room.
pub proof fn a_reply_is_received_within_its_bound(buffer: ReplyBuffer, wants: bool, room: usize)
    requires
        buffer.wf(),
        call_ensures(ReplyBuffer::wants_more, (&buffer,), wants),
        call_ensures(ReplyBuffer::room, (&buffer,), room),
    ensures
        room + buffer.bytes@.len() == 262_144,
        wants <==> room > 0 && !buffer.complete && !buffer.closed,
{
}

} // verus!

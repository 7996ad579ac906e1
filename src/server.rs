use vstd::prelude::*;
use vstd::slice::slice_subrange;
use crate::codec::{
    create_read_holding_registers_response, create_write_single_register_response,
    decode_request, be16, decode_request_spec, read_response_frame, write_ack_trailer,
    FunctionCode, REQUEST_LEN, WRITE_SINGLE_REGISTER,
};
use crate::register_store::RegisterStore;

verus! {

/// Number of leading request bytes that a write acknowledgement echoes.
pub const ECHOED_HEADER_LEN: usize = 6;

/// A message that the transport delivered on a connection.
#[derive(Debug)]
pub enum Incoming {
    Binary(Vec<u8>),
    Text,
    Ping(Vec<u8>),
    Pong,
    Close,
    TransportError,
}

/// Why a connection was closed.
#[derive(Debug, Clone, Copy, PartialEq, Eq, Structural)]
pub enum CloseReason {
    TooShort,
    UnsupportedFunction(u8),
    ClosedByPeer,
    TransportError,
}

/// What the transport is to do after a message was handled.
#[derive(Debug)]
pub enum Outgoing {
    Binary(Vec<u8>),
    Pong(Vec<u8>),
    Nothing,
    Close(CloseReason),
}

/// The state of one connection: open until something closes it.
pub struct ConnectionHandler {
    open: bool,
}

/// How a binary message changes the store and what it answers, for a
/// store that held `value`: `(new value, reply)`, where the reply is the
/// frame to send or the reason to close.
pub open spec fn binary_step(value: u16, bytes: Seq<u8>) -> (u16, Result<Seq<u8>, CloseReason>) {
    match decode_request_spec(bytes) {
        Err(_) => (value, Err(CloseReason::TooShort)),
        Ok(req) => match req.function {
            FunctionCode::ReadHoldingRegisters => (value, Ok(read_response_frame(value))),
            FunctionCode::WriteSingleRegister => (
                req.value,
                Ok(bytes.subrange(0, ECHOED_HEADER_LEN as int) + write_ack_trailer()),
            ),
            FunctionCode::Unsupported(code) => (value, Err(CloseReason::UnsupportedFunction(code))),
        },
    }
}

/// Whether a frame is a write request long enough to be decoded.
pub open spec fn is_write_request(bytes: Seq<u8>) -> bool {
    bytes.len() >= REQUEST_LEN && bytes[7] == WRITE_SINGLE_REGISTER
}

/// Whether an outgoing action is the one that a reply of `binary_step`
/// calls for.
pub open spec fn answers(r: Outgoing, reply: Result<Seq<u8>, CloseReason>) -> bool {
    match reply {
        Ok(frame) => r is Binary && r->Binary_0@ == frame,
        Err(reason) => r == Outgoing::Close(reason),
    }
}

impl ConnectionHandler {
    /// Whether the connection still takes messages.
    pub closed spec fn is_open_spec(&self) -> bool {
        self.open
    }

    /// A handler for a connection that was just accepted.
    pub fn new() -> (h: ConnectionHandler)
        ensures
            h.is_open_spec(),
    {
        ConnectionHandler { open: true }
    }

    /// Whether the connection still takes messages.
    pub fn is_open(&self) -> (r: bool)
        ensures
            r == self.is_open_spec(),
    {
        self.open
    }

    /// Handles one message. A read is answered from the store; a write
    /// stores its value and is acknowledged; a frame that is too short or
    /// has an unsupported function code closes the connection and leaves
    /// the store alone; a ping is answered with a pong of the same payload;
    /// a close or a transport error closes. A closed handler does nothing.
    pub fn on_message(&mut self, store: &mut RegisterStore, msg: Incoming) -> (r: Outgoing)
        ensures
            !old(self).is_open_spec() ==> r == Outgoing::Nothing && *final(store) == *old(store)
                && !final(self).is_open_spec(),
            old(self).is_open_spec() ==> (final(self).is_open_spec() <==> !(r is Close)),
            old(self).is_open_spec() ==> match msg {
                Incoming::Binary(b) => {
                    let (v, reply) = binary_step(old(store)@, b@);
                    &&& final(store)@ == v
                    &&& answers(r, reply)
                    &&& if is_write_request(b@) {
                        final(store).applied_writes() == old(store).applied_writes().push(v)
                    } else {
                        *final(store) == *old(store)
                    }
                },
                Incoming::Ping(p) => r is Pong && r->Pong_0@ == p@ && *final(store) == *old(store),
                Incoming::Text => r == Outgoing::Nothing && *final(store) == *old(store),
                Incoming::Pong => r == Outgoing::Nothing && *final(store) == *old(store),
                Incoming::Close => r == Outgoing::Close(CloseReason::ClosedByPeer)
                    && *final(store) == *old(store),
                Incoming::TransportError => r == Outgoing::Close(CloseReason::TransportError)
                    && *final(store) == *old(store),
            },
    {
        if !self.open {
            return Outgoing::Nothing;
        }
        let r = match msg {
            Incoming::Binary(b) => self.on_frame(store, &b),
            Incoming::Ping(p) => Outgoing::Pong(p),
            Incoming::Text => Outgoing::Nothing,
            Incoming::Pong => Outgoing::Nothing,
            Incoming::Close => Outgoing::Close(CloseReason::ClosedByPeer),
            Incoming::TransportError => Outgoing::Close(CloseReason::TransportError),
        };
        if let Outgoing::Close(_) = r {
            self.open = false;
        }
        r
    }

    fn on_frame(&mut self, store: &mut RegisterStore, b: &Vec<u8>) -> (r: Outgoing)
        ensures
            *final(self) == *old(self),
            ({
                let (v, reply) = binary_step(old(store)@, b@);
                &&& final(store)@ == v
                &&& answers(r, reply)
                &&& if is_write_request(b@) {
                    final(store).applied_writes() == old(store).applied_writes().push(v)
                } else {
                    *final(store) == *old(store)
                }
            }),
    {
        match decode_request(b.as_slice()) {
            Err(_) => Outgoing::Close(CloseReason::TooShort),
            Ok(req) => match req.function {
                FunctionCode::ReadHoldingRegisters => {
                    let value = store.read();
                    Outgoing::Binary(create_read_holding_registers_response(value))
                },
                FunctionCode::WriteSingleRegister => {
                    store.write(req.value);
                    let header = slice_subrange(b.as_slice(), 0, ECHOED_HEADER_LEN);
                    Outgoing::Binary(create_write_single_register_response(header))
                },
                FunctionCode::Unsupported(code) => Outgoing::Close(
                    CloseReason::UnsupportedFunction(code),
                ),
            },
        }
    }

    /// Records that sending a reply failed: the connection closes.
    pub fn on_send_failed(&mut self) -> (r: CloseReason)
        ensures
            r == CloseReason::TransportError,
            !final(self).is_open_spec(),
    {
        self.open = false;
        CloseReason::TransportError
    }
}

/// A write request stores exactly the value that its bytes 10 and 11 carry,
/// high byte first, so that a read that follows returns it.
pub proof fn lemma_write_request_stores_value(value: u16, bytes: Seq<u8>)
    requires
        is_write_request(bytes),
    ensures
        binary_step(value, bytes).0 == be16(bytes[10], bytes[11]),
        binary_step(value, bytes).1 == Ok::<Seq<u8>, CloseReason>(
            bytes.subrange(0, ECHOED_HEADER_LEN as int) + write_ack_trailer(),
        ),
{
}

} // verus!

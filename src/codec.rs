use vstd::prelude::*;

verus! {

/// Length of a request frame; shorter ones are rejected.
pub const REQUEST_LEN: usize = 12;

/// Minimum length of a read response that carries a register value.
pub const READ_RESPONSE_LEN: usize = 11;

/// Function code of a read of the holding register.
pub const READ_HOLDING_REGISTERS: u8 = 0x03;

/// Function code of a write of the single register.
pub const WRITE_SINGLE_REGISTER: u8 = 0x06;

/// The 16-bit value of two bytes, high byte first.
pub open spec fn be16(hi: u8, lo: u8) -> u16 {
    (hi as int * 256 + lo as int) as u16
}

/// The high byte of a value.
pub open spec fn high_byte(v: u16) -> u8 {
    (v / 256) as u8
}

/// The low byte of a value.
pub open spec fn low_byte(v: u16) -> u8 {
    (v % 256) as u8
}

/// The operation that a request frame asks for, by its function code.
#[derive(Debug, Clone, Copy, PartialEq, Eq, Structural)]
pub enum FunctionCode {
    ReadHoldingRegisters,
    WriteSingleRegister,
    Unsupported(u8),
}

/// The function code that a byte stands for.
pub open spec fn function_code_of(code: u8) -> FunctionCode {
    if code == READ_HOLDING_REGISTERS {
        FunctionCode::ReadHoldingRegisters
    } else if code == WRITE_SINGLE_REGISTER {
        FunctionCode::WriteSingleRegister
    } else {
        FunctionCode::Unsupported(code)
    }
}

/// A decoded request: its function code and, for a write, the value to write.
#[derive(Debug, Clone, Copy, PartialEq, Eq, Structural)]
pub struct Request {
    pub function: FunctionCode,
    pub value: u16,
}

/// Why a frame could not be decoded.
#[derive(Debug, Clone, Copy, PartialEq, Eq, Structural)]
pub enum DecodeError {
    TooShort,
}

/// What a request frame of at least `REQUEST_LEN` bytes decodes to. The
/// value is bytes 10 and 11 for a write, zero otherwise.
pub open spec fn request_of(bytes: Seq<u8>) -> Request
    recommends
        bytes.len() >= REQUEST_LEN,
{
    let function = function_code_of(bytes[7]);
    Request {
        function,
        value: if function == FunctionCode::WriteSingleRegister {
            be16(bytes[10], bytes[11])
        } else {
            0
        },
    }
}

/// What decoding a request frame gives: `TooShort` under `REQUEST_LEN`
/// bytes, the request otherwise.
pub open spec fn decode_request_spec(bytes: Seq<u8>) -> Result<Request, DecodeError> {
    if bytes.len() < REQUEST_LEN {
        Err(DecodeError::TooShort)
    } else {
        Ok(request_of(bytes))
    }
}

/// The frame that answers a read request: zero transaction and protocol
/// ids, length 5, unit 1, function 0x03, byte count 2, then the value
/// big-endian.
pub open spec fn read_response_frame(value: u16) -> Seq<u8> {
    seq![0u8, 0u8, 0u8, 0u8, 0u8, 5u8, 1u8, 3u8, 2u8, high_byte(value), low_byte(value)]
}

/// The fixed acknowledgement that follows the echoed header of a write.
pub open spec fn write_ack_trailer() -> Seq<u8> {
    seq![0u8, 6u8, 0u8, 0u8]
}

/// The request that the polling client sends: transaction 1, protocol 0,
/// length 6, unit 1, function 0x03, address 0, quantity 1.
pub open spec fn read_request_frame() -> Seq<u8> {
    seq![0u8, 1u8, 0u8, 0u8, 0u8, 6u8, 1u8, 3u8, 0u8, 0u8, 0u8, 1u8]
}

/// The register value that a read response carries: bytes 9 and 10, or
/// none when the frame is shorter than `READ_RESPONSE_LEN`.
pub open spec fn response_value(bytes: Seq<u8>) -> Option<u16> {
    if bytes.len() < READ_RESPONSE_LEN {
        None
    } else {
        Some(be16(bytes[9], bytes[10]))
    }
}

/// Joins two bytes, high byte first.
pub fn u16_from_be(hi: u8, lo: u8) -> (r: u16)
    ensures
        r == be16(hi, lo),
        r as int == hi as int * 256 + lo as int,
{
    (hi as u16) * 256 + (lo as u16)
}

/// Builds the response to a read of the holding register.
pub fn create_read_holding_registers_response(value: u16) -> (r: Vec<u8>)
    ensures
        r@ == read_response_frame(value),
{
    let hi: u8 = (value / 256) as u8;
    let lo: u8 = (value % 256) as u8;
    let r = vec![0x00u8, 0x00, 0x00, 0x00, 0x00, 0x05, 0x01, 0x03, 0x02, hi, lo];
    assert(r@ =~= read_response_frame(value));
    r
}

/// Builds the acknowledgement of a write: the given header bytes echoed,
/// then the fixed trailer `00 06 00 00`.
pub fn create_write_single_register_response(request: &[u8]) -> (r: Vec<u8>)
    requires
        request@.len() <= usize::MAX - 4,
    ensures
        r@ == request@ + write_ack_trailer(),
{
    let mut response: Vec<u8> = Vec::new();
    let mut i: usize = 0;
    while i < request.len()
        invariant
            i <= request@.len(),
            response@ == request@.subrange(0, i as int),
        decreases request@.len() - i,
    {
        response.push(request[i]);
        i = i + 1;
        assert(response@ =~= request@.subrange(0, i as int));
    }
    response.push(0x00);
    response.push(0x06);
    response.push(0x00);
    response.push(0x00);
    assert(response@ =~= request@ + write_ack_trailer());
    response
}

/// Classifies a function code byte.
pub fn decode_function_code(code: u8) -> (r: FunctionCode)
    ensures
        r == function_code_of(code),
{
    if code == READ_HOLDING_REGISTERS {
        FunctionCode::ReadHoldingRegisters
    } else if code == WRITE_SINGLE_REGISTER {
        FunctionCode::WriteSingleRegister
    } else {
        FunctionCode::Unsupported(code)
    }
}

/// Decodes a request frame. Frames under `REQUEST_LEN` bytes are
/// `TooShort` whatever their function code; an unknown function code is
/// a successful decode to `Unsupported`.
pub fn decode_request(bytes: &[u8]) -> (r: Result<Request, DecodeError>)
    ensures
        r == decode_request_spec(bytes@),
        (r is Err) <==> bytes@.len() < REQUEST_LEN,
{
    if bytes.len() < REQUEST_LEN {
        return Err(DecodeError::TooShort);
    }
    let function = decode_function_code(bytes[7]);
    let value = match function {
        FunctionCode::WriteSingleRegister => u16_from_be(bytes[10], bytes[11]),
        _ => 0,
    };
    Ok(Request { function, value })
}

/// The read request that the polling client sends.
pub fn create_read_request() -> (r: Vec<u8>)
    ensures
        r@ == read_request_frame(),
{
    let r = vec![0x00u8, 0x01, 0x00, 0x00, 0x00, 0x06, 0x01, 0x03, 0x00, 0x00, 0x00, 0x01];
    assert(r@ =~= read_request_frame());
    r
}

/// Reads the register value out of a read response; `None` when the
/// frame is too short to hold it.
pub fn extract_response_value(bytes: &[u8]) -> (r: Option<u16>)
    ensures
        r == response_value(bytes@),
{
    if bytes.len() < READ_RESPONSE_LEN {
        None
    } else {
        Some(u16_from_be(bytes[9], bytes[10]))
    }
}

/// Reading the value back out of a read response gives the value that
/// was encoded, for every register value.
pub proof fn lemma_read_response_round_trip(v: u16)
    ensures
        response_value(read_response_frame(v)) == Some(v),
{
    let f = read_response_frame(v);
    assert(f[9] == high_byte(v) && f[10] == low_byte(v));
    assert(high_byte(v) as int * 256 + low_byte(v) as int == v as int);
}

} // verus!

//! Frame codec: the byte-exact shape of requests and responses.
//!
//! A frame is the bus address, a function code, a payload, and the checksum
//! of all of these, low byte first. Two exchanges are spoken: reading a run
//! of holding registers and writing a single one. A device that cannot serve
//! a request answers with the function code's high bit set and an exception
//! code in place of the payload.
//!
//! The formats are given as functions to byte sequences; what the parsers
//! return is given as functions from byte sequences; and the lemmas at the
//! end tie the two together.

use crate::crc::{checksum, crc16, flipped_bit_changes_checksum, with_bit_flipped};
use crate::text::{decimal_of, hex_of, push_decimal, push_hex};
use vstd::prelude::*;

verus! {

/// Function code of "read holding registers".
pub const READ_HOLDING_REGISTERS: u8 = 0x03;

/// Function code of "write single register".
pub const WRITE_SINGLE_REGISTER: u8 = 0x06;

/// Bit that a device sets in the function code of an exception response.
pub const EXCEPTION_FLAG: u8 = 0x80;

/// Length of the shortest response: address, function, one byte, checksum.
pub const SHORTEST_RESPONSE: usize = 5;

/// Length of the response to a register write.
pub const WRITE_RESPONSE_LENGTH: usize = 8;

/// Largest number of registers whose bytes a single response can count.
pub const MOST_REGISTERS: usize = 127;

/// Why a response was not accepted.
#[derive(Debug, Clone, Copy, PartialEq, Eq, Structural)]
pub enum FrameError {
    /// Fewer bytes than the shortest response.
    Truncated,
    /// The trailing checksum is not that of the bytes before it.
    ChecksumMismatch { computed: u16, carried: u16 },
    /// The response comes from another bus address than the one asked.
    AddressMismatch { asked: u8, answered: u8 },
    /// The response answers another function than the one asked.
    FunctionMismatch { requested: u8, returned: u8 },
    /// The device refused the request.
    Exception { function: u8, code: u8 },
    /// The length does not fit the layout that the function code announces.
    Malformed,
    /// A read returned another number of data bytes than twice the number
    /// of registers asked for.
    CountMismatch { registers: u16, data_bytes: u8 },
    /// A write was echoed with another register or value than was sent.
    EchoMismatch { register: u16, value: u16 },
}

/// One exchange that the driver asks of the controller.
#[derive(Debug, Clone, Copy, PartialEq, Eq, Structural)]
pub enum Request {
    /// Read `count` consecutive holding registers from `start` on.
    ReadHoldingRegisters { start: u16, count: u16 },
    /// Write `value` to the holding register `register`.
    WriteSingleRegister { register: u16, value: u16 },
}

/// The more significant byte of a word.
pub open spec fn high_byte(word: u16) -> u8 {
    (word / 256) as u8
}

/// The less significant byte of a word.
pub open spec fn low_byte(word: u16) -> u8 {
    (word % 256) as u8
}

/// The word with the given bytes.
pub open spec fn word_of(high: u8, low: u8) -> u16 {
    (high * 256 + low) as u16
}

/// Words as bytes, each word big-endian.
pub open spec fn bytes_of_words(words: Seq<u16>) -> Seq<u8> {
    Seq::new(
        2 * words.len(),
        |i: int|
            if i % 2 == 0 {
                high_byte(words[i / 2])
            } else {
                low_byte(words[i / 2])
            },
    )
}

/// Bytes as big-endian words; an odd last byte is left out.
pub open spec fn words_of_bytes(bytes: Seq<u8>) -> Seq<u16> {
    Seq::new((bytes.len() / 2) as nat, |i: int| word_of(bytes[2 * i], bytes[2 * i + 1]))
}

/// `content` followed by its checksum, low byte first.
pub open spec fn sealed(content: Seq<u8>) -> Seq<u8> {
    content + seq![low_byte(crc16(content)), high_byte(crc16(content))]
}

/// The part of a frame that the checksum covers.
pub open spec fn content_of(frame: Seq<u8>) -> Seq<u8> {
    frame.take(frame.len() - 2)
}

/// The checksum that a frame carries in its last two bytes.
pub open spec fn trailer_of(frame: Seq<u8>) -> u16 {
    word_of(frame[frame.len() - 1], frame[frame.len() - 2])
}

/// Whether a frame carries the checksum of its content.
pub open spec fn checksum_holds(frame: Seq<u8>) -> bool {
    frame.len() >= 2 && trailer_of(frame) == crc16(content_of(frame))
}

/// Request to read `count` registers from `start` on.
pub open spec fn read_request(slave: u8, start: u16, count: u16) -> Seq<u8> {
    sealed(
        seq![
            slave,
            READ_HOLDING_REGISTERS,
            high_byte(start),
            low_byte(start),
            high_byte(count),
            low_byte(count),
        ],
    )
}

/// Request to write `value` to `register`.
pub open spec fn write_request(slave: u8, register: u16, value: u16) -> Seq<u8> {
    sealed(
        seq![
            slave,
            WRITE_SINGLE_REGISTER,
            high_byte(register),
            low_byte(register),
            high_byte(value),
            low_byte(value),
        ],
    )
}

/// Response that carries `values`, in address order.
pub open spec fn read_response(slave: u8, values: Seq<u16>) -> Seq<u8> {
    sealed(seq![slave, READ_HOLDING_REGISTERS, (2 * values.len()) as u8] + bytes_of_words(values))
}

/// Response that confirms a write: the request, echoed.
pub open spec fn write_response(slave: u8, register: u16, value: u16) -> Seq<u8> {
    write_request(slave, register, value)
}

/// Response by which a device refuses a request of function `function`.
pub open spec fn exception_response(slave: u8, function: u8, code: u8) -> Seq<u8> {
    sealed(seq![slave, (function + EXCEPTION_FLAG) as u8, code])
}

/// What is wrong with the envelope of a response to a request of function
/// `function` sent to `slave`, if anything: the checks that do not depend on
/// the payload, in the order in which they are made. The checksum comes
/// first, so that a damaged frame is never read any further.
pub open spec fn envelope_fault(frame: Seq<u8>, slave: u8, function: u8) -> Option<FrameError> {
    if frame.len() < SHORTEST_RESPONSE {
        Some(FrameError::Truncated)
    } else if !checksum_holds(frame) {
        Some(
            FrameError::ChecksumMismatch {
                computed: crc16(content_of(frame)),
                carried: trailer_of(frame),
            },
        )
    } else if frame[0] != slave {
        Some(FrameError::AddressMismatch { asked: slave, answered: frame[0] })
    } else if frame[1] == function + EXCEPTION_FLAG {
        if frame.len() == SHORTEST_RESPONSE {
            Some(FrameError::Exception { function, code: frame[2] })
        } else {
            Some(FrameError::Malformed)
        }
    } else if frame[1] != function {
        Some(FrameError::FunctionMismatch { requested: function, returned: frame[1] })
    } else {
        None
    }
}

/// What a response to a read of `count` registers on `slave` means.
pub open spec fn read_reply(frame: Seq<u8>, slave: u8, count: u16) -> Result<Seq<u16>, FrameError> {
    match envelope_fault(frame, slave, READ_HOLDING_REGISTERS) {
        Some(fault) => Err(fault),
        None => if frame[2] != frame.len() - SHORTEST_RESPONSE {
            Err(FrameError::Malformed)
        } else if frame[2] != 2 * count {
            Err(FrameError::CountMismatch { registers: count, data_bytes: frame[2] })
        } else {
            Ok(words_of_bytes(frame.subrange(3, frame.len() - 2)))
        },
    }
}

/// What a response to a write of `value` to `register` on `slave` means.
pub open spec fn write_reply(frame: Seq<u8>, slave: u8, register: u16, value: u16) -> Result<
    (),
    FrameError,
> {
    match envelope_fault(frame, slave, WRITE_SINGLE_REGISTER) {
        Some(fault) => Err(fault),
        None => if frame.len() != WRITE_RESPONSE_LENGTH {
            Err(FrameError::Malformed)
        } else if word_of(frame[2], frame[3]) != register || word_of(frame[4], frame[5]) != value {
            Err(
                FrameError::EchoMismatch {
                    register: word_of(frame[2], frame[3]),
                    value: word_of(frame[4], frame[5]),
                },
            )
        } else {
            Ok(())
        },
    }
}

/// The length of the response that begins with `head`, as far as its first
/// three bytes tell: an exception is five bytes, a write echo eight, and a
/// read response counts its own data. `None` where fewer than three bytes
/// are at hand or the function code is neither of these.
pub open spec fn announced_length(head: Seq<u8>) -> Option<int> {
    if head.len() < 3 {
        None
    } else if head[1] >= EXCEPTION_FLAG {
        Some(SHORTEST_RESPONSE as int)
    } else if head[1] == READ_HOLDING_REGISTERS {
        Some(SHORTEST_RESPONSE + head[2])
    } else if head[1] == WRITE_SINGLE_REGISTER {
        Some(WRITE_RESPONSE_LENGTH as int)
    } else {
        None
    }
}

/// The request that a frame carries, and the bus address it is sent to;
/// `None` for anything that is not a well-formed request of this codec.
pub open spec fn request_of(frame: Seq<u8>) -> Option<(u8, Request)> {
    if frame.len() != WRITE_RESPONSE_LENGTH || !checksum_holds(frame) {
        None
    } else if frame[1] == READ_HOLDING_REGISTERS {
        Some(
            (
                frame[0],
                Request::ReadHoldingRegisters {
                    start: word_of(frame[2], frame[3]),
                    count: word_of(frame[4], frame[5]),
                },
            ),
        )
    } else if frame[1] == WRITE_SINGLE_REGISTER {
        Some(
            (
                frame[0],
                Request::WriteSingleRegister {
                    register: word_of(frame[2], frame[3]),
                    value: word_of(frame[4], frame[5]),
                },
            ),
        )
    } else {
        None
    }
}

/// The number of bytes that a reader still has to wait for, given the bytes
/// of a response that it has: what is short of three bytes, then what is
/// short of the announced length; nothing once the response is whole, or
/// when its length cannot be told.
pub open spec fn missing_after(received: Seq<u8>) -> int {
    match announced_length(received) {
        None => if received.len() < 3 {
            3 - received.len()
        } else {
            0
        },
        Some(length) => if length > received.len() {
            length - received.len()
        } else {
            0
        },
    }
}

/// View of a parser's result.
pub open spec fn words_view(result: Result<Vec<u16>, FrameError>) -> Result<Seq<u16>, FrameError> {
    match result {
        Ok(words) => Ok(words@),
        Err(fault) => Err(fault),
    }
}

fn high(word: u16) -> (byte: u8)
    ensures
        byte == high_byte(word),
{
    (word / 256) as u8
}

fn low(word: u16) -> (byte: u8)
    ensures
        byte == low_byte(word),
{
    (word % 256) as u8
}

fn word(high: u8, low: u8) -> (word: u16)
    ensures
        word == word_of(high, low),
{
    (high as u16) * 256 + (low as u16)
}

/// Appends the checksum of what `frame` holds.
fn seal(frame: &mut Vec<u8>)
    ensures
        final(frame)@ == sealed(old(frame)@),
{
    let crc = checksum(frame.as_slice(), frame.len());
    assert(frame@.take(frame@.len() as int) =~= frame@);
    frame.push(low(crc));
    frame.push(high(crc));
}

/// Builds the request to read `count` registers from `start` on.
pub fn build_read_request(slave: u8, start: u16, count: u16) -> (frame: Vec<u8>)
    ensures
        frame@ == read_request(slave, start, count),
        frame@.len() == 8,
{
    let mut frame: Vec<u8> = Vec::new();
    frame.push(slave);
    frame.push(READ_HOLDING_REGISTERS);
    frame.push(high(start));
    frame.push(low(start));
    frame.push(high(count));
    frame.push(low(count));
    assert(frame@ =~= seq![
        slave,
        READ_HOLDING_REGISTERS,
        high_byte(start),
        low_byte(start),
        high_byte(count),
        low_byte(count),
    ]);
    seal(&mut frame);
    frame
}

/// Builds the request to write `value` to `register`.
pub fn build_write_request(slave: u8, register: u16, value: u16) -> (frame: Vec<u8>)
    ensures
        frame@ == write_request(slave, register, value),
        frame@.len() == 8,
{
    let mut frame: Vec<u8> = Vec::new();
    frame.push(slave);
    frame.push(WRITE_SINGLE_REGISTER);
    frame.push(high(register));
    frame.push(low(register));
    frame.push(high(value));
    frame.push(low(value));
    assert(frame@ =~= seq![
        slave,
        WRITE_SINGLE_REGISTER,
        high_byte(register),
        low_byte(register),
        high_byte(value),
        low_byte(value),
    ]);
    seal(&mut frame);
    frame
}

impl Request {
    /// The frame that carries this request to `slave`.
    pub open spec fn frame(self, slave: u8) -> Seq<u8> {
        match self {
            Request::ReadHoldingRegisters { start, count } => read_request(slave, start, count),
            Request::WriteSingleRegister { register, value } => write_request(
                slave,
                register,
                value,
            ),
        }
    }

    /// Builds the frame that carries this request to `slave`.
    pub fn encode(&self, slave: u8) -> (frame: Vec<u8>)
        ensures
            frame@ == self.frame(slave),
            frame@.len() == 8,
            frame@[0] == slave,
    {
        match *self {
            Request::ReadHoldingRegisters { start, count } => build_read_request(
                slave,
                start,
                count,
            ),
            Request::WriteSingleRegister { register, value } => build_write_request(
                slave,
                register,
                value,
            ),
        }
    }

    /// The request in words.
    pub open spec fn text(self) -> Seq<char> {
        match self {
            Request::ReadHoldingRegisters { start, count } => "read of "@ + decimal_of(
                count as nat,
            ) + " register(s) at 0x"@ + hex_of(start),
            Request::WriteSingleRegister { register, value } => "write of 0x"@ + hex_of(value)
                + " to register 0x"@ + hex_of(register),
        }
    }

    /// Appends the request in words.
    pub fn push_text(&self, text: &mut String)
        ensures
            final(text)@ == old(text)@ + self.text(),
    {
        match *self {
            Request::ReadHoldingRegisters { start, count } => {
                text.append("read of ");
                push_decimal(text, count as u64);
                text.append(" register(s) at 0x");
                push_hex(text, start);
            },
            Request::WriteSingleRegister { register, value } => {
                text.append("write of 0x");
                push_hex(text, value);
                text.append(" to register 0x");
                push_hex(text, register);
            },
        }
        assert(text@ =~= old(text)@ + self.text());
    }
}

impl FrameError {
    /// The reason in words.
    pub open spec fn text(self) -> Seq<char> {
        match self {
            FrameError::Truncated => "response too short"@,
            FrameError::ChecksumMismatch { computed, carried } => "invalid CRC: expected = 0x"@
                + hex_of(computed) + ", actual = 0x"@ + hex_of(carried),
            FrameError::AddressMismatch { asked, answered } => "response from address "@
                + decimal_of(answered as nat) + " instead of "@ + decimal_of(asked as nat),
            FrameError::FunctionMismatch { requested, returned } => "response to function 0x"@
                + hex_of(returned as u16) + " instead of 0x"@ + hex_of(requested as u16),
            FrameError::Exception { function, code } => "device exception, code "@ + decimal_of(
                code as nat,
            ),
            FrameError::Malformed => "response of unexpected length"@,
            FrameError::CountMismatch { registers, data_bytes } => decimal_of(data_bytes as nat)
                + " data byte(s) for "@ + decimal_of(registers as nat) + " register(s)"@,
            FrameError::EchoMismatch { register, value } => "echo of 0x"@ + hex_of(value)
                + " to register 0x"@ + hex_of(register),
        }
    }

    /// Appends the reason in words.
    pub fn push_text(&self, text: &mut String)
        ensures
            final(text)@ == old(text)@ + self.text(),
    {
        match *self {
            FrameError::Truncated => {
                text.append("response too short");
            },
            FrameError::ChecksumMismatch { computed, carried } => {
                text.append("invalid CRC: expected = 0x");
                push_hex(text, computed);
                text.append(", actual = 0x");
                push_hex(text, carried);
            },
            FrameError::AddressMismatch { asked, answered } => {
                text.append("response from address ");
                push_decimal(text, answered as u64);
                text.append(" instead of ");
                push_decimal(text, asked as u64);
            },
            FrameError::FunctionMismatch { requested, returned } => {
                text.append("response to function 0x");
                push_hex(text, returned as u16);
                text.append(" instead of 0x");
                push_hex(text, requested as u16);
            },
            FrameError::Exception { function: _, code } => {
                text.append("device exception, code ");
                push_decimal(text, code as u64);
            },
            FrameError::Malformed => {
                text.append("response of unexpected length");
            },
            FrameError::CountMismatch { registers, data_bytes } => {
                push_decimal(text, data_bytes as u64);
                text.append(" data byte(s) for ");
                push_decimal(text, registers as u64);
                text.append(" register(s)");
            },
            FrameError::EchoMismatch { register, value } => {
                text.append("echo of 0x");
                push_hex(text, value);
                text.append(" to register 0x");
                push_hex(text, register);
            },
        }
        assert(text@ =~= old(text)@ + self.text());
    }
}

/// Checks the envelope of a response: length, checksum, address, function.
fn check_envelope(frame: &[u8], slave: u8, function: u8) -> (fault: Option<FrameError>)
    requires
        function < EXCEPTION_FLAG,
    ensures
        fault == envelope_fault(frame@, slave, function),
{
    let len = frame.len();
    if len < SHORTEST_RESPONSE {
        return Some(FrameError::Truncated);
    }
    let computed = checksum(frame, len - 2);
    let carried = word(frame[len - 1], frame[len - 2]);
    if computed != carried {
        return Some(FrameError::ChecksumMismatch { computed, carried });
    }
    if frame[0] != slave {
        return Some(FrameError::AddressMismatch { asked: slave, answered: frame[0] });
    }
    if frame[1] == function + EXCEPTION_FLAG {
        if len == SHORTEST_RESPONSE {
            return Some(FrameError::Exception { function, code: frame[2] });
        }
        return Some(FrameError::Malformed);
    }
    if frame[1] != function {
        return Some(FrameError::FunctionMismatch { requested: function, returned: frame[1] });
    }
    None
}

/// Parses the response to a read of `count` registers sent to `slave`.
///
/// Succeeds exactly on the well-formed response that carries `count` values,
/// and returns them in address order.
pub fn parse_read_response(frame: &[u8], slave: u8, count: u16) -> (result: Result<
    Vec<u16>,
    FrameError,
>)
    ensures
        words_view(result) == read_reply(frame@, slave, count),
        result matches Ok(values) ==> values@.len() == count,
{
    if let Some(fault) = check_envelope(frame, slave, READ_HOLDING_REGISTERS) {
        return Err(fault);
    }
    let len = frame.len();
    let announced = frame[2];
    if announced as usize != len - SHORTEST_RESPONSE {
        return Err(FrameError::Malformed);
    }
    if announced as u32 != 2 * (count as u32) {
        return Err(FrameError::CountMismatch { registers: count, data_bytes: announced });
    }
    let ghost data = frame@.subrange(3, len - 2);
    let mut values: Vec<u16> = Vec::new();
    let mut i: usize = 0;
    while i < count as usize
        invariant
            i <= count,
            len == frame@.len(),
            len == 2 * count + SHORTEST_RESPONSE,
            data == frame@.subrange(3, len - 2),
            values@.len() == i,
            forall|j: int| 0 <= j < i ==> values@[j] == word_of(data[2 * j], data[2 * j + 1]),
        decreases count - i,
    {
        values.push(word(frame[3 + 2 * i], frame[4 + 2 * i]));
        i = i + 1;
    }
    assert(values@ =~= words_of_bytes(data));
    Ok(values)
}

/// Parses the response to a write of `value` to `register` sent to `slave`.
///
/// Succeeds exactly on the well-formed echo of the request.
pub fn parse_write_response(frame: &[u8], slave: u8, register: u16, value: u16) -> (result: Result<
    (),
    FrameError,
>)
    ensures
        result == write_reply(frame@, slave, register, value),
{
    if let Some(fault) = check_envelope(frame, slave, WRITE_SINGLE_REGISTER) {
        return Err(fault);
    }
    if frame.len() != WRITE_RESPONSE_LENGTH {
        return Err(FrameError::Malformed);
    }
    let echoed_register = word(frame[2], frame[3]);
    let echoed_value = word(frame[4], frame[5]);
    if echoed_register != register || echoed_value != value {
        return Err(FrameError::EchoMismatch { register: echoed_register, value: echoed_value });
    }
    Ok(())
}

/// Parses a request, as the device at the other end of the line does:
/// returns the bus address that the request is sent to and the request, or
/// `None` for anything that is not a well-formed request.
pub fn parse_request(frame: &[u8]) -> (request: Option<(u8, Request)>)
    ensures
        request == request_of(frame@),
{
    let len = frame.len();
    if len != WRITE_RESPONSE_LENGTH {
        return None;
    }
    let computed = checksum(frame, len - 2);
    let carried = word(frame[len - 1], frame[len - 2]);
    if computed != carried {
        return None;
    }
    let first = word(frame[2], frame[3]);
    let second = word(frame[4], frame[5]);
    if frame[1] == READ_HOLDING_REGISTERS {
        Some((frame[0], Request::ReadHoldingRegisters { start: first, count: second }))
    } else if frame[1] == WRITE_SINGLE_REGISTER {
        Some((frame[0], Request::WriteSingleRegister { register: first, value: second }))
    } else {
        None
    }
}

/// Tells from the first bytes of a response how long the whole response is,
/// so that a reader knows when it has it all. `None` while fewer than three
/// bytes are at hand, and for a function code that this codec does not speak.
pub fn response_length(head: &[u8]) -> (length: Option<usize>)
    ensures
        match length {
            Some(n) => announced_length(head@) == Some(n as int),
            None => announced_length(head@) is None,
        },
{
    if head.len() < 3 {
        None
    } else if head[1] >= EXCEPTION_FLAG {
        Some(SHORTEST_RESPONSE)
    } else if head[1] == READ_HOLDING_REGISTERS {
        Some(SHORTEST_RESPONSE + head[2] as usize)
    } else if head[1] == WRITE_SINGLE_REGISTER {
        Some(WRITE_RESPONSE_LENGTH)
    } else {
        None
    }
}

/// Tells how many bytes a reader still has to wait for, given the bytes of
/// a response that it has. Reading that many and asking again, a reader
/// ends with the whole response and not a byte of what may follow it.
pub fn bytes_missing(received: &[u8]) -> (missing: usize)
    ensures
        missing == missing_after(received@),
{
    match response_length(received) {
        None => if received.len() < 3 {
            3 - received.len()
        } else {
            0
        },
        Some(length) => if length > received.len() {
            length - received.len()
        } else {
            0
        },
    }
}

/// Builds the response that carries `values`: what a device sends back on a
/// read.
pub fn build_read_response(slave: u8, values: &[u16]) -> (frame: Vec<u8>)
    requires
        values@.len() <= MOST_REGISTERS,
    ensures
        frame@ == read_response(slave, values@),
{
    let mut frame: Vec<u8> = Vec::new();
    frame.push(slave);
    frame.push(READ_HOLDING_REGISTERS);
    frame.push((2 * values.len()) as u8);
    let mut i: usize = 0;
    while i < values.len()
        invariant
            i <= values@.len() <= MOST_REGISTERS,
            frame@.len() == 3 + 2 * i,
            frame@.take(3) == seq![slave, READ_HOLDING_REGISTERS, (2 * values@.len()) as u8],
            forall|j: int| 0 <= j < 2 * i ==> frame@[3 + j] == bytes_of_words(values@)[j],
        decreases values@.len() - i,
    {
        let ghost before = frame@;
        frame.push(high(values[i]));
        frame.push(low(values[i]));
        assert(frame@.take(3) =~= before.take(3));
        i = i + 1;
    }
    assert(frame@ =~= frame@.take(3) + bytes_of_words(values@));
    seal(&mut frame);
    frame
}

/// Builds the response by which a device refuses a request.
pub fn build_exception_response(slave: u8, function: u8, code: u8) -> (frame: Vec<u8>)
    requires
        function < EXCEPTION_FLAG,
    ensures
        frame@ == exception_response(slave, function, code),
        frame@.len() == SHORTEST_RESPONSE,
{
    let mut frame: Vec<u8> = Vec::new();
    frame.push(slave);
    frame.push(function + EXCEPTION_FLAG);
    frame.push(code);
    assert(frame@ =~= seq![slave, (function + EXCEPTION_FLAG) as u8, code]);
    seal(&mut frame);
    frame
}

/// A word and its two bytes determine each other.
pub proof fn word_bytes_round_trip(word: u16, high: u8, low: u8)
    ensures
        word_of(high_byte(word), low_byte(word)) == word,
        high_byte(word_of(high, low)) == high,
        low_byte(word_of(high, low)) == low,
{
}

/// Words and their big-endian bytes determine each other.
pub proof fn words_bytes_round_trip(words: Seq<u16>)
    ensures
        bytes_of_words(words).len() == 2 * words.len(),
        words_of_bytes(bytes_of_words(words)) == words,
{
    let bytes = bytes_of_words(words);
    assert forall|i: int| 0 <= i < words.len() implies word_of(bytes[2 * i], bytes[2 * i + 1])
        == words[i] by {
        assert((2 * i) % 2 == 0 && (2 * i) / 2 == i);
        assert((2 * i + 1) % 2 == 1 && (2 * i + 1) / 2 == i);
    }
    assert(words_of_bytes(bytes) =~= words);
}

/// An even number of bytes and the big-endian words they form determine each
/// other.
pub proof fn bytes_words_round_trip(bytes: Seq<u8>)
    requires
        bytes.len() % 2 == 0,
    ensures
        words_of_bytes(bytes).len() * 2 == bytes.len(),
        bytes_of_words(words_of_bytes(bytes)) == bytes,
{
    let words = words_of_bytes(bytes);
    assert forall|j: int| 0 <= j < bytes.len() implies bytes_of_words(words)[j] == bytes[j] by {
        if j % 2 == 0 {
            assert(2 * (j / 2) == j);
        } else {
            assert(2 * (j / 2) + 1 == j);
        }
    }
    assert(bytes_of_words(words) =~= bytes);
}

/// Sealing appends two bytes, and the sealed frame carries the checksum of
/// what was sealed.
pub proof fn sealed_frame_checks(content: Seq<u8>)
    ensures
        sealed(content).len() == content.len() + 2,
        content_of(sealed(content)) == content,
        trailer_of(sealed(content)) == crc16(content),
        checksum_holds(sealed(content)),
{
    assert(content_of(sealed(content)) =~= content);
}

/// A frame whose checksum holds is the sealing of its content.
pub proof fn checked_frame_is_sealed(frame: Seq<u8>)
    requires
        checksum_holds(frame),
    ensures
        frame == sealed(content_of(frame)),
{
    assert(frame =~= sealed(content_of(frame)));
}

/// The parts of a read response: its length, its three leading bytes, its
/// data, and the checksum that holds.
pub proof fn read_response_parts(slave: u8, values: Seq<u16>)
    requires
        values.len() <= MOST_REGISTERS,
    ensures
        read_response(slave, values).len() == SHORTEST_RESPONSE + 2 * values.len(),
        read_response(slave, values)[0] == slave,
        read_response(slave, values)[1] == READ_HOLDING_REGISTERS,
        read_response(slave, values)[2] == 2 * values.len(),
        read_response(slave, values).subrange(3, read_response(slave, values).len() - 2)
            == bytes_of_words(values),
        checksum_holds(read_response(slave, values)),
{
    let head = seq![slave, READ_HOLDING_REGISTERS, (2 * values.len()) as u8];
    let data = bytes_of_words(values);
    let frame = read_response(slave, values);
    sealed_frame_checks(head + data);
    assert(frame.len() == 3 + data.len() + 2);
    assert(frame[0] == head[0]);
    assert(frame[1] == head[1]);
    assert(frame[2] == head[2]);
    assert(frame.subrange(3, frame.len() - 2) =~= data);
}

/// A request and its frame determine each other: the device reads out of a
/// request frame the address and the request that went into it, and a frame
/// that reads as a request is the frame of that request.
pub proof fn request_round_trip(slave: u8, request: Request, frame: Seq<u8>)
    ensures
        request.frame(slave).len() == 8,
        request.frame(slave)[0] == slave,
        request_of(request.frame(slave)) == Some((slave, request)),
        request_of(frame) == Some((slave, request)) ==> frame == request.frame(slave),
{
    match request {
        Request::ReadHoldingRegisters { start, count } => {
            sealed_frame_checks(
                seq![
                    slave,
                    READ_HOLDING_REGISTERS,
                    high_byte(start),
                    low_byte(start),
                    high_byte(count),
                    low_byte(count),
                ],
            );
        },
        Request::WriteSingleRegister { register, value } => {
            sealed_frame_checks(
                seq![
                    slave,
                    WRITE_SINGLE_REGISTER,
                    high_byte(register),
                    low_byte(register),
                    high_byte(value),
                    low_byte(value),
                ],
            );
        },
    }
    if request_of(frame) == Some((slave, request)) {
        checked_frame_is_sealed(frame);
        assert(content_of(frame) =~= content_of(request.frame(slave)));
    }
}

/// A well-formed read response is accepted by the reader that asked for as
/// many registers as it carries, and yields exactly the values it carries.
pub proof fn read_response_is_accepted(slave: u8, values: Seq<u16>)
    requires
        values.len() <= MOST_REGISTERS,
    ensures
        read_reply(read_response(slave, values), slave, values.len() as u16) == Ok::<
            Seq<u16>,
            FrameError,
        >(values),
{
    read_response_parts(slave, values);
    words_bytes_round_trip(values);
}

/// Only the well-formed read response is accepted: whatever the parser
/// accepts is the response format applied to the values returned, and those
/// are as many as were asked for.
pub proof fn accepted_read_response_is_well_formed(frame: Seq<u8>, slave: u8, count: u16)
    requires
        read_reply(frame, slave, count) is Ok,
    ensures
        read_reply(frame, slave, count)->Ok_0.len() == count,
        count <= MOST_REGISTERS,
        frame == read_response(slave, read_reply(frame, slave, count)->Ok_0),
{
    let values = read_reply(frame, slave, count)->Ok_0;
    let data = frame.subrange(3, frame.len() - 2);
    assert(data.len() == 2 * count);
    bytes_words_round_trip(data);
    checked_frame_is_sealed(frame);
    let head = seq![slave, READ_HOLDING_REGISTERS, (2 * values.len()) as u8];
    assert(content_of(frame) =~= head + data);
}

/// The echo of a write is accepted by the writer that sent it, and nothing
/// else is: an accepted response is the echo, byte for byte.
pub proof fn write_response_is_accepted(frame: Seq<u8>, slave: u8, register: u16, value: u16)
    ensures
        write_reply(write_response(slave, register, value), slave, register, value) == Ok::<
            (),
            FrameError,
        >(()),
        write_reply(frame, slave, register, value) is Ok ==> frame == write_response(
            slave,
            register,
            value,
        ),
{
    let content = seq![
        slave,
        WRITE_SINGLE_REGISTER,
        high_byte(register),
        low_byte(register),
        high_byte(value),
        low_byte(value),
    ];
    sealed_frame_checks(content);
    if write_reply(frame, slave, register, value) is Ok {
        checked_frame_is_sealed(frame);
        assert(content_of(frame) =~= content);
    }
}

/// An echo of another register or value than was written is a protocol
/// error, although its checksum holds.
pub proof fn wrong_echo_is_rejected(
    slave: u8,
    register: u16,
    value: u16,
    echoed_register: u16,
    echoed_value: u16,
)
    requires
        echoed_register != register || echoed_value != value,
    ensures
        checksum_holds(write_response(slave, echoed_register, echoed_value)),
        write_reply(write_response(slave, echoed_register, echoed_value), slave, register, value)
            == Err::<(), FrameError>(
            FrameError::EchoMismatch { register: echoed_register, value: echoed_value },
        ),
{
    let content = seq![
        slave,
        WRITE_SINGLE_REGISTER,
        high_byte(echoed_register),
        low_byte(echoed_register),
        high_byte(echoed_value),
        low_byte(echoed_value),
    ];
    sealed_frame_checks(content);
}

/// An exception response is reported as the device's refusal, with its code,
/// to the reader and to the writer alike.
pub proof fn exception_is_reported(slave: u8, code: u8, count: u16, register: u16, value: u16)
    ensures
        read_reply(exception_response(slave, READ_HOLDING_REGISTERS, code), slave, count) == Err::<
            Seq<u16>,
            FrameError,
        >(FrameError::Exception { function: READ_HOLDING_REGISTERS, code }),
        write_reply(
            exception_response(slave, WRITE_SINGLE_REGISTER, code),
            slave,
            register,
            value,
        ) == Err::<(), FrameError>(
            FrameError::Exception { function: WRITE_SINGLE_REGISTER, code },
        ),
{
    sealed_frame_checks(seq![slave, (READ_HOLDING_REGISTERS + EXCEPTION_FLAG) as u8, code]);
    sealed_frame_checks(seq![slave, (WRITE_SINGLE_REGISTER + EXCEPTION_FLAG) as u8, code]);
}

/// A response with any one bit inverted is rejected for its checksum,
/// whatever else it holds, and wherever the bit is: in the address, the
/// function code, the payload, or the checksum itself.
pub proof fn damaged_response_is_rejected(
    frame: Seq<u8>,
    position: int,
    bit: u8,
    slave: u8,
    count: u16,
    register: u16,
    value: u16,
)
    requires
        frame.len() >= SHORTEST_RESPONSE,
        checksum_holds(frame),
        0 <= position < frame.len(),
        bit < 8,
    ensures
        !checksum_holds(with_bit_flipped(frame, position, bit)),
        read_reply(with_bit_flipped(frame, position, bit), slave, count) matches Err(
            FrameError::ChecksumMismatch { .. },
        ),
        write_reply(with_bit_flipped(frame, position, bit), slave, register, value) matches Err(
            FrameError::ChecksumMismatch { .. },
        ),
{
    let damaged = with_bit_flipped(frame, position, bit);
    if position < frame.len() - 2 {
        flipped_bit_changes_checksum(content_of(frame), position, bit);
        assert(content_of(damaged) =~= with_bit_flipped(content_of(frame), position, bit));
    } else {
        let byte = frame[position];
        assert(byte ^ (1u8 << bit) != byte) by (bit_vector)
            requires
                bit < 8,
        ;
        assert(content_of(damaged) =~= content_of(frame));
    }
}

/// A response from another bus address, or to another function, is rejected:
/// what is accepted bears the address and the function code of the request.
pub proof fn foreign_response_is_rejected(
    frame: Seq<u8>,
    slave: u8,
    count: u16,
    register: u16,
    value: u16,
)
    ensures
        read_reply(frame, slave, count) is Ok ==> frame[0] == slave && frame[1]
            == READ_HOLDING_REGISTERS,
        write_reply(frame, slave, register, value) is Ok ==> frame[0] == slave && frame[1]
            == WRITE_SINGLE_REGISTER,
        frame.len() >= SHORTEST_RESPONSE && checksum_holds(frame) && frame[0] != slave ==> {
            let fault = FrameError::AddressMismatch { asked: slave, answered: frame[0] };
            &&& read_reply(frame, slave, count) == Err::<Seq<u16>, FrameError>(fault)
            &&& write_reply(frame, slave, register, value) == Err::<(), FrameError>(fault)
        },
        frame.len() >= SHORTEST_RESPONSE && checksum_holds(frame) && frame[0] == slave && frame[1]
            < EXCEPTION_FLAG ==> {
            &&& frame[1] != READ_HOLDING_REGISTERS ==> read_reply(frame, slave, count) == Err::<
                Seq<u16>,
                FrameError,
            >(
                FrameError::FunctionMismatch {
                    requested: READ_HOLDING_REGISTERS,
                    returned: frame[1],
                },
            )
            &&& frame[1] != WRITE_SINGLE_REGISTER ==> write_reply(frame, slave, register, value)
                == Err::<(), FrameError>(
                FrameError::FunctionMismatch {
                    requested: WRITE_SINGLE_REGISTER,
                    returned: frame[1],
                },
            )
        },
{
}

/// The first three bytes of any response of this codec announce its length.
pub proof fn response_announces_its_length(
    slave: u8,
    values: Seq<u16>,
    register: u16,
    value: u16,
    function: u8,
    code: u8,
)
    requires
        values.len() <= MOST_REGISTERS,
        function < EXCEPTION_FLAG,
    ensures
        announced_length(read_response(slave, values).take(3)) == Some(
            read_response(slave, values).len() as int,
        ),
        announced_length(write_response(slave, register, value).take(3)) == Some(
            write_response(slave, register, value).len() as int,
        ),
        announced_length(exception_response(slave, function, code).take(3)) == Some(
            exception_response(slave, function, code).len() as int,
        ),
{
    let read_head = seq![slave, READ_HOLDING_REGISTERS, (2 * values.len()) as u8];
    let read = read_response(slave, values);
    assert(read.len() == SHORTEST_RESPONSE + 2 * values.len());
    assert(read.take(3) =~= read_head);
    assert(announced_length(read_head) == Some(read.len() as int));

    let write = write_response(slave, register, value);
    assert(write.len() == WRITE_RESPONSE_LENGTH);
    assert(write.take(3) =~= seq![slave, WRITE_SINGLE_REGISTER, high_byte(register)]);

    let refusal_head = seq![slave, (function + EXCEPTION_FLAG) as u8, code];
    let refusal = exception_response(slave, function, code);
    assert(refusal.len() == SHORTEST_RESPONSE);
    assert(refusal.take(3) =~= refusal_head);
}

/// A reader that waits for what is missing gets the response whole: of any
/// response whose first three bytes announce its length, every proper
/// beginning is short by some bytes, and by no more than are left of the
/// response; and the whole response is short by none.
pub proof fn response_is_read_whole(frame: Seq<u8>, received: int)
    requires
        frame.len() >= 3,
        announced_length(frame.take(3)) == Some(frame.len() as int),
        0 <= received <= frame.len(),
    ensures
        received < frame.len() ==> 0 < missing_after(frame.take(received)) <= frame.len()
            - received,
        missing_after(frame) == 0,
{
    assert(frame.take(frame.len() as int) =~= frame);
    if received >= 3 {
        let head = frame.take(received);
        assert(head[1] == frame.take(3)[1]);
        assert(head[2] == frame.take(3)[2]);
    }
    assert(frame[1] == frame.take(3)[1]);
    assert(frame[2] == frame.take(3)[2]);
}

} // verus!

//! Transport session: the bus address, the timeout, and the meaning of
//! whatever comes back from one exchange.
//!
//! The session never touches the serial line. It says which bytes to send,
//! and takes what the line gave in return: a frame, silence until the
//! timeout, or a failure of the link. One exchange is in flight at a time;
//! nothing is buffered, pipelined or retried.
//!
//! When an exchange times out, the wait is abandoned, but the request was
//! sent: the controller may still act on it. The session promises nothing
//! about the controller's state after a timeout.

use crate::error::{ErrorKind, ExchangeFault, Jpf4826Error};
use crate::frame::{
    build_read_request, build_write_request, parse_read_response, parse_write_response,
    read_reply, read_request, write_reply, write_request, Request,
};
use vstd::prelude::*;

verus! {

/// Bound, in milliseconds, that a new session puts on each exchange: ten
/// seconds.
pub const DEFAULT_TIMEOUT: u64 = 10_000;

/// What the serial line gave in return for a request.
#[derive(Debug)]
pub enum Reply {
    /// The bytes of one response.
    Frame(Vec<u8>),
    /// Nothing complete arrived within the timeout.
    TimedOut,
    /// The link failed; the text is the cause as the link gave it.
    LinkFailed(String),
}

/// Mathematical content of a [`Reply`].
pub enum ReplyView {
    Frame(Seq<u8>),
    TimedOut,
    LinkFailed(String),
}

impl View for Reply {
    type V = ReplyView;

    open spec fn view(&self) -> ReplyView {
        match *self {
            Reply::Frame(bytes) => ReplyView::Frame(bytes@),
            Reply::TimedOut => ReplyView::TimedOut,
            Reply::LinkFailed(cause) => ReplyView::LinkFailed(cause),
        }
    }
}

/// Session with one controller on the bus.
#[derive(Debug)]
pub struct ModbusRtuClient {
    slave_addr: u8,
    timeout: u64,
}

/// What a read of `count` registers from `start` on comes to, given what the
/// line returned: the values, or the failure to report.
pub open spec fn read_outcome(
    slave: u8,
    timeout: u64,
    start: u16,
    count: u16,
    reply: ReplyView,
) -> Result<Seq<u16>, ErrorKind> {
    let request = Request::ReadHoldingRegisters { start, count };
    match reply {
        ReplyView::TimedOut => Err(ErrorKind::Timeout { request, millis: timeout }),
        ReplyView::LinkFailed(cause) => Err(
            ErrorKind::Modbus { request, fault: ExchangeFault::Link(cause) },
        ),
        ReplyView::Frame(bytes) => match read_reply(bytes, slave, count) {
            Ok(values) => Ok(values),
            Err(fault) => Err(ErrorKind::Modbus { request, fault: ExchangeFault::Frame(fault) }),
        },
    }
}

/// What a write of `value` to `register` comes to, given what the line
/// returned: success, or the failure to report.
pub open spec fn write_outcome(
    slave: u8,
    timeout: u64,
    register: u16,
    value: u16,
    reply: ReplyView,
) -> Result<(), ErrorKind> {
    let request = Request::WriteSingleRegister { register, value };
    match reply {
        ReplyView::TimedOut => Err(ErrorKind::Timeout { request, millis: timeout }),
        ReplyView::LinkFailed(cause) => Err(
            ErrorKind::Modbus { request, fault: ExchangeFault::Link(cause) },
        ),
        ReplyView::Frame(bytes) => match write_reply(bytes, slave, register, value) {
            Ok(()) => Ok(()),
            Err(fault) => Err(ErrorKind::Modbus { request, fault: ExchangeFault::Frame(fault) }),
        },
    }
}

impl ModbusRtuClient {
    /// The bus address that requests are sent to.
    pub closed spec fn spec_slave_addr(&self) -> u8 {
        self.slave_addr
    }

    /// The bound on each exchange, in milliseconds.
    pub closed spec fn spec_timeout(&self) -> u64 {
        self.timeout
    }

    /// Starts a session with the controller at `slave_addr`, with the
    /// default timeout.
    pub fn new(slave_addr: u8) -> (session: Self)
        ensures
            session.slave_addr() == slave_addr,
            session.timeout() == DEFAULT_TIMEOUT,
    {
        ModbusRtuClient { slave_addr, timeout: DEFAULT_TIMEOUT }
    }

    /// Returns the bound on each exchange, in milliseconds.
    #[verifier::when_used_as_spec(spec_timeout)]
    pub fn timeout(&self) -> (millis: u64)
        ensures
            millis == self.timeout(),
    {
        self.timeout
    }

    /// Sets the bound on each exchange that follows, in milliseconds.
    pub fn set_timeout(&mut self, millis: u64)
        ensures
            final(self).timeout() == millis,
            final(self).slave_addr() == old(self).slave_addr(),
    {
        self.timeout = millis;
    }

    /// Returns the bus address that requests are sent to.
    #[verifier::when_used_as_spec(spec_slave_addr)]
    pub fn slave_addr(&self) -> (addr: u8)
        ensures
            addr == self.slave_addr(),
    {
        self.slave_addr
    }

    /// Sets the bus address that requests are sent to. The session never
    /// learns the address from the wire: call this once, after a write to
    /// the controller's address register was confirmed.
    pub fn set_slave_addr(&mut self, addr: u8)
        ensures
            final(self).slave_addr() == addr,
            final(self).timeout() == old(self).timeout(),
    {
        self.slave_addr = addr;
    }

    /// Builds the frame that asks for `count` registers from `addr` on.
    pub fn read_request(&self, addr: u16, count: u16) -> (frame: Vec<u8>)
        ensures
            frame@ == read_request(self.slave_addr(), addr, count),
    {
        build_read_request(self.slave_addr, addr, count)
    }

    /// Builds the frame that writes `value` to the register `addr`.
    pub fn write_request(&self, addr: u16, value: u16) -> (frame: Vec<u8>)
        ensures
            frame@ == write_request(self.slave_addr(), addr, value),
    {
        build_write_request(self.slave_addr, addr, value)
    }

    /// Concludes a read of `count` registers from `addr` on, given what the
    /// line returned for the request.
    ///
    /// Returns the `count` values in address order when the response is the
    /// well-formed answer of this session's controller; reports a timeout
    /// with the bound that was in force; and reports everything else as a
    /// failure of the exchange, with the request and the cause.
    pub fn read_holding_registers(&self, addr: u16, count: u16, reply: Reply) -> (result: Result<
        Vec<u16>,
        Jpf4826Error,
    >)
        ensures
            match result {
                Ok(values) => read_outcome(self.slave_addr(), self.timeout(), addr, count, reply@)
                    == Ok::<Seq<u16>, ErrorKind>(values@) && values@.len() == count,
                Err(error) => read_outcome(self.slave_addr(), self.timeout(), addr, count, reply@)
                    == Err::<Seq<u16>, ErrorKind>(*error.kind()),
            },
    {
        let request = Request::ReadHoldingRegisters { start: addr, count };
        match reply {
            Reply::TimedOut => Err(Jpf4826Error::timeout(request, self.timeout)),
            Reply::LinkFailed(cause) => Err(
                Jpf4826Error::modbus(request, ExchangeFault::Link(cause)),
            ),
            Reply::Frame(bytes) => match parse_read_response(
                bytes.as_slice(),
                self.slave_addr,
                count,
            ) {
                Ok(values) => Ok(values),
                Err(fault) => Err(Jpf4826Error::modbus(request, ExchangeFault::Frame(fault))),
            },
        }
    }

    /// Concludes a write of `value` to the register `addr`, given what the
    /// line returned for the request.
    ///
    /// Succeeds when the response is the echo of the request by this
    /// session's controller. An echo of another register or value is a
    /// failure even though its checksum holds.
    pub fn write_single_register(&self, addr: u16, value: u16, reply: Reply) -> (result: Result<
        (),
        Jpf4826Error,
    >)
        ensures
            match result {
                Ok(()) => write_outcome(self.slave_addr(), self.timeout(), addr, value, reply@)
                    == Ok::<(), ErrorKind>(()),
                Err(error) => write_outcome(self.slave_addr(), self.timeout(), addr, value, reply@)
                    == Err::<(), ErrorKind>(*error.kind()),
            },
    {
        let request = Request::WriteSingleRegister { register: addr, value };
        match reply {
            Reply::TimedOut => Err(Jpf4826Error::timeout(request, self.timeout)),
            Reply::LinkFailed(cause) => Err(
                Jpf4826Error::modbus(request, ExchangeFault::Link(cause)),
            ),
            Reply::Frame(bytes) => match parse_write_response(
                bytes.as_slice(),
                self.slave_addr,
                addr,
                value,
            ) {
                Ok(()) => Ok(()),
                Err(fault) => Err(Jpf4826Error::modbus(request, ExchangeFault::Frame(fault))),
            },
        }
    }
}

} // verus!

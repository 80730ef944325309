//! A simulated controller: an in-memory register table that answers
//! request frames the way the device does.
//!
//! It stands in for the serial line and the device behind it, so that whole
//! operations of the client can be run, tested and reasoned about without
//! hardware. It answers at once; it keeps silent, as a device does, when a
//! frame is damaged or addressed to somebody else, and the client then sees
//! a timeout.

use crate::client::{operation_makes_progress, threshold_in_range, Jpf4826Client};
use crate::conversions::{celsius_of_register, fan_bit, parse_fan_status_bitmap};
use crate::error::{ErrorKind, Jpf4826Error};
use crate::frame::{
    build_exception_response, build_read_response, build_write_request, exception_response,
    parse_request, read_response, read_response_is_accepted, request_of, request_round_trip,
    write_response, write_response_is_accepted, Request, READ_HOLDING_REGISTERS,
};
use crate::modbus::{read_outcome, write_outcome, Reply, ReplyView};
use crate::operation::{
    address_after, after_read, fans_of, low_half, resumed, settings_of, snapshot_of, Outcome,
    OutcomeView, Scope, Speeds, Stage, Step, StepView, STATUS_BLOCK,
};
use crate::registers::RegisterAddress;
use crate::types::{celsius, StatusView};
use std::collections::HashMap;
use vstd::prelude::*;

verus! {

broadcast use vstd::std_specs::hash::group_hash_axioms;

/// Exception code for a read that runs past the end of the address space.
pub const ILLEGAL_DATA_ADDRESS: u8 = 0x02;

/// Exception code for a read of no registers, or of more than a response
/// can carry.
pub const ILLEGAL_DATA_VALUE: u8 = 0x03;

/// Largest number of registers that one read may ask for.
pub const MOST_REGISTERS_PER_READ: u16 = 125;

/// Simulated controller.
#[derive(Debug)]
pub struct MockController {
    registers: HashMap<u16, u16>,
}

impl View for MockController {
    type V = Map<u16, u16>;

    closed spec fn view(&self) -> Map<u16, u16> {
        self.registers@
    }
}

/// The value of a register: what was written to it last, and zero for a
/// register that was never written.
pub open spec fn register_value(table: Map<u16, u16>, addr: u16) -> u16 {
    if table.contains_key(addr) {
        table[addr]
    } else {
        0
    }
}

/// The values of `count` consecutive registers from `start` on.
pub open spec fn registers_from(table: Map<u16, u16>, start: u16, count: u16) -> Seq<u16> {
    Seq::new(count as nat, |i: int| register_value(table, (start + i) as u16))
}

/// The bus address that the controller answers to: the low byte of its
/// address register.
pub open spec fn station(table: Map<u16, u16>) -> u8 {
    low_half(register_value(table, RegisterAddress::ModbusAddress.address()))
}

/// The register table of a controller in a plausible state: 31 degrees, all
/// four fans running at 1400 RPM without fault, bus address 1,
/// temperature-driven, thresholds at 30 and 50 degrees, minimum speed below
/// the start threshold, 25 kHz.
pub open spec fn factory_table() -> Map<u16, u16> {
    map![
        0x0000u16 => 71u16,
        0x0001u16 => 0x000Fu16,
        0x0002u16 => 0x0001u16,
        0x0003u16 => 0xFFFFu16,
        0x0004u16 => 0x465Au16,
        0x0005u16 => 0x0001u16,
        0x0006u16 => 0x0004u16,
        0x0007u16 => 1400u16,
        0x0008u16 => 1400u16,
        0x0009u16 => 1400u16,
        0x000Au16 => 1400u16,
        0x000Bu16 => 0x0005u16,
        0x000Cu16 => 70u16,
        0x000Du16 => 90u16,
        0x000Eu16 => 0x000Fu16,
    ]
}

/// The weight of the bit that belongs to fan `fan` (1 to 4).
pub open spec fn fan_weight(fan: int) -> int {
    if fan == 1 {
        1
    } else if fan == 2 {
        2
    } else if fan == 3 {
        4
    } else {
        8
    }
}

/// `bitmap` with the bit of fan `fan` (1 to 4) set or cleared, and every
/// other bit as it was.
pub open spec fn with_fan_bit(bitmap: u16, fan: int, on: bool) -> int {
    if fan_bit(bitmap, fan) == on {
        bitmap as int
    } else if on {
        bitmap + fan_weight(fan)
    } else {
        bitmap - fan_weight(fan)
    }
}

/// What the controller answers to the bytes of a request: the response
/// frame, or silence, which the client sees as a timeout.
///
/// Silence is the answer to whatever is not a well-formed request, and to a
/// request for another bus address. A read of no registers, or of more than
/// 125, is refused as an illegal value; a read that runs past the last
/// register is refused as an illegal address.
pub open spec fn answer(table: Map<u16, u16>, frame: Seq<u8>) -> ReplyView {
    match request_of(frame) {
        None => ReplyView::TimedOut,
        Some((slave, request)) => if slave != station(table) {
            ReplyView::TimedOut
        } else {
            match request {
                Request::ReadHoldingRegisters { start, count } => if count == 0 || count
                    > MOST_REGISTERS_PER_READ {
                    ReplyView::Frame(
                        exception_response(slave, READ_HOLDING_REGISTERS, ILLEGAL_DATA_VALUE),
                    )
                } else if start + count > 0x1_0000 {
                    ReplyView::Frame(
                        exception_response(slave, READ_HOLDING_REGISTERS, ILLEGAL_DATA_ADDRESS),
                    )
                } else {
                    ReplyView::Frame(read_response(slave, registers_from(table, start, count)))
                },
                Request::WriteSingleRegister { register, value } => ReplyView::Frame(
                    write_response(slave, register, value),
                ),
            }
        },
    }
}

/// The register table after the controller has dealt with the bytes of a
/// request: a write that is addressed to it takes effect, nothing else does.
pub open spec fn table_after(table: Map<u16, u16>, frame: Seq<u8>) -> Map<u16, u16> {
    match request_of(frame) {
        Some((slave, Request::WriteSingleRegister { register, value })) => if slave == station(
            table,
        ) {
            table.insert(register, value)
        } else {
            table
        },
        _ => table,
    }
}

/// Where an operation ends, for the client and for the controller.
pub struct Ending {
    /// The last step: finished or failed.
    pub step: StepView,
    /// The bus address that the client holds at the end.
    pub slave: u8,
    /// The register table of the controller at the end.
    pub table: Map<u16, u16>,
}

/// Where the operation that stands at `stage` ends, when a client with bus
/// address `slave` and timeout `timeout` runs it against a controller with
/// register table `table`.
///
/// The test on the exchanges that are left makes the definition well
/// founded and nothing else: a following stage always has fewer left.
pub open spec fn run_stage(slave: u8, timeout: u64, table: Map<u16, u16>, stage: Stage) -> Ending
    decreases stage.exchanges_left(),
{
    let frame = stage.request().frame(slave);
    let step = resumed(slave, timeout, stage, answer(table, frame));
    let next_slave = address_after(slave, stage, step);
    let next_table = table_after(table, frame);
    match step {
        StepView::Exchange(next) if next.exchanges_left() < stage.exchanges_left() => run_stage(
            next_slave,
            timeout,
            next_table,
            next,
        ),
        _ => Ending { step, slave: next_slave, table: next_table },
    }
}

/// Where an operation ends that starts with `step`.
pub open spec fn run(slave: u8, timeout: u64, table: Map<u16, u16>, step: StepView) -> Ending {
    match step {
        StepView::Exchange(stage) => run_stage(slave, timeout, table, stage),
        _ => Ending { step, slave, table },
    }
}

impl MockController {
    /// Makes a controller in the state of [`factory_table`].
    pub fn new() -> (controller: Self)
        ensures
            controller@ == factory_table(),
    {
        let mut registers: HashMap<u16, u16> = HashMap::new();
        registers.insert(0x0000, 71);
        registers.insert(0x0001, 0x000F);
        registers.insert(0x0002, 0x0001);
        registers.insert(0x0003, 0xFFFF);
        registers.insert(0x0004, 0x465A);
        registers.insert(0x0005, 0x0001);
        registers.insert(0x0006, 0x0004);
        registers.insert(0x0007, 1400);
        registers.insert(0x0008, 1400);
        registers.insert(0x0009, 1400);
        registers.insert(0x000A, 1400);
        registers.insert(0x000B, 0x0005);
        registers.insert(0x000C, 70);
        registers.insert(0x000D, 90);
        registers.insert(0x000E, 0x000F);
        MockController { registers }
    }

    /// Makes a controller none of whose registers was ever written.
    pub fn blank() -> (controller: Self)
        ensures
            controller@ == Map::<u16, u16>::empty(),
    {
        MockController { registers: HashMap::new() }
    }

    /// Reads one register; `None` if it was never written.
    pub fn read_register(&self, addr: u16) -> (value: Option<u16>)
        ensures
            value == if self@.contains_key(addr) {
                Some(self@[addr])
            } else {
                None
            },
    {
        match self.registers.get(&addr) {
            Some(value) => Some(*value),
            None => None,
        }
    }

    fn value_at(&self, addr: u16) -> (value: u16)
        ensures
            value == register_value(self@, addr),
    {
        match self.registers.get(&addr) {
            Some(value) => *value,
            None => 0,
        }
    }

    /// Reads `count` consecutive registers from `start_addr` on; a register
    /// that was never written reads as zero.
    pub fn read_registers(&self, start_addr: u16, count: u16) -> (values: Vec<u16>)
        requires
            start_addr + count <= 0x1_0000,
        ensures
            values@ == registers_from(self@, start_addr, count),
    {
        let mut values: Vec<u16> = Vec::new();
        let mut i: u16 = 0;
        while i < count
            invariant
                i <= count,
                start_addr + count <= 0x1_0000,
                values@.len() == i,
                forall|j: int|
                    0 <= j < i ==> values@[j] == register_value(self@, (start_addr + j) as u16),
            decreases count - i,
        {
            values.push(self.value_at(start_addr + i));
            i = i + 1;
        }
        assert(values@ =~= registers_from(self@, start_addr, count));
        values
    }

    /// Writes one register.
    pub fn write_register(&mut self, addr: u16, value: u16)
        ensures
            final(self)@ == old(self)@.insert(addr, value),
    {
        self.registers.insert(addr, value);
    }

    /// Returns the bus address that the controller answers to.
    pub fn bus_address(&self) -> (addr: u8)
        ensures
            addr == station(self@),
    {
        (self.value_at(RegisterAddress::ModbusAddress.addr()) % 256) as u8
    }

    fn set_fan_bit(&mut self, register: RegisterAddress, unset: u16, fan_index: u8, on: bool)
        requires
            1 <= fan_index <= 4,
        ensures
            final(self)@ == old(self)@.insert(
                register.address(),
                with_fan_bit(
                    if old(self)@.contains_key(register.address()) {
                        old(self)@[register.address()]
                    } else {
                        unset
                    },
                    fan_index as int,
                    on,
                ) as u16,
            ),
    {
        let current = match self.read_register(register.addr()) {
            Some(value) => value,
            None => unset,
        };
        let flags = parse_fan_status_bitmap(current);
        let weight: u16 = if fan_index == 1 {
            1
        } else if fan_index == 2 {
            2
        } else if fan_index == 3 {
            4
        } else {
            8
        };
        let is_on = flags[(fan_index - 1) as usize];
        assert(is_on == fan_bit(current, fan_index as int));
        let changed = if is_on == on {
            current
        } else if on {
            assert(current % 2 == 0 ==> current + 1 <= 0xFFFF) by (bit_vector);
            assert((current / 2) % 2 == 0 ==> current + 2 <= 0xFFFF) by (bit_vector);
            assert((current / 4) % 2 == 0 ==> current + 4 <= 0xFFFF) by (bit_vector);
            assert((current / 8) % 2 == 0 ==> current + 8 <= 0xFFFF) by (bit_vector);
            current + weight
        } else {
            assert(current % 2 == 1 ==> current >= 1) by (bit_vector);
            assert((current / 2) % 2 == 1 ==> current >= 2) by (bit_vector);
            assert((current / 4) % 2 == 1 ==> current >= 4) by (bit_vector);
            assert((current / 8) % 2 == 1 ==> current >= 8) by (bit_vector);
            current - weight
        };
        self.write_register(register.addr(), changed);
    }

    /// Sets or clears the fault of one fan in the fault bitmap, which is
    /// inverted: a fault clears the fan's bit. A bitmap that was never
    /// written counts as all fans healthy. Indices outside 1 to 4 are
    /// ignored.
    pub fn set_fan_fault(&mut self, fan_index: u8, has_fault: bool)
        ensures
            final(self)@ == if 1 <= fan_index <= 4 {
                let address = RegisterAddress::FanFaultCode.address();
                let current = if old(self)@.contains_key(address) {
                    old(self)@[address]
                } else {
                    0x000Fu16
                };
                old(self)@.insert(address, with_fan_bit(current, fan_index as int, !has_fault) as u16)
            } else {
                old(self)@
            },
    {
        if fan_index < 1 || fan_index > 4 {
            return ;
        }
        self.set_fan_bit(RegisterAddress::FanFaultCode, 0x000F, fan_index, !has_fault);
    }

    /// Sets or clears the running bit of one fan in the running bitmap. A
    /// bitmap that was never written counts as all fans stopped. Indices
    /// outside 1 to 4 are ignored.
    pub fn set_fan_running(&mut self, fan_index: u8, is_running: bool)
        ensures
            final(self)@ == if 1 <= fan_index <= 4 {
                let address = RegisterAddress::FanStatus.address();
                let current = if old(self)@.contains_key(address) {
                    old(self)@[address]
                } else {
                    0x0000u16
                };
                old(self)@.insert(address, with_fan_bit(current, fan_index as int, is_running) as u16)
            } else {
                old(self)@
            },
    {
        if fan_index < 1 || fan_index > 4 {
            return ;
        }
        self.set_fan_bit(RegisterAddress::FanStatus, 0x0000, fan_index, is_running);
    }

    /// Answers the bytes of one request, as [`answer`] says, and applies a
    /// write, as [`table_after`] says.
    pub fn respond(&mut self, request: &[u8]) -> (reply: Reply)
        ensures
            reply@ == answer(old(self)@, request@),
            final(self)@ == table_after(old(self)@, request@),
    {
        let (slave, request) = match parse_request(request) {
            Some(parsed) => parsed,
            None => {
                return Reply::TimedOut;
            },
        };
        if slave != self.bus_address() {
            return Reply::TimedOut;
        }
        match request {
            Request::ReadHoldingRegisters { start, count } => {
                if count == 0 || count > MOST_REGISTERS_PER_READ {
                    Reply::Frame(
                        build_exception_response(slave, READ_HOLDING_REGISTERS, ILLEGAL_DATA_VALUE),
                    )
                } else if start as u32 + count as u32 > 0x1_0000 {
                    Reply::Frame(
                        build_exception_response(
                            slave,
                            READ_HOLDING_REGISTERS,
                            ILLEGAL_DATA_ADDRESS,
                        ),
                    )
                } else {
                    let values = self.read_registers(start, count);
                    Reply::Frame(build_read_response(slave, values.as_slice()))
                }
            },
            Request::WriteSingleRegister { register, value } => {
                self.write_register(register, value);
                Reply::Frame(build_write_request(slave, register, value))
            },
        }
    }

    /// Carries an operation of `client` through against this controller:
    /// as long as an exchange is due, the request goes to the controller and
    /// its answer back to the client.
    pub fn serve(&mut self, client: &mut Jpf4826Client, first: Step) -> (result: Result<
        Outcome,
        Jpf4826Error,
    >)
        ensures
            ({
                let ending = run(
                    old(client).slave_addr(),
                    old(client).timeout(),
                    old(self)@,
                    first@,
                );
                &&& match result {
                    Ok(outcome) => ending.step == StepView::Finished(outcome@),
                    Err(error) => ending.step == StepView::Failed(*error.kind()),
                }
                &&& final(client).slave_addr() == ending.slave
                &&& final(client).timeout() == old(client).timeout()
                &&& final(self)@ == ending.table
            }),
    {
        let ghost ending = run(old(client).slave_addr(), old(client).timeout(), old(self)@, first@);
        let mut step = first;
        loop
            invariant
                client.timeout() == old(client).timeout(),
                ending == run(old(client).slave_addr(), old(client).timeout(), old(self)@, first@),
                run(client.slave_addr(), client.timeout(), self@, step@) == ending,
            decreases
                    (match step@ {
                        StepView::Exchange(stage) => stage.exchanges_left(),
                        _ => 0,
                    }),
        {
            match step {
                Step::Exchange(stage) => {
                    let frame = client.request_frame(stage);
                    let reply = self.respond(frame.as_slice());
                    proof {
                        operation_makes_progress(
                            client.slave_addr(),
                            client.timeout(),
                            stage,
                            reply@,
                        );
                    }
                    step = client.resume(stage, reply);
                },
                Step::Finished(outcome) => {
                    return Ok(outcome);
                },
                Step::Failed(error) => {
                    return Err(error);
                },
            }
        }
    }
}

/// The speeds of the four fans as the register table holds them.
pub open spec fn speeds_in(table: Map<u16, u16>) -> Speeds {
    Speeds {
        fan1: register_value(table, RegisterAddress::Fan1Speed.address()),
        fan2: register_value(table, RegisterAddress::Fan2Speed.address()),
        fan3: register_value(table, RegisterAddress::Fan3Speed.address()),
        fan4: register_value(table, RegisterAddress::Fan4Speed.address()),
    }
}

/// The status snapshot that a register table amounts to.
pub open spec fn snapshot_in(table: Map<u16, u16>) -> StatusView {
    snapshot_of(
        settings_of(registers_from(table, 0, STATUS_BLOCK)),
        fans_of(speeds_in(table), register_value(table, RegisterAddress::FanFaultCode.address())),
    )
}

/// A read that the controller can serve returns the registers: the client
/// that speaks to the controller's own address gets, for up to 125 registers
/// inside the address space, exactly the values of the table, in address
/// order, and the table stays as it is.
pub proof fn read_returns_the_registers(
    slave: u8,
    timeout: u64,
    table: Map<u16, u16>,
    start: u16,
    count: u16,
)
    requires
        station(table) == slave,
        1 <= count <= MOST_REGISTERS_PER_READ,
        start + count <= 0x1_0000,
    ensures
        read_outcome(
            slave,
            timeout,
            start,
            count,
            answer(table, Request::ReadHoldingRegisters { start, count }.frame(slave)),
        ) == Ok::<Seq<u16>, ErrorKind>(registers_from(table, start, count)),
        table_after(table, Request::ReadHoldingRegisters { start, count }.frame(slave)) == table,
{
    request_round_trip(slave, Request::ReadHoldingRegisters { start, count }, Seq::empty());
    read_response_is_accepted(slave, registers_from(table, start, count));
}

/// A write reaches the register: the client that speaks to the controller's
/// own address has its write confirmed, and the table then holds the value.
pub proof fn write_reaches_the_register(
    slave: u8,
    timeout: u64,
    table: Map<u16, u16>,
    register: u16,
    value: u16,
)
    requires
        station(table) == slave,
    ensures
        write_outcome(
            slave,
            timeout,
            register,
            value,
            answer(table, Request::WriteSingleRegister { register, value }.frame(slave)),
        ) == Ok::<(), ErrorKind>(()),
        table_after(table, Request::WriteSingleRegister { register, value }.frame(slave))
            == table.insert(register, value),
{
    request_round_trip(slave, Request::WriteSingleRegister { register, value }, Seq::empty());
    write_response_is_accepted(Seq::empty(), slave, register, value);
}

/// A client that speaks to another address than the controller's gets no
/// answer: its operation ends with a timeout at the first exchange, and
/// nothing changes on either side.
pub proof fn stranger_times_out(slave: u8, timeout: u64, table: Map<u16, u16>, stage: Stage)
    requires
        station(table) != slave,
    ensures
        run_stage(slave, timeout, table, stage) == (Ending {
            step: StepView::Failed(
                ErrorKind::Timeout { request: stage.request(), millis: timeout },
            ),
            slave,
            table,
        }),
{
    request_round_trip(slave, stage.request(), Seq::empty());
}

/// Reading the temperature yields the temperature that the controller's
/// register stands for, and changes nothing.
pub proof fn temperature_reflects_the_register(slave: u8, timeout: u64, table: Map<u16, u16>)
    requires
        station(table) == slave,
    ensures
        run_stage(slave, timeout, table, Stage::Temperature) == (Ending {
            step: StepView::Finished(
                OutcomeView::Temperature(
                    celsius(
                        celsius_of_register(
                            register_value(
                                table,
                                RegisterAddress::CurrentTemperature.address(),
                            ) as int,
                        ),
                    ),
                ),
            ),
            slave,
            table,
        }),
{
    read_returns_the_registers(slave, timeout, table, 0, 1);
}

/// A status snapshot of a controller at rest is the snapshot that its
/// register table amounts to: settings from the first fifteen registers,
/// the four fans from their speed registers and the inverted fault bitmap.
/// It takes four exchanges and changes nothing.
pub proof fn snapshot_reflects_the_registers(slave: u8, timeout: u64, table: Map<u16, u16>)
    requires
        station(table) == slave,
    ensures
        run_stage(slave, timeout, table, Stage::StatusRegisters) == (Ending {
            step: StepView::Finished(OutcomeView::Status(snapshot_in(table))),
            slave,
            table,
        }),
        run_stage(slave, timeout, table, Stage::FanRunning { scope: Scope::FansOnly }) == (Ending {
            step: StepView::Finished(
                OutcomeView::FanStatus(
                    fans_of(
                        speeds_in(table),
                        register_value(table, RegisterAddress::FanFaultCode.address()),
                    ),
                ),
            ),
            slave,
            table,
        }),
{
    let settings = settings_of(registers_from(table, 0, 15));
    fans_follow(slave, timeout, table, Scope::Snapshot(settings));
    fans_follow(slave, timeout, table, Scope::FansOnly);
    read_returns_the_registers(slave, timeout, table, 0, 15);
    let first = Stage::FanRunning { scope: Scope::Snapshot(settings) };
    assert(resumed(
        slave,
        timeout,
        Stage::StatusRegisters,
        answer(table, Stage::StatusRegisters.request().frame(slave)),
    ) == StepView::Exchange(first));
}

/// The three exchanges of a fan reading, from the running bitmap on.
proof fn fans_follow(slave: u8, timeout: u64, table: Map<u16, u16>, scope: Scope)
    requires
        station(table) == slave,
    ensures
        run_stage(slave, timeout, table, Stage::FanRunning { scope }) == (Ending {
            step: after_read(
                Stage::FanFaults { scope, speeds: speeds_in(table) },
                seq![register_value(table, RegisterAddress::FanFaultCode.address())],
            ),
            slave,
            table,
        }),
{
    read_returns_the_registers(slave, timeout, table, 0x0001, 1);
    read_returns_the_registers(slave, timeout, table, 0x0007, 4);
    read_returns_the_registers(slave, timeout, table, 0x000E, 1);
    let running = Stage::FanRunning { scope };
    let speeds = Stage::FanSpeeds { scope };
    let faults = Stage::FanFaults { scope, speeds: speeds_in(table) };
    assert(registers_from(table, 0x000E, 1) =~= seq![register_value(table, 0x000E)]);
    assert(resumed(slave, timeout, running, answer(table, running.request().frame(slave)))
        == StepView::Exchange(speeds));
    assert(resumed(slave, timeout, speeds, answer(table, speeds.request().frame(slave)))
        == StepView::Exchange(faults));
    assert(run_stage(slave, timeout, table, faults).step == after_read(
        faults,
        seq![register_value(table, 0x000E)],
    ));
    assert(run_stage(slave, timeout, table, speeds) == run_stage(slave, timeout, table, faults));
}

/// After a confirmed change of address, client and controller are still
/// together: the controller answers to the new address, the client holds
/// the new address, and so the operations that follow reach the controller
/// without the caller naming the address again.
pub proof fn address_change_keeps_both_together(
    slave: u8,
    timeout: u64,
    table: Map<u16, u16>,
    addr: u8,
)
    requires
        station(table) == slave,
    ensures
        run_stage(slave, timeout, table, Stage::Address { addr }) == (Ending {
            step: StepView::Finished(OutcomeView::Written),
            slave: addr,
            table: table.insert(RegisterAddress::ModbusAddress.address(), addr as u16),
        }),
        station(run_stage(slave, timeout, table, Stage::Address { addr }).table) == run_stage(
            slave,
            timeout,
            table,
            Stage::Address { addr },
        ).slave,
{
    write_reaches_the_register(slave, timeout, table, 0x0002, addr as u16);
}

/// Setting both thresholds, when it is let through, leaves the controller
/// with the low threshold strictly below the high one: the two registers
/// then hold the two temperatures, with the offset.
pub proof fn thresholds_reach_the_controller_in_order(
    slave: u8,
    timeout: u64,
    table: Map<u16, u16>,
    low: i16,
    high: i16,
)
    requires
        station(table) == slave,
        threshold_in_range(low),
        threshold_in_range(high),
        low < high,
    ensures
        ({
            let ending = run_stage(slave, timeout, table, Stage::LowThreshold { low, high });
            &&& ending.step == StepView::Finished(OutcomeView::Written)
            &&& ending.slave == slave
            &&& ending.table == table.insert(
                RegisterAddress::StartTemperature.address(),
                (low + 40) as u16,
            ).insert(RegisterAddress::FullSpeedTemperature.address(), (high + 40) as u16)
            &&& celsius_of_register(
                register_value(ending.table, RegisterAddress::StartTemperature.address()) as int,
            ) < celsius_of_register(
                register_value(
                    ending.table,
                    RegisterAddress::FullSpeedTemperature.address(),
                ) as int,
            )
        }),
{
    let first = Stage::LowThreshold { low, high };
    let second = Stage::Write {
        register: RegisterAddress::FullSpeedTemperature,
        value: (high + 40) as u16,
    };
    let between = table.insert(0x000C, (low + 40) as u16);
    write_reaches_the_register(slave, timeout, table, 0x000C, (low + 40) as u16);
    write_reaches_the_register(slave, timeout, between, 0x000D, (high + 40) as u16);
    assert(resumed(slave, timeout, first, answer(table, first.request().frame(slave)))
        == StepView::Exchange(second));
    assert(run_stage(slave, timeout, table, first) == run_stage(slave, timeout, between, second));
}

/// Setting the start threshold alone leaves the controller with the low
/// threshold strictly below the high one, or leaves it untouched: the new
/// value is written when it is below the full-speed threshold that the
/// controller holds, and refused otherwise.
pub proof fn start_threshold_stays_below(
    slave: u8,
    timeout: u64,
    table: Map<u16, u16>,
    low: i16,
)
    requires
        station(table) == slave,
        threshold_in_range(low),
    ensures
        ({
            let stored = register_value(table, RegisterAddress::FullSpeedTemperature.address());
            let high = celsius_of_register(stored as int);
            let ending = run_stage(slave, timeout, table, Stage::StartCheck { low });
            if low < high {
                &&& ending.step == StepView::Finished(OutcomeView::Written)
                &&& ending.table == table.insert(
                    RegisterAddress::StartTemperature.address(),
                    (low + 40) as u16,
                )
            } else {
                &&& ending.step == StepView::Failed(
                    ErrorKind::InvalidThresholds { low, high: high as i16 },
                )
                &&& ending.table == table
            }
        }),
{
    let check = Stage::StartCheck { low };
    let write = Stage::Write {
        register: RegisterAddress::StartTemperature,
        value: (low + 40) as u16,
    };
    read_returns_the_registers(slave, timeout, table, 0x000D, 1);
    write_reaches_the_register(slave, timeout, table, 0x000C, (low + 40) as u16);
    let stored = register_value(table, 0x000D);
    assert(registers_from(table, 0x000D, 1)[0] == stored);
    if low < celsius_of_register(stored as int) {
        assert(resumed(slave, timeout, check, answer(table, check.request().frame(slave)))
            == StepView::Exchange(write));
        assert(run_stage(slave, timeout, table, check) == run_stage(slave, timeout, table, write));
    }
}

/// Setting the full-speed threshold alone leaves the controller with the
/// high threshold strictly above the low one, or leaves it untouched.
pub proof fn full_speed_threshold_stays_above(
    slave: u8,
    timeout: u64,
    table: Map<u16, u16>,
    high: i16,
)
    requires
        station(table) == slave,
        threshold_in_range(high),
    ensures
        ({
            let stored = register_value(table, RegisterAddress::StartTemperature.address());
            let low = celsius_of_register(stored as int);
            let ending = run_stage(slave, timeout, table, Stage::FullSpeedCheck { high });
            if high > low {
                &&& ending.step == StepView::Finished(OutcomeView::Written)
                &&& ending.table == table.insert(
                    RegisterAddress::FullSpeedTemperature.address(),
                    (high + 40) as u16,
                )
            } else {
                &&& ending.step == StepView::Failed(
                    ErrorKind::InvalidThresholds { low: low as i16, high },
                )
                &&& ending.table == table
            }
        }),
{
    let check = Stage::FullSpeedCheck { high };
    let write = Stage::Write {
        register: RegisterAddress::FullSpeedTemperature,
        value: (high + 40) as u16,
    };
    read_returns_the_registers(slave, timeout, table, 0x000C, 1);
    write_reaches_the_register(slave, timeout, table, 0x000D, (high + 40) as u16);
    let stored = register_value(table, 0x000C);
    assert(registers_from(table, 0x000C, 1)[0] == stored);
    if high > celsius_of_register(stored as int) {
        assert(resumed(slave, timeout, check, answer(table, check.request().frame(slave)))
            == StepView::Exchange(write));
        assert(run_stage(slave, timeout, table, check) == run_stage(slave, timeout, table, write));
    }
}

} // verus!

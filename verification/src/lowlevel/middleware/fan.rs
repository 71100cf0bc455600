//! Fan control over the embedded controller.
//!
//! Each fan reports its speed as a period counter split over two registers,
//! and is driven by three-byte command sequences. The addresses, the command
//! byte and the argument layouts are fixed by the controller's vendor.

use crate::lowlevel::accessor::ec::{EcAccessor, EcCommand, EcState};
use vstd::prelude::*;

verus! {

pub const EC_CPU_FAN_RPM_HI_ADDR: u8 = 0xD0;

pub const EC_CPU_FAN_RPM_LO_ADDR: u8 = 0xD1;

pub const EC_GPU_FAN_RPM_HI_ADDR: u8 = 0xD2;

pub const EC_GPU_FAN_RPM_LO_ADDR: u8 = 0xD3;

pub const EC_SET_FAN_SPEED_CMD: u8 = 0x99;

pub const EC_SET_FAN_AUTO_ADDR: u8 = 0xFF;

/// Controller tick rate times sixty, divided by the pulses per revolution.
pub const RPM_CALIBRATION: u32 = 2156220;

/// The physical fans.
#[derive(Clone, Copy, Debug, PartialEq, Eq, Structural)]
pub enum FanIndex {
    CPU,
    GPU,
}

impl FanIndex {
    /// The byte by which the controller knows this fan: 1 for the CPU fan,
    /// 2 for the GPU fan.
    pub open spec fn byte(self) -> u8 {
        match self {
            FanIndex::CPU => 1,
            FanIndex::GPU => 2,
        }
    }

    /// Address of the register holding the high byte of the period counter.
    pub open spec fn rpm_hi_addr(self) -> u8 {
        match self {
            FanIndex::CPU => EC_CPU_FAN_RPM_HI_ADDR,
            FanIndex::GPU => EC_GPU_FAN_RPM_HI_ADDR,
        }
    }

    /// Address of the register holding the low byte of the period counter.
    pub open spec fn rpm_lo_addr(self) -> u8 {
        match self {
            FanIndex::CPU => EC_CPU_FAN_RPM_LO_ADDR,
            FanIndex::GPU => EC_GPU_FAN_RPM_LO_ADDR,
        }
    }

    pub fn as_byte(self) -> (b: u8)
        ensures
            b == self.byte(),
    {
        match self {
            FanIndex::CPU => 1,
            FanIndex::GPU => 2,
        }
    }
}

/// The period counter that the two register bytes spell: `(hi << 8) | lo`.
pub open spec fn rpm_period(hi: u8, lo: u8) -> nat {
    hi as nat * 256 + lo as nat
}

/// Revolutions per minute for a period counter. A zero period means a
/// stopped fan. Otherwise it is the calibration constant divided by the
/// period, of which the low sixteen bits are kept.
pub open spec fn rpm_from_period(period: nat) -> u16 {
    if period == 0 {
        0
    } else {
        ((RPM_CALIBRATION as nat / period) % 0x1_0000) as u16
    }
}

/// Speed of the fan `index` as the register image `state` shows it.
pub open spec fn fan_rpm(state: EcState, index: FanIndex) -> u16 {
    rpm_from_period(
        rpm_period(
            state.registers[index.rpm_hi_addr() as int],
            state.registers[index.rpm_lo_addr() as int],
        ),
    )
}

/// The command sequence that hands a fan back to automatic control.
pub open spec fn auto_command(index: FanIndex) -> EcCommand {
    EcCommand { command: EC_SET_FAN_SPEED_CMD, arg1: EC_SET_FAN_AUTO_ADDR, arg2: index.byte() }
}

/// The command sequence that drives a fan at `duty` parts of 255.
pub open spec fn speed_command(duty: u8, index: FanIndex) -> EcCommand {
    EcCommand { command: EC_SET_FAN_SPEED_CMD, arg1: index.byte(), arg2: duty }
}

/// Converts the two period registers of a fan to revolutions per minute.
pub fn rpm_from_registers(hi: u8, lo: u8) -> (rpm: u16)
    ensures
        rpm == rpm_from_period(rpm_period(hi, lo)),
{
    let period: u16 = ((hi as u16) << 8) | (lo as u16);
    assert(period == hi as nat * 256 + lo as nat) by (bit_vector)
        requires
            period == ((hi as u16) << 8) | (lo as u16),
    ;
    if period == 0 {
        0
    } else {
        let quotient: u32 = RPM_CALIBRATION / (period as u32);
        assert(quotient as u16 == quotient % 0x1_0000) by (bit_vector);
        #[verifier::truncate]
        (quotient as u16)
    }
}

/// Whenever the quotient fits in sixteen bits, that is for every period but
/// 1 to 32, the reported speed is the calibration constant divided by the
/// period, rounded down; a zero period reports zero.
pub proof fn lemma_rpm_is_quotient(hi: u8, lo: u8)
    requires
        rpm_period(hi, lo) == 0 || rpm_period(hi, lo) >= 33,
    ensures
        rpm_period(hi, lo) == 0 ==> rpm_from_period(rpm_period(hi, lo)) == 0,
        rpm_period(hi, lo) != 0 ==> rpm_from_period(rpm_period(hi, lo)) == 2156220nat
            / rpm_period(hi, lo),
{
    let p = rpm_period(hi, lo);
    if p != 0 {
        assert(0 <= 2156220nat / p <= 65535) by (nonlinear_arith)
            requires
                p >= 33,
        ;
    }
}

/// The fan middleware: typed fan operations on one controller channel.
pub struct Fan {
    ec: EcAccessor,
}

impl View for Fan {
    type V = EcState;

    closed spec fn view(&self) -> EcState {
        self.ec@
    }
}

impl Default for Fan {
    fn default() -> (fan: Fan)
        ensures
            fan@.registers == Seq::new(256, |i: int| 0u8),
            fan@.pending == Seq::<EcCommand>::empty(),
    {
        Fan::new()
    }
}

impl Fan {
    /// A middleware on a fresh channel: all registers zero, nothing queued.
    pub fn new() -> (fan: Fan)
        ensures
            fan@.registers == Seq::new(256, |i: int| 0u8),
            fan@.pending == Seq::<EcCommand>::empty(),
    {
        let ec = EcAccessor::new();
        Fan { ec }
    }

    /// Every middleware holds one byte for each of the 256 registers.
    pub proof fn lemma_register_count(self)
        ensures
            self@.registers.len() == 256,
    {
        self.ec.lemma_register_count();
    }

    /// Stores the byte that the controller reported for `address`.
    pub fn store_register(&mut self, address: u8, value: u8)
        ensures
            final(self)@.registers == old(self)@.registers.update(address as int, value),
            final(self)@.pending == old(self)@.pending,
    {
        self.ec.store_register(address, value);
    }

    /// Hands out the queued commands in the order they were issued and
    /// leaves the queue empty.
    pub fn take_commands(&mut self) -> (commands: Vec<EcCommand>)
        ensures
            commands@ == old(self)@.pending,
            final(self)@.pending == Seq::<EcCommand>::empty(),
            final(self)@.registers == old(self)@.registers,
    {
        self.ec.take_commands()
    }

    /// Speed of the fan `index`, from the two period registers that belong
    /// to it.
    pub fn get_fan_rpm(&self, index: FanIndex) -> (rpm: u16)
        ensures
            rpm == fan_rpm(self@, index),
    {
        let hi;
        let lo;
        match index {
            FanIndex::CPU => {
                hi = self.ec.read_byte(EC_CPU_FAN_RPM_HI_ADDR);
                lo = self.ec.read_byte(EC_CPU_FAN_RPM_LO_ADDR);
            },
            FanIndex::GPU => {
                hi = self.ec.read_byte(EC_GPU_FAN_RPM_HI_ADDR);
                lo = self.ec.read_byte(EC_GPU_FAN_RPM_LO_ADDR);
            },
        }
        rpm_from_registers(hi, lo)
    }

    /// Queues the command that drives the fan `index` at `duty` parts of
    /// 255: the fan's byte first, then the duty byte.
    pub fn set_fan_speed(&mut self, duty: u8, index: FanIndex)
        ensures
            final(self)@.pending == old(self)@.pending.push(speed_command(duty, index)),
            final(self)@.registers == old(self)@.registers,
    {
        self.ec.cmd_write(EC_SET_FAN_SPEED_CMD, index.as_byte(), duty);
    }

    /// Queues the command that hands the fan `index` back to automatic
    /// control: the marker byte first, then the fan's byte.
    pub fn set_fan_auto(&mut self, index: FanIndex)
        ensures
            final(self)@.pending == old(self)@.pending.push(auto_command(index)),
            final(self)@.registers == old(self)@.registers,
    {
        self.ec.cmd_write(EC_SET_FAN_SPEED_CMD, EC_SET_FAN_AUTO_ADDR, index.as_byte());
    }
}

} // verus!

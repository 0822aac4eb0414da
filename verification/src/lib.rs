//! Register-level driver for a three-axis magnetometer on a half-duplex
//! command/response bus, with a fixed-capacity sample queue and the
//! interrupt-driven acquisition pipeline that connects the two.
//!
//! The physical bus is abstracted as the [`Transport`] port: a synchronous
//! full-duplex byte exchange gated by a chip-select line, implemented by the
//! board support code.  Everything the driver computes — packet layout,
//! big-endian conversions, 24-bit sign extension, the cached configuration,
//! the queue and the host protocol — is specified and verified here.

pub mod mincircularbuffer;
pub mod packet;
pub mod pipeline;

use vstd::prelude::*;

use vstd::arithmetic::power2::lemma2_to64;
use vstd::arithmetic::power2::lemma_pow2_strictly_increases;
use vstd::arithmetic::power2::lemma_pow2_unfold;
use vstd::arithmetic::power2::pow2;

use crate::packet::Packet;

verus! {

// Register map of the sensor.
pub const POLL_REG: u8 = 0x00;
pub const CMM_REG: u8 = 0x01;
pub const CCX_REG: u8 = 0x04;
pub const CCY_REG: u8 = 0x06;
pub const CCZ_REG: u8 = 0x08;
pub const TMRC_REG: u8 = 0x0B;
pub const MX_REG: u8 = 0x24;
pub const MY_REG: u8 = 0x27;
pub const MZ_REG: u8 = 0x2A;
pub const BIST_REG: u8 = 0x33;
pub const STATUS_REG: u8 = 0x34;
pub const HSHAKE_REG: u8 = 0x35;
pub const REVID_REG: u8 = 0x36;

/// ORed into the address byte to mark a read transaction.
pub const READ_FLAG: u8 = 0x80;

/// Bit 7 of the status register is the data-ready bit.
pub const STATUS_SHIFT: u8 = 7;

/// Mark a register address as a read transaction; write transactions use
/// the raw address.
pub fn read_flag(address: u8) -> (marked: u8)
    ensures
        marked == READ_FLAG | address,
{
    READ_FLAG | address
}

/// The physical command/response channel to the sensor: a synchronous
/// full-duplex byte exchange gated by a chip-select line.  The board
/// support code implements it over the real bus; nothing is assumed about
/// the bytes the hardware answers, and a failed exchange may leave the
/// buffer as the transport left it.
pub trait Transport {
    /// Drive chip-select active, opening one transaction.
    fn select(&mut self);

    /// Drive chip-select inactive, closing the transaction.
    fn deselect(&mut self);

    /// Exchange `buf` for the same number of received bytes, in place.
    fn transfer<const N: usize>(&mut self, buf: &mut [u8; N]);

    /// Send `buf` without reading anything back.
    fn write<const N: usize>(&mut self, buf: &[u8; N]);
}

/// Integration cycle counts per axis; higher values trade acquisition time
/// for resolution.  The useful working range is roughly 30 to 400, though
/// nothing enforces it.
#[derive(Clone, Copy, Debug, PartialEq, Eq, Structural)]
pub struct CycleCount {
    pub x: u16,
    pub y: u16,
    pub z: u16,
}

impl Default for CycleCount {
    /// 200 cycles on every axis.
    fn default() -> (cc: Self)
        ensures
            cc == (CycleCount { x: 200, y: 200, z: 200 }),
    {
        CycleCount { x: 200, y: 200, z: 200 }
    }
}

/// Whether the sensor reports a completed measurement.
#[derive(Clone, Copy, Debug, PartialEq, Eq, Structural)]
pub enum Status {
    Available,
    Unavailable,
}

impl From<bool> for Status {
    fn from(bit: bool) -> (s: Self) {
        if bit {
            Status::Available
        } else {
            Status::Unavailable
        }
    }
}

impl vstd::std_specs::convert::FromSpecImpl<bool> for Status {
    open spec fn obeys_from_spec() -> bool {
        true
    }

    open spec fn from_spec(bit: bool) -> Status {
        if bit {
            Status::Available
        } else {
            Status::Unavailable
        }
    }
}

/// The discrete sample rates of continuous mode, named by their
/// approximate frequency in hertz.
#[derive(Clone, Copy, Debug, PartialEq, Eq, Structural)]
pub enum UpdateRate {
    Hz600,
    Hz300,
    Hz150,
    Hz75,
    Hz37,
    Hz18,
    Hz9,
    Hz4_5,
    Hz2_3,
    Hz1_2,
    Hz0_6,
    Hz0_3,
    Hz0_15,
    Hz0_075,
}

impl UpdateRate {
    /// The byte written to the update-rate register for this rate.
    pub open spec fn spec_byte(self) -> u8 {
        match self {
            UpdateRate::Hz600 => 0x92,
            UpdateRate::Hz300 => 0x93,
            UpdateRate::Hz150 => 0x94,
            UpdateRate::Hz75 => 0x95,
            UpdateRate::Hz37 => 0x96,
            UpdateRate::Hz18 => 0x97,
            UpdateRate::Hz9 => 0x98,
            UpdateRate::Hz4_5 => 0x99,
            UpdateRate::Hz2_3 => 0x9A,
            UpdateRate::Hz1_2 => 0x9B,
            UpdateRate::Hz0_6 => 0x9C,
            UpdateRate::Hz0_3 => 0x9D,
            UpdateRate::Hz0_15 => 0x9E,
            UpdateRate::Hz0_075 => 0x9F,
        }
    }

    /// Encode this rate as its register byte.
    pub fn to_byte(self) -> (b: u8)
        ensures
            b == self.spec_byte(),
    {
        match self {
            UpdateRate::Hz600 => 0x92,
            UpdateRate::Hz300 => 0x93,
            UpdateRate::Hz150 => 0x94,
            UpdateRate::Hz75 => 0x95,
            UpdateRate::Hz37 => 0x96,
            UpdateRate::Hz18 => 0x97,
            UpdateRate::Hz9 => 0x98,
            UpdateRate::Hz4_5 => 0x99,
            UpdateRate::Hz2_3 => 0x9A,
            UpdateRate::Hz1_2 => 0x9B,
            UpdateRate::Hz0_6 => 0x9C,
            UpdateRate::Hz0_3 => 0x9D,
            UpdateRate::Hz0_15 => 0x9E,
            UpdateRate::Hz0_075 => 0x9F,
        }
    }

    /// Decode a register byte back to its rate: exactly the bytes `0x92`
    /// through `0x9F` name a rate.
    pub fn from_byte(b: u8) -> (r: Option<UpdateRate>)
        ensures
            0x92 <= b <= 0x9F ==> r is Some && r->Some_0.spec_byte() == b,
            !(0x92 <= b <= 0x9F) ==> r is None,
    {
        match b {
            0x92 => Some(UpdateRate::Hz600),
            0x93 => Some(UpdateRate::Hz300),
            0x94 => Some(UpdateRate::Hz150),
            0x95 => Some(UpdateRate::Hz75),
            0x96 => Some(UpdateRate::Hz37),
            0x97 => Some(UpdateRate::Hz18),
            0x98 => Some(UpdateRate::Hz9),
            0x99 => Some(UpdateRate::Hz4_5),
            0x9A => Some(UpdateRate::Hz2_3),
            0x9B => Some(UpdateRate::Hz1_2),
            0x9C => Some(UpdateRate::Hz0_6),
            0x9D => Some(UpdateRate::Hz0_3),
            0x9E => Some(UpdateRate::Hz0_15),
            0x9F => Some(UpdateRate::Hz0_075),
            _ => None,
        }
    }

    /// The rate's approximate frequency in millihertz, rounded down:
    /// 600 Hz divided by a power of two, `600_000 / 2^(code - 0x92)` for
    /// register code `code`.
    pub fn approx_millihertz(self) -> (mhz: u32)
        ensures
            mhz == 600_000int / pow2(((self.spec_byte() - 0x92) as nat)) as int,
    {
        let exponent: u8 = self.to_byte() - 0x92;
        600_000 / pow2_u32(exponent)
    }
}

impl Default for UpdateRate {
    /// The fastest rate.
    fn default() -> (r: Self)
        ensures
            r == UpdateRate::Hz600,
    {
        UpdateRate::Hz600
    }
}

/// `2^e` as a `u32`, for the small exponents the rate table uses.
fn pow2_u32(e: u8) -> (p: u32)
    requires
        e <= 13,
    ensures
        p == pow2(e as nat),
        p >= 1,
    decreases e,
{
    if e == 0 {
        proof {
            lemma2_to64();
        }
        1
    } else {
        let half = pow2_u32(e - 1);
        proof {
            lemma_pow2_unfold(e as nat);
            lemma2_to64();
            lemma_pow2_strictly_increases((e - 1) as nat, 13);
        }
        2 * half
    }
}

/// How the data-ready signal behaves: after any single axis completes,
/// after a full triple-axis measurement, or on the alarm conditions.
#[derive(Clone, Copy, Debug, PartialEq, Eq, Structural)]
pub enum DRDM {
    AlarmFull,
    Any,
    Full,
    Alarm,
}

impl DRDM {
    /// The data-ready-mode bits (bits 2 and 3 of the mode register).
    pub open spec fn spec_byte(self) -> u8 {
        match self {
            DRDM::AlarmFull => 0b0000,
            DRDM::Any => 0b0100,
            DRDM::Full => 0b1000,
            DRDM::Alarm => 0b1100,
        }
    }

    /// Encode this mode as its register bits.
    pub fn to_byte(self) -> (b: u8)
        ensures
            b == self.spec_byte(),
    {
        match self {
            DRDM::AlarmFull => 0b0000,
            DRDM::Any => 0b0100,
            DRDM::Full => 0b1000,
            DRDM::Alarm => 0b1100,
        }
    }
}

impl Default for DRDM {
    fn default() -> (m: Self)
        ensures
            m == DRDM::Full,
    {
        DRDM::Full
    }
}

/// The driver's cached view of the sensor configuration, updated
/// synchronously with each register write.
#[derive(Clone, Copy, Debug, PartialEq, Eq, Structural)]
pub struct Config {
    pub cc: CycleCount,
    pub rate: UpdateRate,
    pub drdm: DRDM,
}

impl Default for Config {
    fn default() -> (c: Self)
        ensures
            c == (Config {
                cc: CycleCount { x: 200, y: 200, z: 200 },
                rate: UpdateRate::Hz600,
                drdm: DRDM::Full,
            }),
    {
        Config { cc: CycleCount::default(), rate: UpdateRate::default(), drdm: DRDM::default() }
    }
}

/// The poll-register byte that requests one measurement of the chosen
/// axes: bit 4 for x, bit 5 for y, bit 6 for z.
pub open spec fn spec_poll_mask(x: bool, y: bool, z: bool) -> u8 {
    ((if x {
        0x10int
    } else {
        0int
    }) + (if y {
        0x20int
    } else {
        0int
    }) + (if z {
        0x40int
    } else {
        0int
    })) as u8
}

/// Build the poll-register byte for a single measurement of the chosen
/// axes.
pub fn poll_mask(x: bool, y: bool, z: bool) -> (m: u8)
    ensures
        m == spec_poll_mask(x, y, z),
{
    (if x {
        0x10u8
    } else {
        0u8
    }) + (if y {
        0x20u8
    } else {
        0u8
    }) + (if z {
        0x40u8
    } else {
        0u8
    })
}

/// The mode-register byte: the data-ready-mode bits (2 and 3), the
/// continuous-measurement axis bits (4 through 6), and the start bit (0).
pub open spec fn spec_cmm_byte(drdm: DRDM, x: bool, y: bool, z: bool, start: bool) -> u8 {
    (drdm.spec_byte() + spec_poll_mask(x, y, z) + (if start {
        1int
    } else {
        0int
    })) as u8
}

/// Build the mode-register byte that starts or stops continuous
/// measurement while preserving the data-ready-mode bits.
pub fn cmm_byte(drdm: DRDM, x: bool, y: bool, z: bool, start: bool) -> (b: u8)
    ensures
        b == spec_cmm_byte(drdm, x, y, z, start),
{
    drdm.to_byte() + poll_mask(x, y, z) + (if start {
        1u8
    } else {
        0u8
    })
}

/// The status a status-register byte reports: bit 7 is the data-ready bit.
pub open spec fn spec_status_of(byte: u8) -> Status {
    if byte >= 0x80 {
        Status::Available
    } else {
        Status::Unavailable
    }
}

/// Decode a status-register byte.
pub fn status_of(byte: u8) -> (s: Status)
    ensures
        s == spec_status_of(byte),
{
    proof {
        assert((byte >> STATUS_SHIFT) != 0 <==> byte >= 0x80) by (bit_vector);
    }
    Status::from((byte >> STATUS_SHIFT) != 0)
}

/// Whether a received revision-ID byte matches the expected revision.
pub fn revid_matches(received: u8, expected: u8) -> (matched: bool)
    ensures
        matched == (received == expected),
{
    received == expected
}

/// The magnetometer driver: the transport handle and the cached
/// configuration.  Every operation is one bracketed bus transaction; the
/// bytes the hardware answers are never assumed, only decoded.
pub struct RM3100<B> {
    bus: B,
    config: Config,
}

impl<B: Transport> RM3100<B> {
    /// The cached configuration.
    pub closed spec fn spec_config(&self) -> Config {
        self.config
    }

    /// Take ownership of the transport, cache `config`, and leave
    /// chip-select inactive.
    pub fn new(bus: B, config: Config) -> (rm: Self)
        ensures
            rm.spec_config() == config,
    {
        let mut rm3100 = RM3100 { bus, config };
        rm3100.bus.deselect();
        rm3100
    }

    /// One `N`-byte read transaction: send the address with the read flag
    /// set, exchanging the packet for whatever the sensor answers.
    /// Chip-select brackets exactly this one transfer.
    pub fn read_bytes<const N: usize>(&mut self, address: u8) -> (response: Packet<N>)
        requires
            N >= 1,
        ensures
            final(self).spec_config() == old(self).spec_config(),
    {
        let mut packet = Packet::<N>::default();
        packet.address(read_flag(address));
        self.bus.select();
        self.bus.transfer(&mut packet.0);
        self.bus.deselect();
        packet
    }

    /// One `N`-byte write transaction: send the packet under the raw
    /// address.  Chip-select brackets exactly this one transfer.
    pub fn write_bytes<const N: usize>(&mut self, address: u8, value: Packet<N>)
        requires
            N >= 1,
        ensures
            final(self).spec_config() == old(self).spec_config(),
    {
        let mut packet = value;
        packet.address(address);
        self.bus.select();
        self.bus.write(&packet.0);
        self.bus.deselect();
    }

    /// Read one 8-bit register.
    pub fn read_byte(&mut self, address: u8) -> (r: u8)
        ensures
            final(self).spec_config() == old(self).spec_config(),
    {
        let packet = self.read_bytes::<2>(address);
        packet.to_u8()
    }

    /// Write one 8-bit register.
    pub fn write_byte(&mut self, address: u8, value: u8)
        ensures
            final(self).spec_config() == old(self).spec_config(),
    {
        self.write_bytes::<2>(address, Packet::from_u8(value));
    }

    /// Read one big-endian 16-bit register pair.
    pub fn read_word(&mut self, address: u8) -> (r: u16)
        ensures
            final(self).spec_config() == old(self).spec_config(),
    {
        let packet = self.read_bytes::<3>(address);
        packet.to_u16()
    }

    /// Write one big-endian 16-bit register pair.
    pub fn write_word(&mut self, address: u8, value: u16)
        ensures
            final(self).spec_config() == old(self).spec_config(),
    {
        self.write_bytes::<3>(address, Packet::from_u16(value));
    }

    /// Write the x-axis cycle-count register and update the cache with it.
    pub fn set_cycle_count_x(&mut self, ccx: u16)
        ensures
            final(self).spec_config() == (Config {
                cc: CycleCount { x: ccx, ..old(self).spec_config().cc },
                ..old(self).spec_config()
            }),
    {
        self.config.cc.x = ccx;
        self.write_word(CCX_REG, ccx);
    }

    /// Write the y-axis cycle-count register and update the cache with it.
    pub fn set_cycle_count_y(&mut self, ccy: u16)
        ensures
            final(self).spec_config() == (Config {
                cc: CycleCount { y: ccy, ..old(self).spec_config().cc },
                ..old(self).spec_config()
            }),
    {
        self.config.cc.y = ccy;
        self.write_word(CCY_REG, ccy);
    }

    /// Write the z-axis cycle-count register and update the cache with it.
    pub fn set_cycle_count_z(&mut self, ccz: u16)
        ensures
            final(self).spec_config() == (Config {
                cc: CycleCount { z: ccz, ..old(self).spec_config().cc },
                ..old(self).spec_config()
            }),
    {
        self.config.cc.z = ccz;
        self.write_word(CCZ_REG, ccz);
    }

    /// Write all three cycle-count registers in one six-byte block
    /// transaction and update the cache with them.
    pub fn set_cycle_count_xyz(&mut self, ccx: u16, ccy: u16, ccz: u16)
        ensures
            final(self).spec_config() == (Config {
                cc: CycleCount { x: ccx, y: ccy, z: ccz },
                ..old(self).spec_config()
            }),
    {
        self.config.cc = CycleCount { x: ccx, y: ccy, z: ccz };
        self.write_bytes::<7>(CCX_REG, Packet::from_u16x3([ccx, ccy, ccz]));
    }

    /// Set the same cycle count on all three axes.
    pub fn set_cycle_count(&mut self, cc: u16)
        ensures
            final(self).spec_config() == (Config {
                cc: CycleCount { x: cc, y: cc, z: cc },
                ..old(self).spec_config()
            }),
    {
        self.set_cycle_count_xyz(cc, cc, cc);
    }

    /// The cached cycle counts.
    pub fn get_cycle_count(&mut self) -> (cc: CycleCount)
        ensures
            *final(self) == *old(self),
            cc == old(self).spec_config().cc,
    {
        self.config.cc
    }

    /// Write the update-rate register and update the cache with it.
    pub fn set_update_rate(&mut self, rate: UpdateRate)
        ensures
            final(self).spec_config() == (Config { rate, ..old(self).spec_config() }),
    {
        self.config.rate = rate;
        self.write_byte(TMRC_REG, rate.to_byte());
    }

    /// The cached update rate.
    pub fn get_update_rate(&mut self) -> (rate: UpdateRate)
        ensures
            *final(self) == *old(self),
            rate == old(self).spec_config().rate,
    {
        self.config.rate
    }

    /// Write the data-ready mode into the mode register and update the
    /// cache with it; the cached bits are reused whenever continuous
    /// measurement is started or stopped.
    pub fn set_drdm(&mut self, mode: DRDM)
        ensures
            final(self).spec_config() == (Config { drdm: mode, ..old(self).spec_config() }),
    {
        self.config.drdm = mode;
        self.write_byte(CMM_REG, mode.to_byte());
    }

    /// Request one measurement of the chosen axes through the poll
    /// register.  The caller must ensure no measurement is already in
    /// progress.
    pub fn start_single_measure(&mut self, x: bool, y: bool, z: bool)
        ensures
            final(self).spec_config() == old(self).spec_config(),
    {
        let mask = poll_mask(x, y, z);
        self.write_byte(POLL_REG, mask);
    }

    /// Start free-running measurement of the chosen axes, preserving the
    /// cached data-ready-mode bits.
    pub fn start_continuous_measure(&mut self, x: bool, y: bool, z: bool)
        ensures
            final(self).spec_config() == old(self).spec_config(),
    {
        let byte = cmm_byte(self.config.drdm, x, y, z, true);
        self.write_byte(CMM_REG, byte);
    }

    /// Clear the start bit of the mode register, preserving the cached
    /// data-ready-mode bits.
    pub fn stop_continuous_measure(&mut self)
        ensures
            final(self).spec_config() == old(self).spec_config(),
    {
        let byte = cmm_byte(self.config.drdm, false, false, false, false);
        self.write_byte(CMM_REG, byte);
    }

    /// Read the revision-ID register and compare it with the expected
    /// revision; `revid_matches` pins the comparison for every byte the
    /// sensor could answer.
    pub fn check_connect(&mut self, revid: u8) -> (connected: bool)
        ensures
            final(self).spec_config() == old(self).spec_config(),
    {
        let received = self.read_byte(REVID_REG);
        revid_matches(received, revid)
    }

    /// Read the status register and test its data-ready bit.
    pub fn get_status(&mut self) -> (status: Status)
        ensures
            final(self).spec_config() == old(self).spec_config(),
    {
        let byte = self.read_byte(STATUS_REG);
        status_of(byte)
    }

    /// Read the x-axis measurement: a sign-extended 24-bit count.
    pub fn read_magx(&mut self) -> (mag: i32)
        ensures
            final(self).spec_config() == old(self).spec_config(),
            -0x800000 <= mag < 0x800000,
    {
        let packet = self.read_bytes::<4>(MX_REG);
        packet.to_i32()
    }

    /// Read the y-axis measurement: a sign-extended 24-bit count.
    pub fn read_magy(&mut self) -> (mag: i32)
        ensures
            final(self).spec_config() == old(self).spec_config(),
            -0x800000 <= mag < 0x800000,
    {
        let packet = self.read_bytes::<4>(MY_REG);
        packet.to_i32()
    }

    /// Read the z-axis measurement: a sign-extended 24-bit count.
    pub fn read_magz(&mut self) -> (mag: i32)
        ensures
            final(self).spec_config() == old(self).spec_config(),
            -0x800000 <= mag < 0x800000,
    {
        let packet = self.read_bytes::<4>(MZ_REG);
        packet.to_i32()
    }

    /// Read all three axes in one nine-byte block transaction, keeping the
    /// samples temporally coherent.
    pub fn read_mag(&mut self) -> (mag: [i32; 3])
        ensures
            final(self).spec_config() == old(self).spec_config(),
            forall|i: int| 0 <= i < 3 ==> -0x800000 <= #[trigger] mag[i] < 0x800000,
    {
        let packet = self.read_bytes::<10>(MX_REG);
        packet.to_i32x3()
    }
}

} // verus!

//! Command encoding for a single MCP47x6 DAC on a shared I2C bus.
//!
//! The bus transfers themselves are asynchronous I/O and live with the
//! caller; this module computes, with proofs, the bytes that go on the wire.

use vstd::prelude::*;

verus! {

/// Device address.
#[derive(Clone, Copy, Debug, PartialEq, Eq, Structural)]
pub enum Address {
    A0,
    A1,
    A2,
    A3,
    A4,
    A5,
    A6,
    A7,
}

impl Address {
    /// The 7-bit I2C address: `0b1100` followed by the three address bits.
    pub open spec fn spec_bits(self) -> u8 {
        match self {
            Address::A0 => 0b1100000,
            Address::A1 => 0b1100001,
            Address::A2 => 0b1100010,
            Address::A3 => 0b1100011,
            Address::A4 => 0b1100100,
            Address::A5 => 0b1100101,
            Address::A6 => 0b1100110,
            Address::A7 => 0b1100111,
        }
    }

    /// The 7-bit I2C address of the device.
    pub fn bits(self) -> (b: u8)
        ensures
            b == self.spec_bits(),
    {
        match self {
            Address::A0 => 0b1100000,
            Address::A1 => 0b1100001,
            Address::A2 => 0b1100010,
            Address::A3 => 0b1100011,
            Address::A4 => 0b1100100,
            Address::A5 => 0b1100101,
            Address::A6 => 0b1100110,
            Address::A7 => 0b1100111,
        }
    }
}

/// Resistor Ladder Voltage Reference selection.
#[derive(Clone, Copy, Debug, PartialEq, Eq, Structural)]
pub enum Vrl {
    /// Vdd (Unbuffered).
    Vdd,
    /// Vref pin (Unbuffered).
    VrefUnbuffered,
    /// Vref pin (Buffered).
    VrefBuffered,
}

impl Vrl {
    /// The two VREF bits of the configuration byte.
    pub open spec fn spec_bits(self) -> u8 {
        match self {
            Vrl::Vdd => 0b00,
            Vrl::VrefUnbuffered => 0b10,
            Vrl::VrefBuffered => 0b11,
        }
    }

    /// The two VREF bits of the configuration byte.
    pub fn bits(self) -> (b: u8)
        ensures
            b == self.spec_bits(),
    {
        match self {
            Vrl::Vdd => 0b00,
            Vrl::VrefUnbuffered => 0b10,
            Vrl::VrefBuffered => 0b11,
        }
    }
}

/// Power-Down selection.
#[derive(Clone, Copy, Debug, PartialEq, Eq, Structural)]
pub enum PowerDown {
    /// Not Powered Down (Normal operation).
    NormalOperation,
    /// Powered Down - Vout is loaded with 1 kOhm resistor to ground.
    PowerDown1KOhm,
    /// Powered Down - Vout is loaded with 100 kOhm resistor to ground.
    PowerDown100KOhm,
    /// Powered Down - Vout is loaded with 500 kOhm resistor to ground.
    PowerDown500KOhm,
}

impl PowerDown {
    /// The two PD bits of the configuration byte.
    pub open spec fn spec_bits(self) -> u8 {
        match self {
            PowerDown::NormalOperation => 0b00,
            PowerDown::PowerDown1KOhm => 0b01,
            PowerDown::PowerDown100KOhm => 0b10,
            PowerDown::PowerDown500KOhm => 0b11,
        }
    }

    /// The two PD bits of the configuration byte.
    pub fn bits(self) -> (b: u8)
        ensures
            b == self.spec_bits(),
    {
        match self {
            PowerDown::NormalOperation => 0b00,
            PowerDown::PowerDown1KOhm => 0b01,
            PowerDown::PowerDown100KOhm => 0b10,
            PowerDown::PowerDown500KOhm => 0b11,
        }
    }
}

/// Gain selection.
#[derive(Clone, Copy, Debug, PartialEq, Eq, Structural)]
pub enum Gain {
    /// Gain of 1.
    One,
    /// Gain of 2. Not applicable when Vdd is used as Vrl
    Two,
}

impl Gain {
    /// The G bit of the configuration byte.
    pub open spec fn spec_bits(self) -> u8 {
        match self {
            Gain::One => 0,
            Gain::Two => 1,
        }
    }

    /// The G bit of the configuration byte.
    pub fn bits(self) -> (b: u8)
        ensures
            b == self.spec_bits(),
    {
        match self {
            Gain::One => 0,
            Gain::Two => 1,
        }
    }
}

/// Volatile configuration of the DAC.
#[non_exhaustive]
#[derive(Clone, Copy, Debug, PartialEq, Eq, Structural)]
pub struct Config {
    pub vrl: Vrl,
    pub pd: PowerDown,
    pub g: Gain,
}

impl Default for Config {
    fn default() -> (c: Self)
        ensures
            c.vrl == Vrl::Vdd,
            c.pd == PowerDown::NormalOperation,
            c.g == Gain::One,
    {
        Self { vrl: Vrl::Vdd, pd: PowerDown::NormalOperation, g: Gain::One }
    }
}

/// The command code "write volatile memory" (C2 C1 C0 = 0b010).
pub open spec fn write_volatile_memory_code() -> int {
    0b010
}

/// The first byte of the "write volatile memory" command:
/// `C2 C1 C0 VREF1 VREF0 PD1 PD0 G`, most significant bit first.
pub open spec fn config_byte(config: Config) -> int {
    write_volatile_memory_code() * 32 + config.vrl.spec_bits() * 8 + config.pd.spec_bits() * 2
        + config.g.spec_bits()
}

/// The two bytes of the fast write command for `value`: the upper nibble of the
/// first byte is zero (fast write, not powered down), its lower nibble holds
/// bits 15..12 of `value`, and the second byte holds bits 11..4.
pub open spec fn fast_write_bytes(value: u16) -> Seq<u8> {
    seq![(value / 4096) as u8, ((value / 16) % 256) as u8]
}

/// Every device address carries the fixed MCP47x6 device code `0b1100` in its
/// upper bits, and distinct addresses select distinct devices.
pub proof fn lemma_address_encoding(a: Address, b: Address)
    ensures
        a.spec_bits() >> 3u8 == 0b1100u8,
        a.spec_bits() < 128,
        a != b ==> a.spec_bits() != b.spec_bits(),
{
    let x = a.spec_bits();
    assert(x >> 3u8 == 0b1100u8) by (bit_vector)
        requires
            0b1100000u8 <= x <= 0b1100111u8,
    ;
}

/// The configuration byte is laid out as `C2 C1 C0 VREF1 VREF0 PD1 PD0 G`:
/// each setting reads back from its own bits, the command bits read back as
/// "write volatile memory", and so distinct configurations give distinct
/// commands.
pub proof fn lemma_config_byte_fields(config: Config, other: Config)
    ensures
        0 <= config_byte(config) < 256,
        (config_byte(config) as u8) >> 5u8 == 0b010u8,
        ((config_byte(config) as u8) >> 3u8) & 0b11u8 == config.vrl.spec_bits(),
        ((config_byte(config) as u8) >> 1u8) & 0b11u8 == config.pd.spec_bits(),
        (config_byte(config) as u8) & 1u8 == config.g.spec_bits(),
        config_byte(config) == config_byte(other) ==> config == other,
{
    let v = config.vrl.spec_bits();
    let p = config.pd.spec_bits();
    let g = config.g.spec_bits();
    let b = config_byte(config) as u8;
    assert(b == 64 + v * 8 + p * 2 + g);
    assert(b >> 5u8 == 0b010u8 && (b >> 3u8) & 0b11u8 == v && (b >> 1u8) & 0b11u8 == p && b & 1u8
        == g) by (bit_vector)
        requires
            v < 4u8,
            p < 4u8,
            g < 2u8,
            b == 64 + v * 8 + p * 2 + g,
    ;
}

/// The fast write command sends the upper twelve bits of the value: the first
/// byte's command and power-down bits are zero, and the two bytes read back as
/// `value >> 4`.
pub proof fn lemma_fast_write_code(value: u16)
    ensures
        fast_write_bytes(value)[0] < 16,
        fast_write_bytes(value)[0] * 256 + fast_write_bytes(value)[1] == value / 16,
{
}

/// Driver for a single MCP47x6 DAC device on a shared I2C bus.
pub struct Mcp47x6 {
    address: u8,
}

impl View for Mcp47x6 {
    type V = u8;

    /// The 7-bit bus address the driver talks to.
    closed spec fn view(&self) -> u8 {
        self.address
    }
}

impl Mcp47x6 {
    pub fn new(address: Address) -> (dac: Self)
        ensures
            dac@ == address.spec_bits(),
    {
        Self { address: address.bits() }
    }

    /// The 7-bit bus address of the device.
    pub fn address(&self) -> (a: u8)
        ensures
            a == self@,
    {
        self.address
    }

    /// The bytes that initialize the device by writing the volatile
    /// configuration registers (the "write volatile memory" command).
    pub fn initialize_command(config: Config) -> (data: [u8; 3])
        ensures
            data@ == seq![config_byte(config) as u8, 0u8, 0u8],
    {
        let command: u8 = 0b010;
        let vref = config.vrl.bits();
        let pd = config.pd.bits();
        let g = config.g.bits();
        let first: u8 = (command << 5) | (vref << 3) | (pd << 1) | g;
        assert(first == command * 32 + vref * 8 + pd * 2 + g) by (bit_vector)
            requires
                command == 2u8,
                vref < 4u8,
                pd < 4u8,
                g < 2u8,
                first == (command << 5) | (vref << 3) | (pd << 1) | g,
        ;
        let data = [first, 0, 0];
        assert(data@ =~= seq![config_byte(config) as u8, 0u8, 0u8]);
        data
    }

    /// The bytes that update the DAC output using the fast write protocol:
    /// the upper twelve bits of `value` become the output code.
    pub fn update_command(value: u16) -> (data: [u8; 2])
        ensures
            data@ == fast_write_bytes(value),
    {
        let high = ((value >> 12) & 0x0f) as u8;
        let low = ((value >> 4) & 0xff) as u8;
        assert(((value >> 12) & 0x0f) == value / 4096 && ((value >> 4) & 0xff) == (value / 16)
            % 256) by (bit_vector);
        let data = [high, low];
        assert(data@ =~= fast_write_bytes(value));
        data
    }
}

} // verus!

//! Bit-field records for the seven physical registers of the amplifier and
//! the in-memory shadow map that holds one instance of each.
use vstd::prelude::*;

verus! {

/// 0 or 1 as a byte, for packing a boolean flag into a bit position.
pub open spec fn spec_bit(b: bool) -> u8 {
    if b {
        1
    } else {
        0
    }
}

/// Common shape of every register record: it can serialize itself to the raw
/// byte the device expects, and overwrite all of its fields from a raw byte
/// just read back.
pub trait RegisterMapRegister: Sized {
    /// The raw byte this record encodes to.
    spec fn byte_spec(&self) -> u8;

    /// The record obtained by decoding a raw byte.
    spec fn decoded_spec(b: u8) -> Self;

    /// Every field holds a value representable in its declared bit width.
    spec fn wf(&self) -> bool;

    fn as_byte(&self) -> (r: u8)
        ensures
            r == self.byte_spec(),
    ;

    fn update(&mut self, val: u8)
        ensures
            *final(self) == Self::decoded_spec(val),
            final(self).wf(),
    ;
}

/// Control register (address 1): speaker enables, shutdown, latched fault
/// flags, and the noise-gate enable. Bit 1 is reserved and always encodes as 1.
#[derive(Clone, Copy, PartialEq, Eq, Structural, Debug)]
#[verifier::ext_equal]
pub struct Register1 {
    pub spk_en_r: bool,
    pub spk_en_l: bool,
    pub sws: bool,
    pub fault_r: bool,
    pub fault_l: bool,
    pub thermal: bool,
    pub ng_en: bool,
}

impl Default for Register1 {
    /// Power-on-reset state: both speakers on, noise gate on, no faults.
    fn default() -> (r: Self)
        ensures
            r == Register1::default_spec(),
    {
        Register1 {
            spk_en_r: true,
            spk_en_l: true,
            sws: false,
            fault_r: false,
            fault_l: false,
            thermal: false,
            ng_en: true,
        }
    }
}

impl Register1 {
    pub open spec fn default_spec() -> Register1 {
        Register1 {
            spk_en_r: true,
            spk_en_l: true,
            sws: false,
            fault_r: false,
            fault_l: false,
            thermal: false,
            ng_en: true,
        }
    }
}

impl RegisterMapRegister for Register1 {
    open spec fn byte_spec(&self) -> u8 {
        (spec_bit(self.spk_en_r) << 7) | (spec_bit(self.spk_en_l) << 6) | (spec_bit(self.sws)
            << 5) | (spec_bit(self.fault_r) << 4) | (spec_bit(self.fault_l) << 3) | (spec_bit(
            self.thermal,
        ) << 2) | 0x02 | spec_bit(self.ng_en)
    }

    open spec fn decoded_spec(b: u8) -> Register1 {
        Register1 {
            spk_en_r: b & 0x80 != 0,
            spk_en_l: b & 0x40 != 0,
            sws: b & 0x20 != 0,
            fault_r: b & 0x10 != 0,
            fault_l: b & 0x08 != 0,
            thermal: b & 0x04 != 0,
            ng_en: b & 0x01 != 0,
        }
    }

    open spec fn wf(&self) -> bool {
        true
    }

    fn as_byte(&self) -> (r: u8) {
        let b7: u8 = if self.spk_en_r {
            1
        } else {
            0
        };
        let b6: u8 = if self.spk_en_l {
            1
        } else {
            0
        };
        let b5: u8 = if self.sws {
            1
        } else {
            0
        };
        let b4: u8 = if self.fault_r {
            1
        } else {
            0
        };
        let b3: u8 = if self.fault_l {
            1
        } else {
            0
        };
        let b2: u8 = if self.thermal {
            1
        } else {
            0
        };
        let b0: u8 = if self.ng_en {
            1
        } else {
            0
        };
        // Bit 1 is the reserved bit the hardware requires to read as 1.
        (b7 << 7) | (b6 << 6) | (b5 << 5) | (b4 << 4) | (b3 << 3) | (b2 << 2) | 0x02 | b0
    }

    fn update(&mut self, val: u8) {
        self.spk_en_r = val & 0x80 != 0;
        self.spk_en_l = val & 0x40 != 0;
        self.sws = val & 0x20 != 0;
        self.fault_r = val & 0x10 != 0;
        self.fault_l = val & 0x08 != 0;
        self.thermal = val & 0x04 != 0;
        // Bit 1 is reserved and has no field.
        self.ng_en = val & 0x01 != 0;
    }
}

/// Decoding the byte a control register encodes to recovers every flag: all
/// seven fields survive the round trip (the reserved bit has no field).
pub proof fn lemma_register1_round_trip(r: Register1)
    ensures
        Register1::decoded_spec(r.byte_spec()) == r,
{
    let b7 = spec_bit(r.spk_en_r);
    let b6 = spec_bit(r.spk_en_l);
    let b5 = spec_bit(r.sws);
    let b4 = spec_bit(r.fault_r);
    let b3 = spec_bit(r.fault_l);
    let b2 = spec_bit(r.thermal);
    let b0 = spec_bit(r.ng_en);
    let enc = r.byte_spec();
    assert(b7 <= 1 && b6 <= 1 && b5 <= 1 && b4 <= 1 && b3 <= 1 && b2 <= 1 && b0 <= 1 && enc == (b7
        << 7) | (b6 << 6) | (b5 << 5) | (b4 << 4) | (b3 << 3) | (b2 << 2) | 0x02 | b0 ==> ((enc
        & 0x80 != 0) == (b7 == 1)) && ((enc & 0x40 != 0) == (b6 == 1)) && ((enc & 0x20 != 0) == (b5
        == 1)) && ((enc & 0x10 != 0) == (b4 == 1)) && ((enc & 0x08 != 0) == (b3 == 1)) && ((enc
        & 0x04 != 0) == (b2 == 1)) && ((enc & 0x01 != 0) == (b0 == 1))) by (bit_vector);
    assert(Register1::decoded_spec(enc) =~= r);
}

/// The reserved bit of the control register is set in every encode, whatever
/// the flag values.
pub proof fn lemma_register1_reserved_bit(r: Register1)
    ensures
        r.byte_spec() & 0x02 != 0,
{
    let b7 = spec_bit(r.spk_en_r);
    let b6 = spec_bit(r.spk_en_l);
    let b5 = spec_bit(r.sws);
    let b4 = spec_bit(r.fault_r);
    let b3 = spec_bit(r.fault_l);
    let b2 = spec_bit(r.thermal);
    let b0 = spec_bit(r.ng_en);
    assert(((b7 << 7) | (b6 << 6) | (b5 << 5) | (b4 << 4) | (b3 << 3) | (b2 << 2) | 0x02 | b0)
        & 0x02 != 0) by (bit_vector);
}

/// A register holding one unsigned magnitude masked to its low six bits
/// (attack, release and hold time codes, and the fixed gain). Values above
/// the width are silently truncated, never rejected.
#[derive(Clone, Copy, PartialEq, Eq, Structural, Debug)]
#[verifier::ext_equal]
pub struct U6Register(pub u8);

impl U6Register {
    /// The register after a magnitude has been stored: only its low six bits
    /// are kept.
    pub open spec fn set_spec(self, value: u8) -> U6Register {
        U6Register { 0: value & 0x3F }
    }

    /// Store a new magnitude, keeping only the low six bits.
    pub fn set(&mut self, value: u8)
        ensures
            *final(self) == old(self).set_spec(value),
            *final(self) == (U6Register { 0: value & 0x3F }),
            final(self).wf(),
    {
        self.0 = value & 0x3F;
        proof {
            lemma_mask_bounds(value);
        }
    }
}

impl RegisterMapRegister for U6Register {
    open spec fn byte_spec(&self) -> u8 {
        self.0 & 0x3F
    }

    open spec fn decoded_spec(b: u8) -> U6Register {
        U6Register { 0: b & 0x3F }
    }

    open spec fn wf(&self) -> bool {
        self.0 < 64
    }

    fn as_byte(&self) -> (r: u8) {
        self.0 & 0x3F
    }

    fn update(&mut self, val: u8) {
        self.0 = val & 0x3F;
        proof {
            lemma_mask_bounds(val);
        }
    }
}

/// A magnitude register's stored value survives the byte round trip.
pub proof fn lemma_u6_round_trip(r: U6Register)
    requires
        r.wf(),
    ensures
        U6Register::decoded_spec(r.byte_spec()) == r,
{
    let v = r.0;
    assert(v < 64 ==> (v & 0x3F) & 0x3F == v) by (bit_vector);
    assert(U6Register::decoded_spec(r.byte_spec()) =~= r);
}

/// Storing any magnitude `v` encodes the same byte as storing `v & 0x3F`:
/// truncation, not saturation, is the out-of-range policy.
pub proof fn lemma_u6_masking(r: U6Register, v: u8)
    ensures
        r.set_spec(v).byte_spec() == r.set_spec(v & 0x3F).byte_spec(),
        r.set_spec(v).byte_spec() == v & 0x3F,
{
    assert((v & 0x3F) & 0x3F == v & 0x3F) by (bit_vector);
}

/// Limiter/gate register (address 6): output-limiter disable flag, the 2-bit
/// noise-gate threshold code, and the 5-bit output-limiter level.
#[derive(Clone, Copy, PartialEq, Eq, Structural, Debug)]
#[verifier::ext_equal]
pub struct Register6 {
    pub output_limiter_disable: bool,
    pub noise_gate_threshold: u8,
    pub output_limiter_level: u8,
}

impl Default for Register6 {
    /// Power-on-reset state: limiter enabled, 4 mV gate threshold, level 26.
    fn default() -> (r: Self)
        ensures
            r == Register6::default_spec(),
    {
        Register6 { output_limiter_disable: false, noise_gate_threshold: 0x01, output_limiter_level: 0x1A }
    }
}

impl Register6 {
    pub open spec fn default_spec() -> Register6 {
        Register6 { output_limiter_disable: false, noise_gate_threshold: 0x01, output_limiter_level: 0x1A }
    }
}

impl RegisterMapRegister for Register6 {
    open spec fn byte_spec(&self) -> u8 {
        (spec_bit(self.output_limiter_disable) << 7) | ((self.noise_gate_threshold & 0x03) << 5)
            | (self.output_limiter_level & 0x1F)
    }

    open spec fn decoded_spec(b: u8) -> Register6 {
        Register6 {
            output_limiter_disable: b & 0x80 != 0,
            noise_gate_threshold: (b >> 5) & 0x03,
            output_limiter_level: b & 0x1F,
        }
    }

    open spec fn wf(&self) -> bool {
        self.noise_gate_threshold < 4 && self.output_limiter_level < 32
    }

    fn as_byte(&self) -> (r: u8) {
        let b7: u8 = if self.output_limiter_disable {
            1
        } else {
            0
        };
        (b7 << 7) | ((self.noise_gate_threshold & 0x03) << 5) | (self.output_limiter_level & 0x1F)
    }

    fn update(&mut self, val: u8) {
        self.output_limiter_disable = val & 0x80 != 0;
        self.noise_gate_threshold = (val >> 5) & 0x03;
        self.output_limiter_level = val & 0x1F;
        proof {
            lemma_decode_bounds(val);
        }
    }
}

/// Every field of a well-formed limiter/gate register survives the byte
/// round trip.
pub proof fn lemma_register6_round_trip(r: Register6)
    requires
        r.wf(),
    ensures
        Register6::decoded_spec(r.byte_spec()) == r,
{
    let d = spec_bit(r.output_limiter_disable);
    let t = r.noise_gate_threshold;
    let l = r.output_limiter_level;
    let enc = r.byte_spec();
    assert(d <= 1 && t < 4 && l < 32 && enc == (d << 7) | ((t & 0x03) << 5) | (l & 0x1F) ==> ((enc
        & 0x80 != 0) == (d == 1)) && ((enc >> 5) & 0x03 == t) && (enc & 0x1F == l)) by (bit_vector);
    assert(Register6::decoded_spec(enc) =~= r);
}

/// Gain/ratio register (address 7): the 4-bit maximum gain and the 2-bit
/// compression-ratio code.
#[derive(Clone, Copy, PartialEq, Eq, Structural, Debug)]
#[verifier::ext_equal]
pub struct Register7 {
    pub max_gain: u8,
    pub compression_ratio: u8,
}

impl Default for Register7 {
    /// Power-on-reset state: maximum gain 12, compression ratio code 2 (4:1).
    fn default() -> (r: Self)
        ensures
            r == Register7::default_spec(),
    {
        Register7 { max_gain: 0x0C, compression_ratio: 0x02 }
    }
}

impl Register7 {
    pub open spec fn default_spec() -> Register7 {
        Register7 { max_gain: 0x0C, compression_ratio: 0x02 }
    }
}

impl RegisterMapRegister for Register7 {
    open spec fn byte_spec(&self) -> u8 {
        ((self.max_gain & 0x0F) << 4) | (self.compression_ratio & 0x03)
    }

    open spec fn decoded_spec(b: u8) -> Register7 {
        Register7 { max_gain: b >> 4, compression_ratio: b & 0x03 }
    }

    open spec fn wf(&self) -> bool {
        self.max_gain < 16 && self.compression_ratio < 4
    }

    fn as_byte(&self) -> (r: u8) {
        ((self.max_gain & 0x0F) << 4) | (self.compression_ratio & 0x03)
    }

    fn update(&mut self, val: u8) {
        self.max_gain = val >> 4;
        self.compression_ratio = val & 0x03;
        proof {
            lemma_decode_bounds(val);
        }
    }
}

/// Every field of a well-formed gain/ratio register survives the byte round
/// trip.
pub proof fn lemma_register7_round_trip(r: Register7)
    requires
        r.wf(),
    ensures
        Register7::decoded_spec(r.byte_spec()) == r,
{
    let g = r.max_gain;
    let c = r.compression_ratio;
    let enc = r.byte_spec();
    assert(g < 16 && c < 4 && enc == ((g & 0x0F) << 4) | (c & 0x03) ==> (enc >> 4 == g) && (enc
        & 0x03 == c)) by (bit_vector);
    assert(Register7::decoded_spec(enc) =~= r);
}

/// Bounds that every field extracted from a raw byte satisfies: decoding
/// always yields a well-formed record.
pub proof fn lemma_decode_bounds(b: u8)
    ensures
        (b >> 5) & 0x03 < 4,
        b & 0x03 < 4,
        b & 0x1F < 32,
        b >> 4 < 16,
        b & 0x3F < 64,
{
    assert((b >> 5) & 0x03 < 4 && b & 0x03 < 4 && b & 0x1F < 32 && b >> 4 < 16 && b & 0x3F < 64)
        by (bit_vector);
}

/// Masking to six bits bounds the result.
pub proof fn lemma_mask_bounds(b: u8)
    ensures
        b & 0x3F < 64,
        b & 0x1F < 32,
{
    assert(b & 0x3F < 64 && b & 0x1F < 32) by (bit_vector);
}

/// The shadow of the device's register state: exactly one record per
/// physical address 1 through 7. Every field holds the value last set
/// locally or decoded from a byte read back from the device.
#[derive(Clone, Copy, PartialEq, Eq, Structural, Debug)]
#[verifier::ext_equal]
pub struct RegisterMap {
    pub reg1: Register1,
    /// Address 2: attack time code.
    pub atk_time: U6Register,
    /// Address 3: release time code.
    pub rel_time: U6Register,
    /// Address 4: hold time code.
    pub hold_time: U6Register,
    /// Address 5: fixed gain.
    pub fixed_gain: U6Register,
    pub reg6: Register6,
    pub reg7: Register7,
}

impl Default for RegisterMap {
    /// All seven registers at their documented power-on-reset values.
    fn default() -> (r: Self)
        ensures
            r == RegisterMap::default_spec(),
            r.wf(),
    {
        RegisterMap {
            reg1: Register1::default(),
            atk_time: U6Register(0x05),
            rel_time: U6Register(0x0B),
            hold_time: U6Register(0x00),
            fixed_gain: U6Register(0x06),
            reg6: Register6::default(),
            reg7: Register7::default(),
        }
    }
}

impl RegisterMap {
    pub open spec fn default_spec() -> RegisterMap {
        RegisterMap {
            reg1: Register1::default_spec(),
            atk_time: U6Register { 0: 0x05 },
            rel_time: U6Register { 0: 0x0B },
            hold_time: U6Register { 0: 0x00 },
            fixed_gain: U6Register { 0: 0x06 },
            reg6: Register6::default_spec(),
            reg7: Register7::default_spec(),
        }
    }

    /// Every register's fields fit their declared bit widths.
    pub open spec fn wf(&self) -> bool {
        &&& self.reg1.wf()
        &&& self.atk_time.wf()
        &&& self.rel_time.wf()
        &&& self.hold_time.wf()
        &&& self.fixed_gain.wf()
        &&& self.reg6.wf()
        &&& self.reg7.wf()
    }

    /// The byte the register at `idx` encodes to; addresses outside 1..=7
    /// encode as zero.
    pub open spec fn byte_at(&self, idx: int) -> u8 {
        if idx == 1 {
            self.reg1.byte_spec()
        } else if idx == 2 {
            self.atk_time.byte_spec()
        } else if idx == 3 {
            self.rel_time.byte_spec()
        } else if idx == 4 {
            self.hold_time.byte_spec()
        } else if idx == 5 {
            self.fixed_gain.byte_spec()
        } else if idx == 6 {
            self.reg6.byte_spec()
        } else if idx == 7 {
            self.reg7.byte_spec()
        } else {
            0
        }
    }

    /// The map with the register at `idx` replaced by the decode of `val`;
    /// addresses outside 1..=7 leave the map unchanged.
    pub open spec fn updated(self, idx: int, val: u8) -> RegisterMap {
        if idx == 1 {
            RegisterMap { reg1: Register1::decoded_spec(val), ..self }
        } else if idx == 2 {
            RegisterMap { atk_time: U6Register::decoded_spec(val), ..self }
        } else if idx == 3 {
            RegisterMap { rel_time: U6Register::decoded_spec(val), ..self }
        } else if idx == 4 {
            RegisterMap { hold_time: U6Register::decoded_spec(val), ..self }
        } else if idx == 5 {
            RegisterMap { fixed_gain: U6Register::decoded_spec(val), ..self }
        } else if idx == 6 {
            RegisterMap { reg6: Register6::decoded_spec(val), ..self }
        } else if idx == 7 {
            RegisterMap { reg7: Register7::decoded_spec(val), ..self }
        } else {
            self
        }
    }

    /// The map after decoding each `(address, byte)` entry in order.
    pub open spec fn applied(self, entries: Seq<(u8, u8)>) -> RegisterMap
        decreases entries.len(),
    {
        if entries.len() == 0 {
            self
        } else {
            self.applied(entries.drop_last()).updated(
                entries.last().0 as int,
                entries.last().1,
            )
        }
    }

    /// Encode of the register at address `idx`; out-of-range addresses yield
    /// zero rather than an error.
    pub fn reg_as_byte(&self, idx: usize) -> (r: u8)
        ensures
            r == self.byte_at(idx as int),
    {
        match idx {
            1 => self.reg1.as_byte(),
            2 => self.atk_time.as_byte(),
            3 => self.rel_time.as_byte(),
            4 => self.hold_time.as_byte(),
            5 => self.fixed_gain.as_byte(),
            6 => self.reg6.as_byte(),
            7 => self.reg7.as_byte(),
            _ => 0,
        }
    }

    /// Replace the register at address `idx` with the decode of `val`,
    /// overwriting all of its prior field values.
    pub fn update_map(&mut self, idx: u8, val: u8)
        ensures
            *final(self) == old(self).updated(idx as int, val),
            old(self).wf() ==> final(self).wf(),
    {
        match idx {
            1 => self.reg1.update(val),
            2 => self.atk_time.update(val),
            3 => self.rel_time.update(val),
            4 => self.hold_time.update(val),
            5 => self.fixed_gain.update(val),
            6 => self.reg6.update(val),
            7 => self.reg7.update(val),
            _ => (),
        }
        assert(*self =~= old(self).updated(idx as int, val));
    }
}

/// A freshly constructed register map encodes, address by address, to
/// exactly the documented power-on-reset bytes.
pub proof fn lemma_default_encode()
    ensures
        RegisterMap::default_spec().byte_at(1) == 0xC3,
        RegisterMap::default_spec().byte_at(2) == 0x05,
        RegisterMap::default_spec().byte_at(3) == 0x0B,
        RegisterMap::default_spec().byte_at(4) == 0x00,
        RegisterMap::default_spec().byte_at(5) == 0x06,
        RegisterMap::default_spec().byte_at(6) == 0x3A,
        RegisterMap::default_spec().byte_at(7) == 0xC2,
{
    assert((1u8 << 7) | (1u8 << 6) | (0u8 << 5) | (0u8 << 4) | (0u8 << 3) | (0u8 << 2) | 0x02
        | 1u8 == 0xC3) by (bit_vector);
    assert(0x05u8 & 0x3F == 0x05 && 0x0Bu8 & 0x3F == 0x0B && 0x00u8 & 0x3F == 0x00 && 0x06u8 & 0x3F
        == 0x06) by (bit_vector);
    assert((0u8 << 7) | ((0x01u8 & 0x03) << 5) | (0x1Au8 & 0x1F) == 0x3A) by (bit_vector);
    assert(((0x0Cu8 & 0x0F) << 4) | (0x02u8 & 0x03) == 0xC2) by (bit_vector);
}

} // verus!

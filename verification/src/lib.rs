//! Driver core for a register-mapped stereo class-D audio amplifier reached
//! over a two-wire bus: bit-field encode/decode for each register, an
//! in-memory shadow of the device state, unit conversions, and the
//! multi-register sequencing for the named automatic-gain-control presets.
pub mod regmap;
pub mod transport;

use vstd::prelude::*;

pub use regmap::Register1;
pub use regmap::Register6;
pub use regmap::Register7;
pub use regmap::RegisterMap;
pub use regmap::RegisterMapRegister;
pub use regmap::U6Register;
pub use transport::Transport;

use regmap::lemma_mask_bounds;

verus! {

/// The fixed 7-bit bus address of the device: the datasheet gives the 8-bit
/// example address 0xB0, whose upper seven bits address the part.
pub const TPA2016_I2C_ADDR: u8 = 0xB0 >> 1;

/// Release-time quantum: one register code step per 1644 ms.
pub const RELEASE_TIME_QUANTUM_MS: u32 = 1644;

/// Hold-time quantum: one register code step per 137 ms.
pub const HOLD_TIME_QUANTUM_MS: u32 = 137;

/// Representation of a register-mapped stereo audio amplifier on a two-wire
/// bus, owning the transport handle and the shadow of its register state.
pub struct Tpa2016d2<T> {
    i2c: T,
    regmap: RegisterMap,
    writes: Ghost<Seq<(u8, u8)>>,
    reads: Ghost<Seq<(u8, u8)>>,
}

/// The latched fault flags of the control register.
pub struct Faults {
    pub fault_r: bool,
    pub fault_l: bool,
    pub thermal: bool,
}

/// Compression ratio of the automatic gain control.
pub enum CompressionRatio {
    /// Ratio 1:1
    Ratio1,
    /// Ratio 2:1
    Ratio2,
    /// Ratio 4:1
    Ratio4,
    /// Ratio 8:1
    Ratio8,
}

impl CompressionRatio {
    /// The 2-bit register code of this ratio.
    pub open spec fn code_spec(&self) -> u8 {
        match self {
            CompressionRatio::Ratio1 => 0x00,
            CompressionRatio::Ratio2 => 0x01,
            CompressionRatio::Ratio4 => 0x02,
            CompressionRatio::Ratio8 => 0x03,
        }
    }

    /// The 2-bit register code of this ratio.
    pub fn code(&self) -> (r: u8)
        ensures
            r == self.code_spec(),
            r < 4,
    {
        match self {
            CompressionRatio::Ratio1 => 0x00,
            CompressionRatio::Ratio2 => 0x01,
            CompressionRatio::Ratio4 => 0x02,
            CompressionRatio::Ratio8 => 0x03,
        }
    }
}

/// Noise gate threshold.
pub enum NoiseGateThreshold {
    Ngt20mV,
    Ngt10mV,
    Ngt4mV,
    Ngt1mV,
}

impl NoiseGateThreshold {
    /// The 2-bit register code of this threshold.
    pub open spec fn code_spec(&self) -> u8 {
        match self {
            NoiseGateThreshold::Ngt20mV => 0x03,
            NoiseGateThreshold::Ngt10mV => 0x02,
            NoiseGateThreshold::Ngt4mV => 0x01,
            NoiseGateThreshold::Ngt1mV => 0x00,
        }
    }

    /// The 2-bit register code of this threshold.
    pub fn code(&self) -> (r: u8)
        ensures
            r == self.code_spec(),
            r < 4,
    {
        match self {
            NoiseGateThreshold::Ngt20mV => 0x03,
            NoiseGateThreshold::Ngt10mV => 0x02,
            NoiseGateThreshold::Ngt4mV => 0x01,
            NoiseGateThreshold::Ngt1mV => 0x00,
        }
    }
}

/// Automatic gain control presets from the datasheet.
pub enum AgcPreset {
    Pop,
    Classical,
    Jazz,
    Rap,
    Rock,
    Voice,
}

/// The datasheet parameters of a named preset, as `(compression-ratio code,
/// attack code, release time in ms, hold time in ms, fixed gain,
/// limiter-level byte)`.
pub open spec fn preset_params_spec(p: AgcPreset) -> (u8, u8, u32, u32, u8, u8) {
    match p {
        AgcPreset::Pop => (0x02, 0x02, 986, 137, 6, 0x3C),
        AgcPreset::Classical => (0x01, 0x02, 1150, 137, 6, 0x3D),
        AgcPreset::Jazz => (0x01, 0x06, 3288, 0, 6, 0x3D),
        AgcPreset::Rap => (0x02, 0x02, 1640, 0, 6, 0x3C),
        AgcPreset::Rock => (0x01, 0x03, 4110, 0, 6, 0x3D),
        AgcPreset::Voice => (0x02, 0x02, 1640, 0, 6, 0x3E),
    }
}

/// The datasheet parameters of a named preset, as `(compression-ratio code,
/// attack code, release time in ms, hold time in ms, fixed gain,
/// limiter-level byte)`.
pub fn preset_params(p: &AgcPreset) -> (r: (u8, u8, u32, u32, u8, u8))
    ensures
        r == preset_params_spec(*p),
{
    match p {
        AgcPreset::Pop => (0x02, 0x02, 986, 137, 6, 0x3C),
        AgcPreset::Classical => (0x01, 0x02, 1150, 137, 6, 0x3D),
        AgcPreset::Jazz => (0x01, 0x06, 3288, 0, 6, 0x3D),
        AgcPreset::Rap => (0x02, 0x02, 1640, 0, 6, 0x3C),
        AgcPreset::Rock => (0x01, 0x03, 4110, 0, 6, 0x3D),
        AgcPreset::Voice => (0x02, 0x02, 1640, 0, 6, 0x3E),
    }
}

/// The shadow state after a named preset's parameters have been stored:
/// release and hold times converted by the quantum-floor rule, magnitudes
/// truncated to their bit widths, everything a preset does not name kept.
pub open spec fn preset_applied(m: RegisterMap, p: AgcPreset) -> RegisterMap {
    let (cr, atk, rel_ms, hold_ms, fixed_gain, limiter_level) = preset_params_spec(p);
    RegisterMap {
        atk_time: U6Register { 0: atk & 0x3F },
        rel_time: U6Register { 0: release_time_code(rel_ms) & 0x3F },
        hold_time: U6Register { 0: hold_time_code(hold_ms) & 0x3F },
        fixed_gain: U6Register { 0: fixed_gain & 0x3F },
        reg6: Register6 { output_limiter_level: limiter_level & 0x1F, ..m.reg6 },
        reg7: Register7 { compression_ratio: cr, ..m.reg7 },
        ..m
    }
}

/// The write transactions a preset issues: the encodes of registers 2
/// through 7, in ascending address order.
pub open spec fn preset_write_seq(m: RegisterMap) -> Seq<(u8, u8)> {
    seq![
        (2u8, m.byte_at(2)),
        (3u8, m.byte_at(3)),
        (4u8, m.byte_at(4)),
        (5u8, m.byte_at(5)),
        (6u8, m.byte_at(6)),
        (7u8, m.byte_at(7)),
    ]
}

/// Applying a preset issues exactly six writes, to addresses 2 through 7 in
/// ascending order, and never writes the control register at address 1.
pub proof fn lemma_preset_write_order(m: RegisterMap)
    ensures
        preset_write_seq(m).len() == 6,
        forall|i: int|
            0 <= i < 6 ==> (#[trigger] preset_write_seq(m)[i]) == (
            ((i + 2) as u8, m.byte_at(i + 2))),
        forall|i: int| 0 <= i < 6 ==> (#[trigger] preset_write_seq(m)[i]).0 != 1,
{
    assert forall|i: int| 0 <= i < 6 implies (#[trigger] preset_write_seq(m)[i]) == (
    ((i + 2) as u8, m.byte_at(i + 2))) by {
        if i == 0 {
            assert(preset_write_seq(m)[0] == (2u8, m.byte_at(2)));
        } else if i == 1 {
            assert(preset_write_seq(m)[1] == (3u8, m.byte_at(3)));
        } else if i == 2 {
            assert(preset_write_seq(m)[2] == (4u8, m.byte_at(4)));
        } else if i == 3 {
            assert(preset_write_seq(m)[3] == (5u8, m.byte_at(5)));
        } else if i == 4 {
            assert(preset_write_seq(m)[4] == (6u8, m.byte_at(6)));
        } else {
            assert(preset_write_seq(m)[5] == (7u8, m.byte_at(7)));
        }
    }
}

/// A release time in milliseconds as a register code: one step per 1644 ms,
/// floor division, sub-quantum remainders dropped.
pub open spec fn release_time_code(v: u32) -> u8 {
    (v / 1644) as u8
}

/// Convert a release time in milliseconds to its register code by
/// quantum-floor division.
pub fn release_time_to_u6(v: u32) -> (r: u8)
    ensures
        r == release_time_code(v),
{
    (v / 1644) as u8
}

/// A hold time in milliseconds as a register code: one step per 137 ms,
/// floor division, sub-quantum remainders dropped.
pub open spec fn hold_time_code(v: u32) -> u8 {
    (v / 137) as u8
}

/// Convert a hold time in milliseconds to its register code by quantum-floor
/// division.
pub fn hold_time_to_u6(v: u32) -> (r: u8)
    ensures
        r == hold_time_code(v),
{
    (v / 137) as u8
}

impl<T: Transport> Tpa2016d2<T> {
    /// The shadow of the device's register state.
    pub closed spec fn shadow(&self) -> RegisterMap {
        self.regmap
    }

    /// Every `(register address, byte)` write transaction issued to the bus
    /// so far, oldest first.
    pub closed spec fn write_log(&self) -> Seq<(u8, u8)> {
        self.writes@
    }

    /// Every `(register address, byte)` read transaction completed on the
    /// bus so far, oldest first, each with the byte the device returned.
    pub closed spec fn read_log(&self) -> Seq<(u8, u8)> {
        self.reads@
    }

    /// The transport handle the controller owns.
    pub closed spec fn transport(&self) -> T {
        self.i2c
    }

    /// The shadow is well formed: every field fits its bit width.
    pub open spec fn wf(&self) -> bool {
        self.shadow().wf()
    }

    /// Creates a new device connected through the supplied bus transport,
    /// with the shadow at the documented power-on-reset values.
    pub fn new(i2c: T) -> (r: Tpa2016d2<T>)
        ensures
            r.shadow() == RegisterMap::default_spec(),
            r.write_log() == Seq::<(u8, u8)>::empty(),
            r.read_log() == Seq::<(u8, u8)>::empty(),
            r.transport() == i2c,
            r.wf(),
    {
        let regmap = RegisterMap::default();
        Tpa2016d2 { i2c, regmap, writes: Ghost(Seq::empty()), reads: Ghost(Seq::empty()) }
    }

    /// Consume the controller and release the bus transport.
    pub fn release(self) -> (r: T)
        ensures
            r == self.transport(),
    {
        self.i2c
    }

    /// The shadow's current encode of the register at `idx`, without
    /// touching the transport; out-of-range addresses yield zero.
    pub fn device_reg(&mut self, idx: u8) -> (r: Result<u8, T::BusError>)
        ensures
            *final(self) == *old(self),
            r matches Ok(b) && b == old(self).shadow().byte_at(idx as int),
    {
        Ok(self.regmap.reg_as_byte(idx as usize))
    }

    /// Issue one raw write transaction: the register address, then the value.
    pub fn write_reg(&mut self, regaddr: u8, value: u8) -> (r: Result<(), T::BusError>)
        ensures
            final(self).shadow() == old(self).shadow(),
            final(self).read_log() == old(self).read_log(),
            final(self).write_log() == old(self).write_log().push((regaddr, value)),
    {
        proof {
            self.writes@ = self.writes@.push((regaddr, value));
        }
        self.i2c.write(TPA2016_I2C_ADDR, regaddr, value)
    }

    /// Read one register byte from the device. Out-of-range addresses are
    /// not physical registers: they yield zero without touching the
    /// transport, rather than an error.
    pub fn read_reg(&mut self, regidx: u8) -> (r: Result<u8, T::BusError>)
        ensures
            final(self).shadow() == old(self).shadow(),
            final(self).write_log() == old(self).write_log(),
            !(1 <= regidx <= 7) ==> (r matches Ok(b) && b == 0 && final(self).read_log() == old(
                self,
            ).read_log()),
            1 <= regidx <= 7 ==> match r {
                Ok(b) => final(self).read_log() == old(self).read_log().push((regidx, b)),
                Err(_) => final(self).read_log() == old(self).read_log(),
            },
    {
        if regidx < 1 || regidx > 7 {
            return Ok(0);
        }
        match self.i2c.write_read(TPA2016_I2C_ADDR, regidx) {
            Ok(b) => {
                proof {
                    self.reads@ = self.reads@.push((regidx, b));
                }
                Ok(b)
            },
            Err(e) => Err(e),
        }
    }

    /// Enable or disable the left and right speakers, then write the control
    /// register.
    pub fn speaker_enable(&mut self, le: bool, re: bool) -> (r: Result<(), T::BusError>)
        requires
            old(self).wf(),
        ensures
            final(self).wf(),
            final(self).shadow() == (RegisterMap {
                reg1: Register1 { spk_en_l: le, spk_en_r: re, ..old(self).shadow().reg1 },
                ..old(self).shadow()
            }),
            final(self).read_log() == old(self).read_log(),
            final(self).write_log() == old(self).write_log().push(
                (1u8, final(self).shadow().byte_at(1)),
            ),
    {
        self.regmap.reg1.spk_en_l = le;
        self.regmap.reg1.spk_en_r = re;
        self.write_regmap_reg(1)
    }

    /// Read the control register fresh from the device, decode it into the
    /// shadow, and return its latched fault flags. Faults are latched by the
    /// hardware, so they are read anew here, never served from the stale
    /// shadow.
    pub fn get_faults(&mut self) -> (r: Result<Faults, T::BusError>)
        requires
            old(self).wf(),
        ensures
            final(self).wf(),
            final(self).write_log() == old(self).write_log(),
            r is Err ==> final(self).shadow() == old(self).shadow() && final(self).read_log()
                == old(self).read_log(),
            r matches Ok(f) ==> {
                let rl = final(self).read_log();
                &&& rl == old(self).read_log().push((1u8, rl.last().1))
                &&& final(self).shadow() == old(self).shadow().updated(1, rl.last().1)
                &&& f.fault_r == final(self).shadow().reg1.fault_r
                &&& f.fault_l == final(self).shadow().reg1.fault_l
                &&& f.thermal == final(self).shadow().reg1.thermal
            },
    {
        let val = match self.read_reg(1) {
            Ok(b) => b,
            Err(e) => {
                return Err(e);
            },
        };
        self.regmap.update_map(1, val);
        Ok(
            Faults {
                fault_r: self.regmap.reg1.fault_r,
                fault_l: self.regmap.reg1.fault_l,
                thermal: self.regmap.reg1.thermal,
            },
        )
    }

    /// Set the software-shutdown flag and write the control register:
    /// disables bias and oscillators, leaving the other flags untouched.
    pub fn disable_device(&mut self) -> (r: Result<(), T::BusError>)
        requires
            old(self).wf(),
        ensures
            final(self).wf(),
            final(self).shadow() == (RegisterMap {
                reg1: Register1 { sws: true, ..old(self).shadow().reg1 },
                ..old(self).shadow()
            }),
            final(self).read_log() == old(self).read_log(),
            final(self).write_log() == old(self).write_log().push(
                (1u8, final(self).shadow().byte_at(1)),
            ),
    {
        self.regmap.reg1.sws = true;
        self.write_regmap_reg(1)
    }

    /// Enable or disable the noise gate, then write the control register.
    pub fn noise_gate(&mut self, enable: bool) -> (r: Result<(), T::BusError>)
        requires
            old(self).wf(),
        ensures
            final(self).wf(),
            final(self).shadow() == (RegisterMap {
                reg1: Register1 { ng_en: enable, ..old(self).shadow().reg1 },
                ..old(self).shadow()
            }),
            final(self).read_log() == old(self).read_log(),
            final(self).write_log() == old(self).write_log().push(
                (1u8, final(self).shadow().byte_at(1)),
            ),
    {
        self.regmap.reg1.ng_en = enable;
        self.write_regmap_reg(1)
    }

    /// Store an attack-time code, truncated to six bits, and write its
    /// register.
    pub fn set_attack_time(&mut self, val: u8) -> (r: Result<(), T::BusError>)
        requires
            old(self).wf(),
        ensures
            final(self).wf(),
            final(self).shadow() == (RegisterMap {
                atk_time: U6Register { 0: val & 0x3F },
                ..old(self).shadow()
            }),
            final(self).read_log() == old(self).read_log(),
            final(self).write_log() == old(self).write_log().push(
                (2u8, final(self).shadow().byte_at(2)),
            ),
    {
        self.regmap.atk_time.set(val);
        self.write_regmap_reg(2)
    }

    /// Store a release-time code (one step per 6 dB), truncated to six bits,
    /// and write its register.
    pub fn set_release_time(&mut self, val: u8) -> (r: Result<(), T::BusError>)
        requires
            old(self).wf(),
        ensures
            final(self).wf(),
            final(self).shadow() == (RegisterMap {
                rel_time: U6Register { 0: val & 0x3F },
                ..old(self).shadow()
            }),
            final(self).read_log() == old(self).read_log(),
            final(self).write_log() == old(self).write_log().push(
                (3u8, final(self).shadow().byte_at(3)),
            ),
    {
        self.regmap.rel_time.set(val);
        self.write_regmap_reg(3)
    }

    /// Store a hold-time code, truncated to six bits, and write its register.
    pub fn set_hold_time(&mut self, val: u8) -> (r: Result<(), T::BusError>)
        requires
            old(self).wf(),
        ensures
            final(self).wf(),
            final(self).shadow() == (RegisterMap {
                hold_time: U6Register { 0: val & 0x3F },
                ..old(self).shadow()
            }),
            final(self).read_log() == old(self).read_log(),
            final(self).write_log() == old(self).write_log().push(
                (4u8, final(self).shadow().byte_at(4)),
            ),
    {
        self.regmap.hold_time.set(val);
        self.write_regmap_reg(4)
    }

    /// Store the fixed gain, truncated to six bits, and write its register.
    pub fn gain(&mut self, gain: u8) -> (r: Result<(), T::BusError>)
        requires
            old(self).wf(),
        ensures
            final(self).wf(),
            final(self).shadow() == (RegisterMap {
                fixed_gain: U6Register { 0: gain & 0x3F },
                ..old(self).shadow()
            }),
            final(self).read_log() == old(self).read_log(),
            final(self).write_log() == old(self).write_log().push(
                (5u8, final(self).shadow().byte_at(5)),
            ),
    {
        self.regmap.fixed_gain.set(gain);
        self.write_regmap_reg(5)
    }

    /// Store a noise-gate threshold code and write the limiter/gate register.
    pub fn noise_gate_threshold(&mut self, val: NoiseGateThreshold) -> (r: Result<
        (),
        T::BusError,
    >)
        requires
            old(self).wf(),
        ensures
            final(self).wf(),
            final(self).shadow() == (RegisterMap {
                reg6: Register6 { noise_gate_threshold: val.code_spec(), ..old(self).shadow().reg6 },
                ..old(self).shadow()
            }),
            final(self).read_log() == old(self).read_log(),
            final(self).write_log() == old(self).write_log().push(
                (6u8, final(self).shadow().byte_at(6)),
            ),
    {
        self.regmap.reg6.noise_gate_threshold = val.code();
        self.write_regmap_reg(6)
    }

    /// Store an output-limiter level, truncated to five bits, and write the
    /// limiter/gate register.
    pub fn output_limiter_level(&mut self, val: u8) -> (r: Result<(), T::BusError>)
        requires
            old(self).wf(),
        ensures
            final(self).wf(),
            final(self).shadow() == (RegisterMap {
                reg6: Register6 { output_limiter_level: val & 0x1F, ..old(self).shadow().reg6 },
                ..old(self).shadow()
            }),
            final(self).read_log() == old(self).read_log(),
            final(self).write_log() == old(self).write_log().push(
                (6u8, final(self).shadow().byte_at(6)),
            ),
    {
        self.regmap.reg6.output_limiter_level = val & 0x1F;
        proof {
            lemma_mask_bounds(val);
        }
        self.write_regmap_reg(6)
    }

    /// Store a compression-ratio code and write the gain/ratio register.
    pub fn compression_ratio(&mut self, ratio: CompressionRatio) -> (r: Result<(), T::BusError>)
        requires
            old(self).wf(),
        ensures
            final(self).wf(),
            final(self).shadow() == (RegisterMap {
                reg7: Register7 { compression_ratio: ratio.code_spec(), ..old(self).shadow().reg7 },
                ..old(self).shadow()
            }),
            final(self).read_log() == old(self).read_log(),
            final(self).write_log() == old(self).write_log().push(
                (7u8, final(self).shadow().byte_at(7)),
            ),
    {
        self.regmap.reg7.compression_ratio = ratio.code();
        self.write_regmap_reg(7)
    }

    /// What holds after `k` registers have been re-read during a
    /// resynchronization: `k` fresh read transactions for addresses 1
    /// through `k` in order, and the shadow rewritten by decoding each in
    /// turn.
    pub open spec fn sync_post(self, new: Self, k: int) -> bool {
        let fresh = new.read_log().skip(self.read_log().len() as int);
        &&& new.read_log().len() == self.read_log().len() + k
        &&& new.read_log().take(self.read_log().len() as int) == self.read_log()
        &&& forall|j: int| 0 <= j < k ==> (#[trigger] fresh[j]).0 == j + 1
        &&& new.shadow() == self.shadow().applied(fresh)
        &&& new.write_log() == self.write_log()
    }

    /// Read all seven registers from the device in ascending address order
    /// and decode each into the shadow, resynchronizing it with ground
    /// truth. A transport failure aborts partway: the registers already read
    /// keep their fresh values, the rest their prior ones.
    pub fn sync(&mut self) -> (r: Result<(), T::BusError>)
        requires
            old(self).wf(),
        ensures
            final(self).wf(),
            r is Ok ==> old(self).sync_post(*final(self), 7),
            r is Err ==> exists|k: int| 0 <= k < 7 && old(self).sync_post(*final(self), k),
    {
        proof {
            assert(self.read_log().take(self.read_log().len() as int) =~= self.read_log());
            assert(self.read_log().skip(self.read_log().len() as int) =~= Seq::<(u8, u8)>::empty());
        }
        let mut i: u8 = 1;
        while i <= 7
            invariant
                1 <= i <= 8,
                self.wf(),
                old(self).sync_post(*self, i as int - 1),
            decreases 8 - i,
        {
            let ghost prev = *self;
            let val = match self.read_reg(i) {
                Ok(b) => b,
                Err(e) => {
                    proof {
                        assert(0 <= i as int - 1 < 7 && old(self).sync_post(*self, i as int - 1));
                    }
                    return Err(e);
                },
            };
            self.regmap.update_map(i, val);
            proof {
                let prior = prev.read_log().skip(old(self).read_log().len() as int);
                let fresh = self.read_log().skip(old(self).read_log().len() as int);
                assert(self.read_log().take(old(self).read_log().len() as int) =~= old(
                    self,
                ).read_log());
                assert(fresh =~= prior.push((i, val)));
                assert(fresh.drop_last() =~= prior);
                assert forall|j: int| 0 <= j < i as int implies (#[trigger] fresh[j]).0 == j
                    + 1 by {
                    if j < i as int - 1 {
                        assert(fresh[j] == prior[j]);
                    } else {
                        assert(fresh[j] == (i, val));
                    }
                }
                assert(self.shadow() == old(self).shadow().applied(fresh));
            }
            i = i + 1;
        }
        Ok(())
    }

    /// Store a named preset's datasheet parameters in the shadow, then send
    /// them to the device as six single-register writes, to addresses 2
    /// through 7 in that order. The sequence is not atomic: a transport
    /// failure partway leaves the device holding a mix of old and new
    /// settings, while the shadow already holds all the new ones.
    pub fn set_agc_preset(&mut self, preset: AgcPreset) -> (r: Result<(), T::BusError>)
        requires
            old(self).wf(),
        ensures
            final(self).wf(),
            final(self).shadow() == preset_applied(old(self).shadow(), preset),
            final(self).read_log() == old(self).read_log(),
            r is Ok ==> final(self).write_log() == old(self).write_log() + preset_write_seq(
                final(self).shadow(),
            ),
            r is Err ==> exists|k: int|
                1 <= k <= 6 && final(self).write_log() == old(self).write_log()
                    + preset_write_seq(final(self).shadow()).take(k),
    {
        let (cr, atk, rel_ms, hold_ms, fixed_gain, limiter_level) = preset_params(&preset);
        let rel = release_time_to_u6(rel_ms);
        let hold = hold_time_to_u6(hold_ms);

        self.regmap.atk_time.set(atk);
        self.regmap.rel_time.set(rel);
        self.regmap.hold_time.set(hold);
        self.regmap.fixed_gain.set(fixed_gain);
        self.regmap.reg6.output_limiter_level = limiter_level & 0x1F;
        self.regmap.reg7.compression_ratio = cr;
        proof {
            lemma_mask_bounds(limiter_level);
            assert(self.shadow() =~= preset_applied(old(self).shadow(), preset));
        }

        // Send the new settings to the device.
        let mut rid: u8 = 2;
        while rid <= 7
            invariant
                2 <= rid <= 8,
                self.wf(),
                self.shadow() == preset_applied(old(self).shadow(), preset),
                self.read_log() == old(self).read_log(),
                self.write_log() == old(self).write_log() + preset_write_seq(
                    self.shadow(),
                ).take(rid as int - 2),
            decreases 8 - rid,
        {
            match self.write_regmap_reg(rid) {
                Ok(_) => {},
                Err(e) => {
                    proof {
                        lemma_preset_write_order(self.shadow());
                        let s = preset_write_seq(self.shadow());
                        assert((old(self).write_log() + s.take(rid as int - 2)).push(
                            (rid, self.shadow().byte_at(rid as int)),
                        ) =~= old(self).write_log() + s.take(rid as int - 1));
                        assert(1 <= rid as int - 1 <= 6 && self.write_log() == old(
                            self,
                        ).write_log() + s.take(rid as int - 1));
                    }
                    return Err(e);
                },
            }
            proof {
                lemma_preset_write_order(self.shadow());
                let s = preset_write_seq(self.shadow());
                assert((old(self).write_log() + s.take(rid as int - 2)).push(
                    (rid, self.shadow().byte_at(rid as int)),
                ) =~= old(self).write_log() + s.take(rid as int - 1));
            }
            rid = rid + 1;
        }
        proof {
            assert(preset_write_seq(self.shadow()).take(6) =~= preset_write_seq(self.shadow()));
        }
        Ok(())
    }

    /// Encode the shadow register at `idx` and write it to the device.
    pub fn write_regmap_reg(&mut self, idx: u8) -> (r: Result<(), T::BusError>)
        requires
            1 <= idx <= 7,
        ensures
            final(self).shadow() == old(self).shadow(),
            final(self).read_log() == old(self).read_log(),
            final(self).write_log() == old(self).write_log().push(
                (idx, old(self).shadow().byte_at(idx as int)),
            ),
    {
        let b = self.regmap.reg_as_byte(idx as usize);
        self.write_reg(idx, b)
    }
}

} // verus!

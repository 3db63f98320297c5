use tpa2016d2::transport::Transport;
use tpa2016d2::{AgcPreset, CompressionRatio, NoiseGateThreshold, Tpa2016d2, TPA2016_I2C_ADDR};

/// An in-memory bus: records every transaction, answers reads from a script.
struct FakeBus {
    writes: Vec<(u8, u8, u8)>,
    reads: Vec<(u8, u8)>,
    read_bytes: Vec<u8>,
    fail_writes: bool,
    fail_reads: bool,
}

impl FakeBus {
    fn new() -> FakeBus {
        FakeBus { writes: Vec::new(), reads: Vec::new(), read_bytes: Vec::new(), fail_writes: false, fail_reads: false }
    }

    fn scripted(read_bytes: Vec<u8>) -> FakeBus {
        FakeBus { read_bytes, ..FakeBus::new() }
    }
}

impl Transport for FakeBus {
    type BusError = u8;

    fn write(&mut self, addr: u8, b0: u8, b1: u8) -> Result<(), u8> {
        if self.fail_writes {
            return Err(1);
        }
        self.writes.push((addr, b0, b1));
        Ok(())
    }

    fn write_read(&mut self, addr: u8, out: u8) -> Result<u8, u8> {
        if self.fail_reads {
            return Err(2);
        }
        self.reads.push((addr, out));
        Ok(self.read_bytes.remove(0))
    }
}

#[test]
fn speaker_enable_writes_control_register() {
    let mut amp = Tpa2016d2::new(FakeBus::new());
    amp.speaker_enable(false, false).unwrap();
    amp.speaker_enable(true, true).unwrap();
    let bus = amp.release();
    // Both speakers off: only the noise gate bit and the reserved bit remain.
    assert_eq!(bus.writes, vec![(TPA2016_I2C_ADDR, 1, 0x03), (TPA2016_I2C_ADDR, 1, 0xC3)]);
}

#[test]
fn disable_device_sets_shutdown_bit() {
    let mut amp = Tpa2016d2::new(FakeBus::new());
    amp.disable_device().unwrap();
    let bus = amp.release();
    assert_eq!(bus.writes, vec![(TPA2016_I2C_ADDR, 1, 0xE3)]);
}

#[test]
fn noise_gate_flag_bit() {
    let mut amp = Tpa2016d2::new(FakeBus::new());
    amp.noise_gate(false).unwrap();
    let bus = amp.release();
    assert_eq!(bus.writes, vec![(TPA2016_I2C_ADDR, 1, 0xC2)]);
}

#[test]
fn magnitude_setters_truncate_to_six_bits() {
    let mut amp = Tpa2016d2::new(FakeBus::new());
    amp.set_attack_time(0xFF).unwrap();
    amp.set_release_time(0x41).unwrap();
    amp.set_hold_time(0x3F).unwrap();
    amp.gain(0x07).unwrap();
    let bus = amp.release();
    assert_eq!(
        bus.writes,
        vec![
            (TPA2016_I2C_ADDR, 2, 0x3F),
            (TPA2016_I2C_ADDR, 3, 0x01),
            (TPA2016_I2C_ADDR, 4, 0x3F),
            (TPA2016_I2C_ADDR, 5, 0x07),
        ]
    );
}

#[test]
fn limiter_and_ratio_setters() {
    let mut amp = Tpa2016d2::new(FakeBus::new());
    amp.noise_gate_threshold(NoiseGateThreshold::Ngt20mV).unwrap();
    amp.output_limiter_level(0x05).unwrap();
    amp.compression_ratio(CompressionRatio::Ratio8).unwrap();
    let bus = amp.release();
    // Threshold code 3 over the default level 0x1A; then level 5 under the
    // threshold just set; then ratio 3 beside the default maximum gain 0xC.
    assert_eq!(
        bus.writes,
        vec![(TPA2016_I2C_ADDR, 6, 0x7A), (TPA2016_I2C_ADDR, 6, 0x65), (TPA2016_I2C_ADDR, 7, 0xC3)]
    );
}

#[test]
fn preset_write_order() {
    let mut amp = Tpa2016d2::new(FakeBus::new());
    amp.set_agc_preset(AgcPreset::Pop).unwrap();
    let bus = amp.release();
    let addrs: Vec<u8> = bus.writes.iter().map(|w| w.1).collect();
    assert_eq!(addrs, vec![2, 3, 4, 5, 6, 7]);
    assert!(bus.writes.iter().all(|w| w.1 != 1));
    // The datasheet values for this preset: attack 2, release 986 ms -> 0,
    // hold 137 ms -> 1, gain 6, limiter level 0x3C masked to 0x1C beside the
    // default threshold, ratio 4:1 beside the default maximum gain.
    let values: Vec<u8> = bus.writes.iter().map(|w| w.2).collect();
    assert_eq!(values, vec![0x02, 0x00, 0x01, 0x06, 0x3C, 0xC2]);
}

#[test]
fn preset_values_jazz() {
    let mut amp = Tpa2016d2::new(FakeBus::new());
    amp.set_agc_preset(AgcPreset::Jazz).unwrap();
    let bus = amp.release();
    // Attack 6, release 3288 ms -> 2, hold 0 ms -> 0, gain 6,
    // limiter 0x3D -> 0x1D with threshold 1, ratio 2:1 with gain 0xC.
    assert_eq!(
        bus.writes,
        vec![
            (TPA2016_I2C_ADDR, 2, 0x06),
            (TPA2016_I2C_ADDR, 3, 0x02),
            (TPA2016_I2C_ADDR, 4, 0x00),
            (TPA2016_I2C_ADDR, 5, 0x06),
            (TPA2016_I2C_ADDR, 6, 0x3D),
            (TPA2016_I2C_ADDR, 7, 0xC1),
        ]
    );
}

#[test]
fn fault_read_is_fresh() {
    // The shadow starts with no faults; the device reports all three latched
    // fault bits set. The returned flags must come from the fresh read.
    let mut amp = Tpa2016d2::new(FakeBus::scripted(vec![0x1C]));
    let faults = amp.get_faults().unwrap();
    assert!(faults.fault_r);
    assert!(faults.fault_l);
    assert!(faults.thermal);
    let bus = amp.release();
    assert_eq!(bus.reads, vec![(TPA2016_I2C_ADDR, 1)]);

    // And with a clean device the flags are clear again.
    let mut amp = Tpa2016d2::new(FakeBus::scripted(vec![0xC3]));
    let faults = amp.get_faults().unwrap();
    assert!(!faults.fault_r);
    assert!(!faults.fault_l);
    assert!(!faults.thermal);
}

#[test]
fn invalid_address_read_returns_zero() {
    // Every transport read would fail, so a zero result proves the raw read
    // path never touched the bus for an out-of-range address.
    let mut bus = FakeBus::new();
    bus.fail_reads = true;
    let mut amp = Tpa2016d2::new(bus);
    assert_eq!(amp.read_reg(0), Ok(0));
    assert_eq!(amp.read_reg(8), Ok(0));
    assert_eq!(amp.read_reg(255), Ok(0));
    assert_eq!(amp.read_reg(1), Err(2));
}

#[test]
fn sync_pulls_device_state_into_shadow() {
    let mut amp = Tpa2016d2::new(FakeBus::scripted(vec![0x03, 0x01, 0x02, 0x03, 0x04, 0xFF, 0xFF]));
    amp.sync().unwrap();
    assert_eq!(amp.device_reg(1), Ok(0x03));
    assert_eq!(amp.device_reg(2), Ok(0x01));
    assert_eq!(amp.device_reg(3), Ok(0x02));
    assert_eq!(amp.device_reg(4), Ok(0x03));
    assert_eq!(amp.device_reg(5), Ok(0x04));
    assert_eq!(amp.device_reg(6), Ok(0xFF));
    // The gain/ratio register has only six used bits: 0xFF re-encodes as 0xF3.
    assert_eq!(amp.device_reg(7), Ok(0xF3));
    let bus = amp.release();
    assert_eq!(bus.reads.len(), 7);
    let addrs: Vec<u8> = bus.reads.iter().map(|r| r.1).collect();
    assert_eq!(addrs, vec![1, 2, 3, 4, 5, 6, 7]);
}

#[test]
fn transport_errors_propagate() {
    let mut bus = FakeBus::new();
    bus.fail_writes = true;
    let mut amp = Tpa2016d2::new(bus);
    assert_eq!(amp.speaker_enable(true, true), Err(1));
    assert_eq!(amp.disable_device(), Err(1));
    assert_eq!(amp.set_attack_time(3), Err(1));
    assert_eq!(amp.set_agc_preset(AgcPreset::Rock), Err(1));

    let mut bus = FakeBus::new();
    bus.fail_reads = true;
    let mut amp = Tpa2016d2::new(bus);
    assert_eq!(amp.get_faults().map(|_| ()), Err(2));
    assert_eq!(amp.sync(), Err(2));
}

#[test]
fn shadow_reads_do_not_touch_transport() {
    let mut bus = FakeBus::new();
    bus.fail_reads = true;
    bus.fail_writes = true;
    let mut amp = Tpa2016d2::new(bus);
    assert_eq!(amp.device_reg(1), Ok(0xC3));
    assert_eq!(amp.device_reg(0), Ok(0x00));
    assert_eq!(amp.device_reg(9), Ok(0x00));
}

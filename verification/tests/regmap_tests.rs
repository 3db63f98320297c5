use tpa2016d2::regmap::{Register1, Register6, Register7, RegisterMap, RegisterMapRegister, U6Register};

#[test]
fn test_register_defaults() {
    let regmap = RegisterMap::default();

    let r1 = regmap.reg_as_byte(1);
    let r2 = regmap.reg_as_byte(2);
    let r3 = regmap.reg_as_byte(3);
    let r4 = regmap.reg_as_byte(4);
    let r5 = regmap.reg_as_byte(5);
    let r6 = regmap.reg_as_byte(6);
    let r7 = regmap.reg_as_byte(7);

    assert_eq!(r1, 0xC3);
    assert_eq!(r2, 0x05);
    assert_eq!(r3, 0x0B);
    assert_eq!(r4, 0x00);
    assert_eq!(r5, 0x06);
    assert_eq!(r6, 0x3A);
    assert_eq!(r7, 0xC2);
}

#[test]
fn register1_round_trip() {
    let cases = [
        Register1 {
            spk_en_r: true,
            spk_en_l: false,
            sws: true,
            fault_r: false,
            fault_l: true,
            thermal: false,
            ng_en: true,
        },
        Register1 {
            spk_en_r: false,
            spk_en_l: true,
            sws: false,
            fault_r: true,
            fault_l: false,
            thermal: true,
            ng_en: false,
        },
        Register1::default(),
    ];
    for orig in cases {
        let mut decoded = Register1::default();
        decoded.update(orig.as_byte());
        assert_eq!(decoded, orig);
    }
}

#[test]
fn u6_round_trip() {
    for v in 0..64u8 {
        let mut r = U6Register(0);
        r.set(v);
        let mut decoded = U6Register(0);
        decoded.update(r.as_byte());
        assert_eq!(decoded, r);
        assert_eq!(decoded.as_byte(), v);
    }
}

#[test]
fn u6_masking() {
    let mut a = U6Register(0);
    a.set(0xFF);
    let mut b = U6Register(0);
    b.set(0xFF & 0x3F);
    assert_eq!(a.as_byte(), b.as_byte());
    assert_eq!(a.as_byte(), 0x3F);

    let mut c = U6Register(0);
    c.set(0x47);
    assert_eq!(c.as_byte(), 0x07);
}

#[test]
fn register6_round_trip() {
    let orig = Register6 { output_limiter_disable: true, noise_gate_threshold: 0x03, output_limiter_level: 0x15 };
    let mut decoded = Register6::default();
    decoded.update(orig.as_byte());
    assert_eq!(decoded, orig);
}

#[test]
fn register7_round_trip() {
    let orig = Register7 { max_gain: 0x0A, compression_ratio: 0x01 };
    let mut decoded = Register7::default();
    decoded.update(orig.as_byte());
    assert_eq!(decoded, orig);
}

#[test]
fn register1_reserved_bit_always_set() {
    let all_off = Register1 {
        spk_en_r: false,
        spk_en_l: false,
        sws: false,
        fault_r: false,
        fault_l: false,
        thermal: false,
        ng_en: false,
    };
    assert_eq!(all_off.as_byte(), 0x02);
    let all_on = Register1 {
        spk_en_r: true,
        spk_en_l: true,
        sws: true,
        fault_r: true,
        fault_l: true,
        thermal: true,
        ng_en: true,
    };
    assert_ne!(all_on.as_byte() & 0x02, 0);
    assert_ne!(Register1::default().as_byte() & 0x02, 0);
}

#[test]
fn update_map_replaces_one_register() {
    let mut m = RegisterMap::default();
    m.update_map(6, 0xFF);
    assert_eq!(m.reg_as_byte(6), 0xFF);
    assert_eq!(m.reg_as_byte(1), 0xC3);
    assert_eq!(m.reg_as_byte(7), 0xC2);
    // Out-of-range addresses change nothing and encode as zero.
    m.update_map(0, 0xAA);
    m.update_map(8, 0xAA);
    assert_eq!(m.reg_as_byte(0), 0);
    assert_eq!(m.reg_as_byte(8), 0);
    assert_eq!(m.reg_as_byte(1), 0xC3);
}

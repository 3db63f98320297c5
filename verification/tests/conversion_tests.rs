use tpa2016d2::{hold_time_to_u6, release_time_to_u6};

#[test]
fn release_time_conv() {
    let tests = [(1644, 0b00_0001), (4932, 0b00_0011), (103600, 0b11_1111)];
    for &(input, bitval) in &tests {
        let res = release_time_to_u6(input);
        assert_eq!(res, bitval);
    }
}

#[test]
fn hold_time_conv() {
    let tests = [(137, 0b00_0001), (0411, 0b00_0011), (8631, 0b11_1111)];
    for &(input, bitval) in &tests {
        let res = hold_time_to_u6(input);
        assert_eq!(res, bitval);
    }
}

#[test]
fn sub_quantum_remainders_floor() {
    assert_eq!(release_time_to_u6(0), 0);
    assert_eq!(release_time_to_u6(1643), 0);
    assert_eq!(release_time_to_u6(3287), 1);
    assert_eq!(hold_time_to_u6(0), 0);
    assert_eq!(hold_time_to_u6(136), 0);
    assert_eq!(hold_time_to_u6(273), 1);
}

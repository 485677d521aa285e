use motorctl::demand::Demand;

fn samples() -> Vec<f64> {
    let mut out: Vec<f64> = vec![
        0.0,
        -0.0,
        0.5,
        -0.5,
        0.999,
        1.0,
        1.5,
        2.0,
        61.0,
        61.999999,
        62.0,
        62.000001,
        63.0,
        -1.0,
        -62.0,
        1e-320,
        -1e-320,
        f64::MIN_POSITIVE,
        f64::MAX,
        f64::MIN,
        f64::INFINITY,
        f64::NEG_INFINITY,
        f64::NAN,
        4294967295.0,
        4294967296.0,
        4294967295.5,
        2147483.647,
        2147483.648,
        -2147483.648,
        -2147483.649,
        0.0009765625,
        0.001,
        0.0005,
        0.0015,
        0.0025,
        4194304.0,
        132101.0,
        66564.0,
        12.345,
        -40.25,
    ];
    let mut state: u64 = 0x9e37_79b9_7f4a_7c15;
    for _ in 0..20000 {
        state = state.wrapping_mul(6364136223846793005).wrapping_add(1442695040888963407);
        let bits = state ^ (state >> 29);
        out.push(f64::from_bits(bits));
        // the same fraction under an exponent near the interesting windows
        let window = 1000 + (state >> 58);
        let near = (bits & 0x800f_ffff_ffff_ffff) | (window << 52);
        out.push(f64::from_bits(near));
    }
    out
}

#[test]
fn to_u32_agrees_with_the_cast() {
    for x in samples() {
        assert_eq!(Demand::from_bits(x.to_bits()).to_u32(), x as u32, "{}", x);
    }
}

#[test]
fn device_number_range_agrees_with_comparison() {
    for x in samples() {
        assert_eq!(
            Demand::from_bits(x.to_bits()).in_device_number_range(),
            0.0 <= x && x <= 62.0,
            "{}",
            x
        );
    }
}

#[test]
fn milli_agrees_with_multiplication() {
    for x in samples() {
        assert_eq!(Demand::from_bits(x.to_bits()).milli_i32(), (1000.0 * x) as i32, "{}", x);
    }
}

#[test]
fn milli_exact_values() {
    assert_eq!(Demand::from_bits(1.5f64.to_bits()).milli_i32(), 1500);
    assert_eq!(Demand::from_bits((-2.25f64).to_bits()).milli_i32(), -2250);
    assert_eq!(Demand::from_bits(0.0004f64.to_bits()).milli_i32(), 0);
    assert_eq!(Demand::from_bits(40.0f64.to_bits()).milli_i32(), 40000);
    assert_eq!(Demand::from_bits(1e10f64.to_bits()).milli_i32(), i32::MAX);
    assert_eq!(Demand::from_bits((-1e10f64).to_bits()).milli_i32(), i32::MIN);
    assert_eq!(Demand::from_bits(f64::NAN.to_bits()).milli_i32(), 0);
    assert_eq!(Demand::from_bits(f64::INFINITY.to_bits()).milli_i32(), i32::MAX);
    assert_eq!(Demand::from_bits(f64::NEG_INFINITY.to_bits()).milli_i32(), i32::MIN);
}

#[test]
fn from_i32_agrees_with_the_cast() {
    let mut values: Vec<i32> =
        vec![0, 1, -1, 2, 3, 62, 63, 1024, 132101, 66564, i32::MAX, i32::MIN];
    let mut state: u32 = 12345;
    for _ in 0..5000 {
        state = state.wrapping_mul(1664525).wrapping_add(1013904223);
        values.push(state as i32);
        values.push((state >> 16) as i32);
    }
    for n in values {
        assert_eq!(Demand::from_i32(n).to_bits(), (n as f64).to_bits(), "{}", n);
    }
}

#[test]
fn from_u32_agrees_with_the_cast() {
    let mut values: Vec<u32> = vec![0, 1, 2, 3, 62, 63, 1 << 31, u32::MAX, 0x020405];
    let mut state: u32 = 777;
    for _ in 0..5000 {
        state = state.wrapping_mul(1664525).wrapping_add(1013904223);
        values.push(state);
        values.push(state >> 20);
    }
    for n in values {
        assert_eq!(Demand::from_u32(n).to_bits(), (n as f64).to_bits(), "{}", n);
    }
}

#[test]
fn parts_of_a_pattern() {
    let d = Demand::from_bits((-62.0f64).to_bits());
    assert!(d.is_negative());
    assert_eq!(d.biased_exponent(), 1028);
    assert_eq!(d.fraction_bits(), 0xf_0000_0000_0000);
    assert_eq!(d.significand_bits(), 0x1f_0000_0000_0000);
    assert_eq!(Demand::zero().to_bits(), 0);
    assert_eq!(Demand::from_bits(7).to_bits(), 7);
    assert_eq!(Demand::from_bits(7).significand_bits(), 7);
}

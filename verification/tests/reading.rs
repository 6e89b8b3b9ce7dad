use wlan_temp_sensor::display::FmtBuf;
use wlan_temp_sensor::reading::{write_decimal, write_tenths, Measurement};

fn tenths(v: i32) -> String {
    let mut buf = FmtBuf::new();
    write_tenths(&mut buf, v);
    buf.as_str().to_string()
}

fn decimal(n: u32) -> String {
    let mut buf = FmtBuf::new();
    write_decimal(&mut buf, n);
    buf.as_str().to_string()
}

#[test]
fn tenths_have_one_digit_behind_the_point() {
    assert_eq!(tenths(235), "23.5");
    assert_eq!(tenths(452), "45.2");
    assert_eq!(tenths(283), "28.3");
    assert_eq!(tenths(528), "52.8");
}

#[test]
fn whole_units_have_no_point() {
    assert_eq!(tenths(230), "23");
    assert_eq!(tenths(1000), "100");
    assert_eq!(tenths(10), "1");
}

#[test]
fn zero_is_written_as_one_digit() {
    assert_eq!(tenths(0), "0");
    assert_eq!(decimal(0), "0");
}

#[test]
fn less_than_a_unit_has_a_leading_zero() {
    assert_eq!(tenths(5), "0.5");
    assert_eq!(tenths(1), "0.1");
    assert_eq!(tenths(9), "0.9");
}

#[test]
fn negative_tenths_have_a_minus_sign() {
    assert_eq!(tenths(-27), "-2.7");
    assert_eq!(tenths(-5), "-0.5");
    assert_eq!(tenths(-100), "-10");
    assert_eq!(tenths(-401), "-40.1");
}

#[test]
fn tenths_agree_with_the_floats_they_stand_for() {
    for v in [235, 452, 230, 0, 5, -27, -100, 283, 656, 999, 1000, -1, 32767, 65535] {
        let float = v as f32 / 10.0;
        assert_eq!(tenths(v), format!("{}", float));
    }
}

#[test]
fn all_sixteen_bit_tenths_agree_with_their_floats() {
    for v in -32767..=65535 {
        let float = v as f32 / 10.0;
        assert_eq!(tenths(v), format!("{}", float));
    }
}

#[test]
fn extremes_are_written_in_full() {
    assert_eq!(tenths(i32::MAX), "214748364.7");
    assert_eq!(tenths(i32::MIN), "-214748364.8");
    assert_eq!(tenths(65535), "6553.5");
    assert_eq!(tenths(-32768), "-3276.8");
}

#[test]
fn decimal_has_no_leading_zeros() {
    assert_eq!(decimal(7), "7");
    assert_eq!(decimal(9), "9");
    assert_eq!(decimal(10), "10");
    assert_eq!(decimal(99), "99");
    assert_eq!(decimal(100), "100");
    assert_eq!(decimal(1_000_000), "1000000");
    assert_eq!(decimal(u32::MAX), "4294967295");
}

#[test]
fn number_is_appended_to_what_is_there() {
    let mut buf = FmtBuf::new();
    buf.write_str("Temp: ");
    write_tenths(&mut buf, 235);
    assert_eq!(buf.as_str(), "Temp: 23.5");
}

#[test]
fn number_is_cut_where_the_buffer_ends() {
    let mut buf = FmtBuf::new();
    buf.write_str(&"-".repeat(61));
    write_tenths(&mut buf, -12345);
    assert_eq!(buf.as_str().len(), 64);
    assert_eq!(&buf.as_str()[61..], "-12");
    let mut buf = FmtBuf::new();
    buf.write_str(&"-".repeat(62));
    write_decimal(&mut buf, 98765);
    assert_eq!(&buf.as_str()[62..], "98");
}

#[test]
fn measurement_holds_tenths() {
    let reading = Measurement { temperature: 235, relative_humidity: 452 };
    assert_eq!(reading.temperature, 235);
    assert_eq!(reading.relative_humidity, 452);
    assert_eq!(reading, reading.clone());
}

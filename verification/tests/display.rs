use wlan_temp_sensor::display::{FmtBuf, CAPACITY};

fn text_of(len: usize) -> String {
    (0..len).map(|i| char::from(b'a' + (i % 26) as u8)).collect()
}

#[test]
fn capacity_is_64_bytes() {
    assert_eq!(CAPACITY, 64);
}

#[test]
fn fresh_buffer_is_empty() {
    let buf = FmtBuf::new();
    assert_eq!(buf.as_str(), "");
    assert_eq!(buf.as_bytes().len(), 0);
    assert_eq!(buf.text(), Some(""));
}

#[test]
fn write_is_kept() {
    let mut buf = FmtBuf::new();
    buf.write_str("Temp: 23.5");
    assert_eq!(buf.as_str(), "Temp: 23.5");
    assert_eq!(buf.as_bytes(), b"Temp: 23.5");
}

#[test]
fn writes_are_appended_in_order() {
    let mut buf = FmtBuf::new();
    buf.write_str("Humid");
    buf.write_str(": ");
    buf.write_str("45.2");
    assert_eq!(buf.as_str(), "Humid: 45.2");
}

#[test]
fn empty_write_changes_nothing() {
    let mut buf = FmtBuf::new();
    buf.write_str("abc");
    buf.write_str("");
    assert_eq!(buf.as_str(), "abc");
}

#[test]
fn write_of_100_bytes_keeps_the_first_64() {
    let long = text_of(100);
    let mut buf = FmtBuf::new();
    buf.write_str(&long);
    assert_eq!(buf.as_str().len(), 64);
    assert_eq!(buf.as_str(), &long[..64]);
}

#[test]
fn write_of_exactly_64_bytes_fits() {
    let full = text_of(64);
    let mut buf = FmtBuf::new();
    buf.write_str(&full);
    assert_eq!(buf.as_str(), full);
}

#[test]
fn write_of_65_bytes_loses_the_last() {
    let long = text_of(65);
    let mut buf = FmtBuf::new();
    buf.write_str(&long);
    assert_eq!(buf.as_str(), &long[..64]);
}

#[test]
fn second_write_is_cut_where_the_buffer_ends() {
    let mut buf = FmtBuf::new();
    buf.write_str(&"x".repeat(60));
    buf.write_str("0123456789");
    assert_eq!(buf.as_str().len(), 64);
    assert_eq!(&buf.as_str()[..60], "x".repeat(60));
    assert_eq!(&buf.as_str()[60..], "0123");
}

#[test]
fn write_to_a_full_buffer_is_dropped() {
    let full = text_of(64);
    let mut buf = FmtBuf::new();
    buf.write_str(&full);
    buf.write_str("more");
    buf.write_str("and more");
    assert_eq!(buf.as_str(), full);
}

#[test]
fn many_writes_never_pass_64_bytes() {
    let mut buf = FmtBuf::new();
    let mut all = String::new();
    for i in 0..40 {
        let piece = text_of(i % 7);
        buf.write_str(&piece);
        all.push_str(&piece);
        assert!(buf.as_bytes().len() <= 64);
        let kept = all.len().min(64);
        assert_eq!(buf.as_bytes(), &all.as_bytes()[..kept]);
    }
    assert_eq!(buf.as_bytes().len(), 64);
}

#[test]
fn reset_empties_the_view() {
    let mut buf = FmtBuf::new();
    buf.write_str("Temp: 23.5");
    buf.reset();
    assert_eq!(buf.as_str(), "");
    assert_eq!(buf.as_bytes().len(), 0);
}

#[test]
fn reset_of_a_full_buffer_makes_room_again() {
    let mut buf = FmtBuf::new();
    buf.write_str(&text_of(100));
    buf.reset();
    assert_eq!(buf.as_str(), "");
    buf.write_str("Humid: 45.2");
    assert_eq!(buf.as_str(), "Humid: 45.2");
    buf.reset();
    buf.write_str(&"z".repeat(64));
    assert_eq!(buf.as_str(), "z".repeat(64));
}

#[test]
fn reset_of_an_empty_buffer_is_harmless() {
    let mut buf = FmtBuf::new();
    buf.reset();
    buf.reset();
    assert_eq!(buf.as_str(), "");
}

#[test]
fn characters_of_several_bytes_are_kept_whole_when_they_fit() {
    let mut buf = FmtBuf::new();
    buf.write_str("23.5 °C");
    assert_eq!(buf.as_str(), "23.5 °C");
    assert_eq!(buf.as_bytes().len(), 8);
    assert_eq!(buf.text(), Some("23.5 °C"));
}

#[test]
fn a_character_cut_in_two_is_no_text() {
    let mut buf = FmtBuf::new();
    buf.write_str(&"a".repeat(63));
    buf.write_str("é");
    assert_eq!(buf.as_bytes().len(), 64);
    assert_eq!(&buf.as_bytes()[..63], "a".repeat(63).as_bytes());
    assert_eq!(buf.as_bytes()[63], "é".as_bytes()[0]);
    assert_eq!(buf.text(), None);
}

#[test]
fn a_character_that_just_fits_is_text() {
    let mut buf = FmtBuf::new();
    buf.write_str(&"a".repeat(62));
    buf.write_str("é");
    assert_eq!(buf.as_bytes().len(), 64);
    let mut expected = "a".repeat(62);
    expected.push('é');
    assert_eq!(buf.text(), Some(expected.as_str()));
    assert_eq!(buf.as_str(), expected);
}

#[test]
fn text_after_reset_is_empty_even_if_it_was_no_text() {
    let mut buf = FmtBuf::new();
    buf.write_str(&"a".repeat(63));
    buf.write_str("é");
    assert_eq!(buf.text(), None);
    buf.reset();
    assert_eq!(buf.text(), Some(""));
}

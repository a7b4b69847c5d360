//! Wide-string encoding and decoding.

use d1d1test::util::ToWide;
use d1d1test::wstr::{from_wide, WString};

#[test]
fn to_wide_appends_a_terminator() {
    let s = String::from("abc");
    assert_eq!(s.to_wide(), vec![97, 98, 99, 0]);
    assert_eq!(s.to_wide_sized(), vec![97, 98, 99]);
}

#[test]
fn to_wide_works_on_str_too() {
    assert_eq!("Hi".to_wide(), vec![72, 105, 0]);
    assert_eq!("".to_wide(), vec![0]);
    assert_eq!("".to_wide_sized(), Vec::<u16>::new());
}

#[test]
fn supplementary_characters_become_surrogate_pairs() {
    // U+1F600 encodes as the surrogate pair D83D DE00.
    let s = String::from("a\u{1F600}b");
    assert_eq!(s.to_wide_sized(), vec![0x61, 0xD83D, 0xDE00, 0x62]);
}

#[test]
fn from_wide_stops_at_the_first_zero_unit() {
    let units: Vec<u16> = vec![72, 105, 0, 33, 33];
    assert_eq!(from_wide(&units), "Hi");
}

#[test]
fn from_wide_skips_lone_surrogates() {
    let units: Vec<u16> = vec![72, 0xD800, 105, 0];
    assert_eq!(from_wide(&units), "Hi");
}

#[test]
fn from_wide_of_to_wide_round_trips_basic_text() {
    let s = String::from("composition");
    assert_eq!(from_wide(&s.to_wide()), s);
}

#[test]
fn wstring_holds_the_terminated_units() {
    let w = WString::from_str("ab");
    assert_eq!(w.as_units(), &vec![97, 98, 0]);
    assert_eq!(*w.lpcwstr(), 97);
}

#[test]
fn wstring_of_empty_text_is_just_the_terminator() {
    let w = WString::from_str("");
    assert_eq!(w.as_units(), &vec![0]);
    assert_eq!(*w.lpcwstr(), 0);
}

//! WinString encoding, error rendering, MoveCell and builder scenarios.

use wingui::context::Context;
use wingui::builder::Builder;
use wingui::error::WindowsError;
use wingui::events::WindowData;
use wingui::move_cell::MoveCell;
use wingui::winstr::{decode_units, WinString};

#[test]
fn winstring_encodes_ascii_with_terminator() {
    let s = WinString::from_str("ABC");
    assert_eq!(s.as_ptr(), &[0x41, 0x42, 0x43, 0]);
}

#[test]
fn winstring_empty_is_just_the_terminator() {
    let s = WinString::empty();
    assert_eq!(s.as_ptr(), &[0]);
    assert_eq!(s.to_string(), "\0");
}

#[test]
fn winstring_encodes_surrogate_pairs() {
    // U+1D11E lies beyond the basic plane: two units.
    let s = WinString::from_str("\u{1D11E}");
    assert_eq!(s.as_ptr(), &[0xD834, 0xDD1E, 0]);
}

#[test]
fn winstring_round_trips_text() {
    let s = WinString::from_str("héllo \u{1D11E} wörld");
    assert_eq!(s.to_string(), "héllo \u{1D11E} wörld\0");
}

#[test]
fn winstring_replace_reencodes() {
    let mut s = WinString::from_str("long earlier content");
    s.replace("hi");
    assert_eq!(s.as_ptr(), &[0x68, 0x69, 0]);
}

#[test]
fn decode_units_reads_pairs_and_plain_units() {
    assert_eq!(decode_units(&[0x41, 0x42]), "AB");
    assert_eq!(decode_units(&[0xD834, 0xDD1E]), "\u{1D11E}");
    assert_eq!(decode_units(&[]), "");
}

#[test]
fn decode_units_replaces_unpaired_surrogates() {
    // A lone high surrogate, a lone low surrogate, and a high surrogate
    // followed by a non-surrogate each become the replacement character.
    assert_eq!(decode_units(&[0xD834]), "\u{FFFD}");
    assert_eq!(decode_units(&[0xDD1E, 0x41]), "\u{FFFD}A");
    assert_eq!(decode_units(&[0xD834, 0x41]), "\u{FFFD}A");
}

#[test]
fn error_from_res_keeps_the_context() {
    match WindowsError::from_res(Ok(String::from("nope"))) {
        WindowsError::Msg(m) => assert_eq!(m, "nope"),
        _ => panic!("expected the resolved message"),
    }
    match WindowsError::from_res(Err(5)) {
        WindowsError::Code(c) => assert_eq!(c, 5),
        _ => panic!("expected the raw code"),
    }
}

#[test]
fn error_describe_renders_hex_code() {
    assert_eq!(WindowsError::Code(0xAB).describe(), "Windows error code: AB");
    assert_eq!(WindowsError::Code(0).describe(), "Windows error code: 0");
    assert_eq!(WindowsError::Code(0xDEADBEEF).describe(), "Windows error code: DEADBEEF");
}

#[test]
fn error_describe_quotes_message() {
    assert_eq!(
        WindowsError::Msg(String::from("access denied")).describe(),
        "Windows error: \"access denied\""
    );
}

#[test]
fn move_cell_moves_values_in_and_out() {
    let mut cell: MoveCell<u32> = MoveCell::new();
    assert!(!cell.is_set());
    assert_eq!(cell.take(), None);
    assert_eq!(cell.set(3), None);
    assert!(cell.is_set());
    assert_eq!(cell.set(4), Some(3));
    assert_eq!(cell.take(), Some(4));
    assert_eq!(cell.take(), None);
}

#[test]
fn move_cell_set_if_unset_keeps_first_value() {
    let mut cell = MoveCell::with_val(1u8);
    assert_eq!(cell.set_if_unset(2), Some(2));
    assert_eq!(cell.take(), Some(1));
    assert_eq!(cell.set_if_unset(2), None);
    assert_eq!(cell.take(), Some(2));
}

#[test]
fn move_cell_with_mut_ref_replaces_in_place() {
    let mut cell = MoveCell::with_opt(Some(6u32));
    let out = cell.with_mut_ref(|v| (v + 1, v * 10));
    assert_eq!(out, Some(60));
    assert_eq!(cell.take(), Some(7));

    let mut empty: MoveCell<u32> = MoveCell::new();
    assert_eq!(empty.with_mut_ref(|v| (v, v)), None);
    assert!(!empty.is_set());
}

#[test]
fn move_cell_mut_ref_windows_the_content() {
    let mut cell = MoveCell::with_val(5u8);
    *cell.mut_ref() = Some(9);
    assert_eq!(cell.take(), Some(9));
}

#[test]
fn context_captures_the_most_recent_error() {
    let mut ctxt = Context::new();
    assert_eq!(ctxt.take_err(), None);
    ctxt.set_err(String::from("first"));
    ctxt.set_err(String::from("second"));
    assert_eq!(ctxt.take_err(), Some(String::from("second")));
    assert_eq!(ctxt.take_err(), None);
}

#[test]
fn context_builds_a_titled_window() {
    let ctxt = Context::new();
    let data = ctxt.window("Hi").build();
    assert_eq!(data.title().as_ptr(), &[0x48, 0x69, 0]);
    let name = data.name().expect("the payload carries its title");
    assert_eq!(name.as_ptr(), &[0x48, 0x69, 0]);
}

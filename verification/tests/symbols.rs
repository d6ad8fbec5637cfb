use crossdylib::{is_valid_symbol, probe_symbol, CrossDylib};

#[test]
fn probe_symbol_is_prefix_name_and_nul() {
    assert_eq!(probe_symbol(b"counter"), b"__xsync_counter\0".to_vec());
    assert_eq!(probe_symbol(b"THE_ANSWER"), b"__xsync_THE_ANSWER\0".to_vec());
    assert_eq!(probe_symbol(b""), b"__xsync_\0".to_vec());
}

#[test]
fn probe_symbol_is_always_valid() {
    assert!(is_valid_symbol(&probe_symbol(b"counter")));
    assert!(is_valid_symbol(&probe_symbol(b"")));
    assert!(is_valid_symbol(&probe_symbol(b"a\0b")));
}

#[test]
fn valid_symbol_is_not_empty_and_ends_in_nul() {
    assert!(!is_valid_symbol(b""));
    assert!(!is_valid_symbol(b"__xsync_counter"));
    assert!(!is_valid_symbol(b"\0counter"));
    assert!(is_valid_symbol(b"\0"));
    assert!(is_valid_symbol(b"__xsync_counter\0"));
    assert!(is_valid_symbol(b"__crossdylib_THE_ANSWER\0"));
}

#[test]
fn slot_reports_whether_its_symbol_is_valid() {
    let good = CrossDylib::new(b"__xsync_counter\0".to_vec(), || 39u32);
    assert!(good.has_valid_symbol());
    assert_eq!(good.symbol(), b"__xsync_counter\0");
    let bad = CrossDylib::new(b"__xsync_counter".to_vec(), || 39u32);
    assert!(!bad.has_valid_symbol());
    let empty = CrossDylib::new(Vec::new(), || 39u32);
    assert!(!empty.has_valid_symbol());
}

use proc_macro2::Span;
use sched_ext_ops::{
    encode_name, expand_name, table_from_literal, SchedExtOps, SchedExtOpsError,
    TOO_LONG_DIAGNOSTIC,
};
use syn::LitCStr;

fn with_nul(payload: &[u8]) -> Vec<u8> {
    let mut v = payload.to_vec();
    v.push(0);
    v
}

#[test]
fn encode_minimal_pads_with_zeros() {
    let buf = encode_name(b"minimal").unwrap();
    assert_eq!(&buf[..7], b"minimal");
    assert!(buf[7..].iter().all(|b| *b == 0));
    assert_eq!(buf.len(), 128);
}

#[test]
fn encode_empty_is_all_zero() {
    let buf = encode_name(b"").unwrap();
    assert_eq!(buf, [0u8; 128]);
}

#[test]
fn encode_127_bytes_keeps_terminator_last() {
    let name = vec![b'a'; 127];
    let buf = encode_name(&name).unwrap();
    assert_eq!(&buf[..127], &name[..]);
    assert_eq!(buf[127], 0);
}

#[test]
fn encode_128_bytes_is_refused() {
    let name = vec![b'a'; 128];
    assert_eq!(encode_name(&name), Err(SchedExtOpsError::NameTooLong(128)));
}

#[test]
fn encode_181_bytes_is_refused() {
    let name = vec![b'q'; 181];
    assert_eq!(encode_name(&name), Err(SchedExtOpsError::NameTooLong(181)));
}

#[test]
fn encode_layout_of_short_name() {
    let buf = encode_name(b"abcde").unwrap();
    assert_eq!(&buf[..5], b"abcde");
    assert_eq!(buf[5], 0);
    assert!(buf[6..].iter().all(|b| *b == 0));
}

#[test]
fn encode_twice_is_identical() {
    let a = encode_name(b"scx_simple").unwrap();
    let b = encode_name(b"scx_simple").unwrap();
    assert_eq!(a, b);
    let long = vec![b'z'; 200];
    assert_eq!(encode_name(&long), encode_name(&long));
}

#[test]
fn builders_agree_on_a_name() {
    let name = b"scx_rustland";
    let compiled = expand_name(name).unwrap();
    let lit = table_from_literal(&LitCStr::new(c"scx_rustland", Span::call_site())).unwrap();
    let runtime = SchedExtOps::new(&with_nul(name)).unwrap();
    assert_eq!(compiled.name, runtime.inner().name);
    assert_eq!(lit.name, runtime.inner().name);
    assert_eq!(compiled.name, encode_name(name).unwrap());
    assert_eq!(compiled.flags, runtime.inner().flags);
    assert!(runtime.inner().init.is_none() && compiled.init.is_none());
}

#[test]
fn builders_agree_at_the_limit() {
    let ok = vec![b'k'; 127];
    let runtime = SchedExtOps::new(&with_nul(&ok)).unwrap();
    assert_eq!(expand_name(&ok).unwrap().name, runtime.inner().name);
    let bad = vec![b'k'; 128];
    assert_eq!(expand_name(&bad).unwrap_err(), TOO_LONG_DIAGNOSTIC);
    assert_eq!(
        SchedExtOps::new(&with_nul(&bad)).unwrap_err(),
        SchedExtOpsError::NameTooLong(128)
    );
}

#[test]
fn runtime_builder_stops_at_first_terminator() {
    let ops = SchedExtOps::new(b"abc\0def\0").unwrap();
    assert_eq!(&ops.inner().name[..4], b"abc\0");
    assert!(ops.inner().name[3..].iter().all(|b| *b == 0));
}

#[test]
fn runtime_builder_empty_name() {
    let ops = SchedExtOps::new(b"\0").unwrap();
    assert_eq!(ops.inner().name, [0u8; 128]);
}

#[test]
fn runtime_error_message() {
    let err = SchedExtOps::new(&with_nul(&vec![b'n'; 181])).unwrap_err();
    assert_eq!(err, SchedExtOpsError::NameTooLong(181));
    assert_eq!(err.message(), "name can have at most 127 characters, got 181");
    assert_eq!(
        SchedExtOpsError::NameTooLong(128).message(),
        "name can have at most 127 characters, got 128"
    );
    assert_eq!(
        SchedExtOpsError::NameTooLong(0).message(),
        "name can have at most 127 characters, got 0"
    );
    assert_eq!(
        SchedExtOpsError::NameTooLong(1_000_090).message(),
        "name can have at most 127 characters, got 1000090"
    );
}

#[test]
fn compile_time_diagnostic_text() {
    let lit = LitCStr::new(c"wwwwwwwwwwwwwwwwwwwwwwwwwwwwwwwwwwwwwwwwwwwwwwwwwwwwwwwwwwwwwwwwwwwwwwwwwwwwwwwwwwwwwwwwwwwwwwwwwwwwwwwwwwwwwwwwwwwwwwwwwwwwwwww", Span::call_site());
    let err = table_from_literal(&lit).unwrap_err();
    assert_eq!(err.to_string(), "name is too long, the limit is 127");
    assert_eq!(TOO_LONG_DIAGNOSTIC, "name is too long, the limit is 127");
}

#[test]
fn literal_payload_reaches_the_table() {
    let t = table_from_literal(&LitCStr::new(c"a\x01z", Span::call_site())).unwrap();
    assert_eq!(&t.name[..4], &[b'a', 1, b'z', 0]);
}

#[test]
fn name_reads_the_same_signed_and_unsigned() {
    let name = "\u{e9}t\u{e9}".as_bytes();
    let t = expand_name(name).unwrap();
    assert_eq!(&t.name[..5], &[0xc3, 0xa9, b't', 0xc3, 0xa9]);
    let signed = t.name_signed();
    assert_eq!(&signed[..5], &[-61i8, -87, 116, -61, -87]);
    for i in 0..128 {
        assert_eq!(signed[i] as u8, t.name[i]);
    }
}

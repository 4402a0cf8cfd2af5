use image_depth_server::cache::{make_key, DepthEntry};
use image_depth_server::inference::{build_model_fingerprint, fnv1a64};
use image_depth_server::text::{hex16, push_decimal, push_signed_decimal};

fn reference_fnv(bytes: &[u8]) -> u64 {
    let mut h: u64 = 0xcbf29ce484222325;
    for b in bytes {
        h ^= *b as u64;
        h = h.wrapping_mul(0x100000001b3);
    }
    h
}

#[test]
fn make_key_has_documented_layout() {
    let key = make_key("20190917112902491378", "0123456789abcdef", 400, 1024);
    assert_eq!(key, "v2:0123456789abcdef:cover-400:max-1024:20190917112902491378");
}

#[test]
fn make_key_changes_with_every_input() {
    let base = make_key("20190917112902491378", "0123456789abcdef", 400, 1024);
    assert_ne!(base, make_key("20190917112902491379", "0123456789abcdef", 400, 1024));
    assert_ne!(base, make_key("20190917112902491378", "0123456789abcdee", 400, 1024));
    assert_ne!(base, make_key("20190917112902491378", "0123456789abcdef", 480, 1024));
    assert_ne!(base, make_key("20190917112902491378", "0123456789abcdef", 400, 512));
    assert_eq!(base, make_key("20190917112902491378", "0123456789abcdef", 400, 1024));
}

#[test]
fn make_key_of_zero_sizes() {
    assert_eq!(make_key("1", "f", 0, 0), "v2:f:cover-0:max-0:1");
}

#[test]
fn fnv1a64_known_values() {
    assert_eq!(fnv1a64(b""), 0xcbf29ce484222325);
    assert_eq!(fnv1a64(b"a"), 0xaf63dc4c8601ec8c);
    assert_eq!(fnv1a64(b"foobar"), 0x85944171f73967e8);
}

#[test]
fn hex16_pads_to_sixteen_digits() {
    assert_eq!(hex16(0), "0000000000000000");
    assert_eq!(hex16(0xdead), "000000000000dead");
    assert_eq!(hex16(u64::MAX), "ffffffffffffffff");
}

#[test]
fn decimal_formatting() {
    let mut s = String::new();
    push_decimal(&mut s, 0);
    s.push(' ');
    push_decimal(&mut s, 1234567890123);
    s.push(' ');
    push_signed_decimal(&mut s, -42);
    s.push(' ');
    push_signed_decimal(&mut s, i64::MIN);
    assert_eq!(s, "0 1234567890123 -42 -9223372036854775808");
}

#[test]
fn fingerprint_hashes_path_size_time_and_input() {
    let fp = build_model_fingerprint("./model_quantized.onnx", 27_000_000, 1_700_000_000_123, 518, 518);
    let raw = "./model_quantized.onnx\u{0}27000000\u{0}1700000000123\u{0}518\u{0}518\u{0}preprocess-v1";
    assert_eq!(fp, format!("{:016x}", reference_fnv(raw.as_bytes())));
    assert_eq!(fp.len(), 16);
    assert!(!fp.contains(':'));
}

#[test]
fn fingerprint_changes_with_input_size() {
    let a = build_model_fingerprint("m.onnx", 10, 0, 518, 518);
    let b = build_model_fingerprint("m.onnx", 10, 0, 518, 520);
    assert_ne!(a, b);
    let ka = make_key("12345678", &a, 400, 1024);
    let kb = make_key("12345678", &b, 400, 1024);
    assert_ne!(ka, kb);
}

#[test]
fn fingerprint_of_non_ascii_path_uses_utf8_bytes() {
    let fp = build_model_fingerprint("模型.onnx", 1, 2, 3, 4);
    let raw = "模型.onnx\u{0}1\u{0}2\u{0}3\u{0}4\u{0}preprocess-v1";
    assert_eq!(fp, format!("{:016x}", reference_fnv(raw.as_bytes())));
}

#[test]
fn depth_entry_duplicate_is_equal() {
    let e = DepthEntry {
        hash: "20190917112902491378".to_string(),
        width: 400,
        height: 400,
        data_url: "data:image/png;base64,AAAA".to_string(),
        created_at: 1793376000000,
    };
    let d = e.duplicate();
    assert_eq!(d.hash, e.hash);
    assert_eq!(d.width, 400);
    assert_eq!(d.height, 400);
    assert_eq!(d.data_url, e.data_url);
    assert_eq!(d.created_at, 1793376000000);
}

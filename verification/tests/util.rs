use beat_hard_combat::math::isqrt64;
use beat_hard_combat::strutil::bytes_eq;
use beat_hard_combat::strutil::contains_bytes;
use beat_hard_combat::strutil::str_contains;
use beat_hard_combat::strutil::str_eq;

#[test]
fn isqrt_of_edge_values() {
    assert_eq!(isqrt64(0), 0);
    assert_eq!(isqrt64(1), 1);
    assert_eq!(isqrt64(2), 1);
    assert_eq!(isqrt64(3), 1);
    assert_eq!(isqrt64(4), 2);
    assert_eq!(isqrt64(2_249_999), 1499);
    assert_eq!(isqrt64(2_250_000), 1500);
    assert_eq!(isqrt64(u64::MAX), 4_294_967_295);
}

#[test]
fn substring_search_on_bytes() {
    assert!(contains_bytes(b"abcdef", b"cde"));
    assert!(contains_bytes(b"abcdef", b""));
    assert!(contains_bytes(b"abcdef", b"abcdef"));
    assert!(!contains_bytes(b"abcdef", b"abcdefg"));
    assert!(!contains_bytes(b"abcdef", b"ce"));
    assert!(!contains_bytes(b"", b"a"));
    assert!(contains_bytes(b"", b""));
}

#[test]
fn string_search_handles_multibyte_text() {
    assert!(str_contains("BH-Se\u{f1}al-ManoDerecha", "ManoDerecha"));
    assert!(str_contains("BH-Se\u{f1}al", "Se\u{f1}al"));
    assert!(!str_contains("BH-Senal", "Se\u{f1}al"));
    assert!(str_contains("anything", ""));
}

#[test]
fn string_equality_is_exact() {
    assert!(str_eq("ManoDerecha_a1", "ManoDerecha_a1"));
    assert!(!str_eq("ManoDerecha_a1", "ManoDerecha_a2"));
    assert!(!str_eq("", "a"));
    assert!(str_eq("", ""));
    assert!(str_eq("se\u{f1}al", "se\u{f1}al"));
    assert!(bytes_eq(b"abc", b"abc"));
    assert!(!bytes_eq(b"abc", b"abd"));
}

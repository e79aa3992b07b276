use openvb::encode::{PhonemeEncoder, PHONEME_COUNT};
use openvb::utterance::{record_is_valid, Utterance};
use openvb::time::Timestamp;

#[test]
fn test_encode_decode() {
    let data = "G_/";

    let encoded = PhonemeEncoder::encode(data);
    let decoded = PhonemeEncoder::decode(encoded);

    println!("Encoded: {:b}", encoded);
    println!("Decoded: {}", decoded);

    assert_eq!(data, decoded);
}

#[test]
fn encode_places_base_and_diacritic_bits() {
    // "G" is base entry 61, "/" diacritic slot 4
    let code = PhonemeEncoder::encode("G_/");
    assert_eq!(code & 0x3ff, 61);
    assert_eq!(code >> 10, 4);
    assert_eq!(code, 61 + (4 << 10));
}

#[test]
fn encode_base_alone_has_no_diacritic_bits() {
    assert_eq!(PhonemeEncoder::encode("a"), 8);
    assert_eq!(PhonemeEncoder::encode("sil"), 0);
    assert_eq!(PhonemeEncoder::encode("@"), 102);
    assert_eq!(PhonemeEncoder::decode(8), "a");
}

#[test]
fn unknown_parts_fall_back_to_zero() {
    assert_eq!(PhonemeEncoder::encode("nothing-like-this"), 0);
    // unknown diacritic: base kept, diacritic bits zero
    assert_eq!(PhonemeEncoder::encode("a_zz"), 8);
    assert_eq!(PhonemeEncoder::encode(""), 0);
}

#[test]
fn diacritic_part_is_everything_after_first_underscore() {
    let code = PhonemeEncoder::encode("t_h");
    assert_eq!(code, 42 + (27 << 10));
    assert_eq!(PhonemeEncoder::decode(code), "t_h");
    assert_eq!(PhonemeEncoder::decode(PhonemeEncoder::encode("a_B_L")), "a_B_L");
}

#[test]
fn round_trip_over_base_table() {
    for i in 0..PHONEME_COUNT as u16 {
        let token = PhonemeEncoder::decode(i);
        let code = PhonemeEncoder::encode(&token);
        if !token.contains('_') {
            assert!(code < 1024);
            assert_eq!(PhonemeEncoder::decode(code), token);
        } else {
            // a base entry such as `b_<` splits into base and diacritic
            assert!(code >= 1024);
            assert_eq!(PhonemeEncoder::decode(code), token);
        }
        let with_diacritic = format!("{}_~", token);
        if !token.contains('_') {
            let c = PhonemeEncoder::encode(&with_diacritic);
            assert_eq!(c >> 10, 14);
            assert_eq!(PhonemeEncoder::decode(c), with_diacritic);
        }
    }
}

#[test]
fn silence_markers() {
    for s in ["sil", "pau", "br", "cl"] {
        assert!(PhonemeEncoder::is_silence(s));
    }
    for s in ["a", "SP", "sil_h", "", "si"] {
        assert!(!PhonemeEncoder::is_silence(s));
    }
}

fn segment(prev: &str, curr: &str, next: &str, start: u64, end: u64) -> Utterance {
    Utterance::new(
        prev.to_string(),
        curr.to_string(),
        next.to_string(),
        Timestamp::new(start),
        Timestamp::new(end),
    )
}

#[test]
fn packed_record_layout() {
    let mut u = segment("sil", "a", "t_h", 1000, 5000);
    u.flags = 1;
    u.pitch = Some(69);
    let r = u.minify();
    let word = (0u64 << 48) | (8u64 << 32) | ((42u64 + (27 << 10)) << 16) | (1u64 << 8) | (69 + 128);
    assert_eq!(r, [word, 1000, 5000]);
}

#[test]
fn packed_record_projection() {
    let mut u = segment("G_/", "a", "sil", 250, 1251);
    u.flags = 1;
    u.pitch = Some(57);
    u.extras = Some(vec![("gain".to_string(), 1.5f32.to_bits())]);
    let r = u.minify();
    assert!(record_is_valid(&r));
    let v = Utterance::from_minified(&r);
    assert_eq!(v.prev, "G_/");
    assert_eq!(v.curr, "a");
    assert_eq!(v.next, "sil");
    assert_eq!(v.flags, 1);
    assert_eq!(v.pitch, Some(57));
    assert_eq!(v.start, Timestamp::new(250));
    assert_eq!(v.end, Timestamp::new(1251));
    assert_eq!(v.midpoint, Timestamp::new(750));
    assert!(v.extras.is_none());
    assert!(v.areas.is_none());
    assert_eq!(v.minified, Some(r));
}

#[test]
fn packed_record_without_pitch() {
    let u = segment("a", "b", "c", 0, 10);
    let r = u.minify();
    assert_eq!(r[0] & 0xff, 0);
    let v = Utterance::from_minified(&r);
    assert_eq!(v.pitch, None);
}

#[test]
fn invalid_records_are_detected() {
    assert!(record_is_valid(&[0, 0, 0]));
    // base index 1000 is past the table
    assert!(!record_is_valid(&[1000u64 << 48, 0, 0]));
    // diacritic slot 60 is past the table
    assert!(!record_is_valid(&[(60u64 << 10) << 16, 0, 0]));
    // start after end
    assert!(!record_is_valid(&[0, 5, 4]));
}

use regex::Regex;
use thumbs_cache::video_id::{validate_video_id, VIDEO_ID_LEN};

const FINAL_CHARS: &str = "AEIMQUYcgkosw048";

#[test]
fn known_identifiers_are_valid() {
    assert!(validate_video_id("aGb3AlQrN9E"));
    assert!(validate_video_id("v5Zo0mUO-GE"));
    assert!(validate_video_id("OVoqDpjN_Do"));
    assert!(validate_video_id("vgD1tVd9ubA"));
    assert!(validate_video_id("6xKLBne1CoI"));
    assert!(validate_video_id("VLM5ECY07nw"));
    assert!(validate_video_id("-_-_-_-_-_0"));
}

#[test]
fn final_character_is_constrained() {
    assert_eq!(VIDEO_ID_LEN, 11);
    for code in 0u32..256 {
        let last = char::from_u32(code).unwrap();
        let id = format!("aGb3AlQrN9{}", last);
        assert_eq!(validate_video_id(&id), FINAL_CHARS.contains(last));
    }
    assert!(!validate_video_id("aGb3AlQrN9F"));
    assert!(!validate_video_id("aGb3AlQrN9-"));
    assert!(!validate_video_id("aGb3AlQrN9_"));
    assert!(!validate_video_id("aGb3AlQrN91"));
}

#[test]
fn length_is_fixed() {
    assert!(!validate_video_id(""));
    assert!(!validate_video_id("A"));
    assert!(!validate_video_id("aGb3AlQrN9"));
    assert!(!validate_video_id("aGb3AlQrNE"));
    assert!(!validate_video_id("aGb3AlQrN9EE"));
    assert!(!validate_video_id("aGb3AlQrN9E\n"));
    assert!(!validate_video_id(" aGb3AlQrN9E"));
}

#[test]
fn other_characters_are_refused() {
    assert!(!validate_video_id("aGb3.lQrN9E"));
    assert!(!validate_video_id("aGb3/lQrN9E"));
    assert!(!validate_video_id("aGb3 lQrN9E"));
    assert!(!validate_video_id("aGb3élQrN9E"));
    assert!(!validate_video_id("../../etc/p"));
    assert!(!validate_video_id("aGb3AlQrN9é"));
}

#[test]
fn validator_agrees_with_the_pattern() {
    let pattern = Regex::new("^[A-Za-z0-9_-]{10}[AEIMQUYcgkosw048]$").unwrap();
    let base: Vec<char> = "aGb3AlQrN9E".chars().collect();
    let mut samples: Vec<String> = Vec::new();
    for place in 0..base.len() {
        for code in 0u32..0x180 {
            let mut chars = base.clone();
            chars[place] = char::from_u32(code).unwrap();
            samples.push(chars.iter().collect());
        }
    }
    for length in 0..14 {
        samples.push("A".repeat(length));
        samples.push("-".repeat(length));
        samples.push("é".repeat(length));
    }
    for extra in ["\n", "\r\n", " ", "\0", "E"] {
        samples.push(format!("aGb3AlQrN9E{}", extra));
        samples.push(format!("{}aGb3AlQrN9E", extra));
    }
    assert!(samples.len() > 4000);
    for sample in samples {
        assert_eq!(validate_video_id(&sample), pattern.is_match(&sample), "{:?}", sample);
    }
}

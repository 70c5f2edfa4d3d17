use physics::resources::AaState;
use physics::test_texture::{create_from_falloff, texel, TH, TW};
use physics::text::{contains, ends_with, sorted_unique, str_less, strip_suffix, trim_end_all_matches};

#[test]
fn aa_state_cycles() {
    let s = AaState::default();
    assert_eq!(s, AaState::Msaa4);
    assert_eq!(s.next(), AaState::Fxaa);
    assert_eq!(s.next().next(), AaState::Disabled);
    assert_eq!(s.next().next().next(), AaState::Msaa4);
    assert!(AaState::Msaa4.uses_msaa() && !AaState::Msaa4.uses_fxaa());
    assert!(AaState::Fxaa.uses_fxaa() && !AaState::Fxaa.uses_msaa());
    assert!(!AaState::Disabled.uses_fxaa() && !AaState::Disabled.uses_msaa());
}

#[test]
fn texel_corner_is_bright() {
    // at the corner the edge level 511 saturates every channel
    assert_eq!(texel(0, 0, 0), (255, 255, 255));
    assert_eq!(texel(255, 255, 100), (255, 255, 255));
}

#[test]
fn texel_inside_uses_pattern() {
    // x = 40, y = 40: edge distance 31, level 0; !40 & !40 & 255 = 215
    assert_eq!(texel(40, 40, 0), (215, 0, 0));
    assert_eq!(texel(40, 40, 20), (195, 0, 0));
    // falloff is capped at 50 and at 0
    assert_eq!(texel(40, 40, 500), (165, 0, 0));
    assert_eq!(texel(40, 40, -5), (215, 0, 0));
    // x = 41, y = 40: green = 41 & !40 & 255 = 1, blue = !41 & 40 & 255 = 0
    assert_eq!(texel(41, 40, 0), (214, 1, 0));
    // edge distance 4 gives level 511 >> 4 = 31
    assert_eq!(texel(4, 100, 0), (155, 31, 96));
}

#[test]
fn texture_bytes_row_major() {
    let raw = vec![0i32; TW * TH];
    let bytes = create_from_falloff(&raw);
    assert_eq!(bytes.len(), 4 * TW * TH);
    let p = 40 * TW + 41;
    assert_eq!(&bytes[4 * p..4 * p + 4], &[214, 1, 0, 0]);
    assert_eq!(&bytes[0..4], &[255, 255, 255, 0]);
}

#[test]
fn text_helpers() {
    assert!(contains("some_albedo.png", "albedo"));
    assert!(!contains("abc", "abcd"));
    assert!(contains("abc", ""));
    assert!(ends_with("brick-bl", "-bl"));
    assert!(!ends_with("bl", "-bl"));
    assert_eq!(strip_suffix("metals-bl", "-bl"), Some("metals".to_string()));
    assert_eq!(strip_suffix("metals", "-bl"), None);
    assert_eq!(trim_end_all_matches("x-bl-bl", "-bl"), "x");
    assert!(str_less("a", "b"));
    assert!(str_less("a", "ab"));
    assert!(!str_less("b", "a"));
    assert!(!str_less("a", "a"));
    let v = vec!["c".to_string(), "a".to_string(), "c".to_string(), "b".to_string()];
    assert_eq!(sorted_unique(&v), vec!["a", "b", "c"]);
}

use luxamor::clock::Timestamp;
use luxamor::helpers::{haas_request, haas_result, hex_to_rgb, link_from_randoms, new_link, valid_hex, HaasError};
use luxamor::text::{i64_to_decimal, u64_to_decimal};

const BASE59: &str = "0123456789ABCDEFGHJKLMNPQRSTUVWXYZabcdefghiklmnopqrstuvwxyz";

#[test]
fn link_has_requested_length_and_alphabet() {
    for size in [0usize, 1, 8, 16, 64] {
        let link = new_link(size);
        assert_eq!(link.chars().count(), size);
        assert!(link.chars().all(|c| BASE59.contains(c)));
    }
}

#[test]
fn links_differ() {
    let a = new_link(16);
    let b = new_link(16);
    assert_ne!(a, b);
}

#[test]
fn many_links() {
    for _ in 0..10_000 {
        let link = new_link(16);
        assert_eq!(link.len(), 16);
    }
}

#[test]
fn link_from_randoms_picks_by_remainder() {
    let link = link_from_randoms(&vec![0, 58, 59, 60, 118, 17, usize::MAX]);
    // usize::MAX % 59 on 64-bit targets
    let last = BASE59.chars().nth(usize::MAX % 59).unwrap();
    assert_eq!(link, format!("0z010H{}", last));
    assert_eq!(link_from_randoms(&vec![]), "");
}

#[test]
fn alphabet_has_no_lookalikes() {
    assert_eq!(BASE59.chars().count(), 59);
    let all: String = (0..59usize).collect::<Vec<_>>().iter().map(|i| link_from_randoms(&vec![*i])).collect();
    assert_eq!(all, BASE59);
    assert!(!all.contains('I') && !all.contains('O') && !all.contains('j'));
}

#[test]
fn valid_hex_accepts_css_hex_colours() {
    assert!(valid_hex("#b00b69"));
    assert!(valid_hex("b00b69"));
    assert!(valid_hex("#FC0"));
    assert!(valid_hex("fc0"));
    assert!(valid_hex("#E76b2C"));
}

#[test]
fn valid_hex_refuses_other_texts() {
    assert!(!valid_hex("cyan"));
    assert!(!valid_hex(""));
    assert!(!valid_hex("#"));
    assert!(!valid_hex("#12345"));
    assert!(!valid_hex("#1234567"));
    assert!(!valid_hex("#gggggg"));
    assert!(!valid_hex("rgb(1,2,3)"));
}

#[test]
fn hex_to_rgb_gives_decimal_channels() {
    let (r, g, b) = hex_to_rgb("#e76B2c").unwrap();
    assert_eq!((r.as_str(), g.as_str(), b.as_str()), ("231", "107", "44"));
    let (r, g, b) = hex_to_rgb("fc0").unwrap();
    assert_eq!((r.as_str(), g.as_str(), b.as_str()), ("255", "204", "0"));
    let (r, g, b) = hex_to_rgb("#000000").unwrap();
    assert_eq!((r.as_str(), g.as_str(), b.as_str()), ("0", "0", "0"));
    let (r, g, b) = hex_to_rgb("#b00b69").unwrap();
    assert_eq!((r.as_str(), g.as_str(), b.as_str()), ("176", "11", "105"));
}

#[test]
fn hex_to_rgb_refuses_non_colours() {
    assert!(matches!(hex_to_rgb("cyan"), Err(HaasError::InvalidColor)));
    assert!(matches!(hex_to_rgb("#12"), Err(HaasError::InvalidColor)));
}

#[test]
fn haas_request_is_built_from_settings_colour_and_time() {
    let now = Timestamp { secs: 1714566896, nanos: 0 };
    let req = haas_request("http://ha.local:8123", "token123", "#b00b69", "abc", &now).ok().unwrap();
    assert_eq!(req.url, "http://ha.local:8123/api/states/sensor.thought_ping");
    assert_eq!(req.authorization, "Bearer token123");
    assert_eq!(req.content_type, "application/json");
    assert_eq!(
        req.body,
        "{\"state\":\"ping\", \"attributes\":{\"red\":\"176\", \"green\":\"11\", \"blue\":\"105\", \"origin\":\"abc\", \"timestamp\":\"2024-05-01 12:34:56\"}}"
    );
}

#[test]
fn haas_request_shows_fractions_of_seconds() {
    let now = Timestamp { secs: 1714566896, nanos: 500_000_000 };
    let req = haas_request("u", "k", "fff", "o", &now).ok().unwrap();
    assert!(req.body.ends_with("\"timestamp\":\"2024-05-01 12:34:56.500\"}}"));
    assert!(req.body.contains("\"red\":\"255\", \"green\":\"255\", \"blue\":\"255\""));
}

#[test]
fn haas_request_refuses_non_colours() {
    let now = Timestamp { secs: 0, nanos: 0 };
    assert!(matches!(haas_request("u", "k", "cyan", "o", &now), Err(HaasError::InvalidColor)));
}

#[test]
fn haas_result_maps_sending() {
    assert_eq!(haas_result(true), Ok(()));
    assert_eq!(haas_result(false), Err(HaasError::Unreachable));
}

#[test]
fn decimals_are_written_as_display_writes_them() {
    assert_eq!(u64_to_decimal(0), "0");
    assert_eq!(u64_to_decimal(255), "255");
    assert_eq!(u64_to_decimal(u64::MAX), u64::MAX.to_string());
    assert_eq!(i64_to_decimal(-5), "-5");
    assert_eq!(i64_to_decimal(i64::MIN), i64::MIN.to_string());
    assert_eq!(i64_to_decimal(i64::MAX), i64::MAX.to_string());
    assert_eq!(i64_to_decimal(10), "10");
}

#[test]
fn haas_request_at_the_ends_of_time() {
    let first = Timestamp { secs: -8334601228800, nanos: 0 };
    let last = Timestamp { secs: 8210266876799, nanos: 999_999_999 };
    let a = haas_request("u", "k", "fff", "o", &first).ok().unwrap();
    assert!(a.body.contains("-262143-01-01 00:00:00"));
    let b = haas_request("u", "k", "fff", "o", &last).ok().unwrap();
    assert!(b.body.contains("262142-12-31 23:59:59.999999999"));
}

#[test]
fn not_a_color_is_refused() {
    assert!(!valid_hex("not a color"));
    assert!(hex_to_rgb("not a color").is_err());
}

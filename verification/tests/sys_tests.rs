use orchestrator::sys::{format_rfc3339, generate_build_id, generate_token, now_unix};

#[test]
fn token_is_alphanumeric_of_requested_length() {
    let t = generate_token(32);
    assert_eq!(t.chars().count(), 32);
    assert!(t.chars().all(|c| c.is_ascii_alphanumeric()));
    assert_eq!(generate_token(0), "");
    assert_eq!(generate_token(5).chars().count(), 5);
}

#[test]
fn build_id_is_a_hyphenated_uuid() {
    let id = generate_build_id();
    assert_eq!(id.len(), 36);
    let hyphens: Vec<usize> =
        id.char_indices().filter(|(_, c)| *c == '-').map(|(i, _)| i).collect();
    assert_eq!(hyphens, vec![8, 13, 18, 23]);
    assert!(id.chars().all(|c| c == '-' || c.is_ascii_hexdigit()));
}

#[test]
fn rfc3339_of_the_epoch() {
    assert_eq!(format_rfc3339(0).unwrap(), "1970-01-01T00:00:00+00:00");
    assert_eq!(format_rfc3339(1700000000).unwrap(), "2023-11-14T22:13:20+00:00");
}

#[test]
fn clock_is_after_twenty_twenty() {
    let t = now_unix();
    assert!(t > 1_577_836_800);
}

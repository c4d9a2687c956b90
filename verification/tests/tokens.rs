use redlock::lock::{Attempt, Redlock};

fn servers(n: usize) -> Vec<String> {
    (0..n).map(|i| format!("redis://10.0.0.{}:6379", i + 1)).collect()
}

fn text_of(id: u128) -> String {
    let attempt = Attempt::with_token(&servers(1), "job", 1_000, id, 0);
    attempt.requests().remove(0).value
}

#[test]
fn token_text_is_hyphenated_lower_hex() {
    assert_eq!(
        text_of(0x67e5_5044_10b1_426f_9247_bb68_0e5f_e0c8),
        "67e55044-10b1-426f-9247-bb680e5fe0c8"
    );
    assert_eq!(
        text_of(0xa1a2_a3a4_b1b2_c1c2_d1d2_d3d4_d5d6_d7d8),
        "a1a2a3a4-b1b2-c1c2-d1d2-d3d4d5d6d7d8"
    );
}

#[test]
fn token_text_of_extremes() {
    assert_eq!(text_of(0), "00000000-0000-0000-0000-000000000000");
    assert_eq!(text_of(u128::MAX), "ffffffff-ffff-ffff-ffff-ffffffffffff");
    assert_eq!(text_of(1), "00000000-0000-0000-0000-000000000001");
    assert_eq!(text_of(1 << 127), "80000000-0000-0000-0000-000000000000");
}

#[test]
fn token_text_places_every_digit() {
    assert_eq!(
        text_of(0x0123_4567_89ab_cdef_fedc_ba98_7654_3210),
        "01234567-89ab-cdef-fedc-ba9876543210"
    );
}

#[test]
fn token_text_agrees_with_positional_digits() {
    let id: u128 = 0x1f2e_3d4c_5b6a_7988_9706_a5b4_c3d2_e1f0;
    let text = text_of(id);
    let chars: Vec<char> = text.chars().collect();
    assert_eq!(chars.len(), 36);
    let mut digit = 0;
    for (i, c) in chars.iter().enumerate() {
        if i == 8 || i == 13 || i == 18 || i == 23 {
            assert_eq!(*c, '-');
        } else {
            let value = ((id >> (4 * (31 - digit))) & 0xf) as u32;
            assert_eq!(*c, std::char::from_digit(value, 16).unwrap());
            digit += 1;
        }
    }
    assert_eq!(digit, 32);
}

#[test]
fn distinct_tokens_have_distinct_texts() {
    let a = text_of(0x10);
    let b = text_of(0x01);
    assert_ne!(a, b);
}

#[test]
fn fresh_token_is_a_random_identifier() {
    for _ in 0..32 {
        let attempt = Redlock::try_lock(&servers(3), "job", 60_000, 0);
        let id = attempt.id();
        assert_eq!((id >> 76) & 0xf, 4);
        assert_eq!((id >> 62) & 0x3, 2);
        assert_eq!(
            id & 0xF000_C000_0000_0000_0000u128,
            0x4000_8000_0000_0000_0000u128
        );
    }
}

#[test]
fn every_attempt_draws_its_own_token() {
    let first = Redlock::try_lock(&servers(3), "job", 60_000, 0);
    let second = Redlock::try_lock(&servers(3), "job", 60_000, 0);
    assert_ne!(first.id(), second.id());
}

#[test]
fn fresh_token_is_what_the_requests_carry() {
    let attempt = Redlock::try_lock(&servers(2), "job", 60_000, 0);
    let expected = uuid::Uuid::from_u128(attempt.id()).hyphenated().to_string();
    for request in attempt.requests() {
        assert_eq!(request.value, expected);
    }
}

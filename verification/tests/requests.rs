use redlock::lock::Attempt;
use redlock::request::{server_url, LockRequest, SetReply, UNLOCK_SCRIPT};
use redlock::text::decimal_string;

#[test]
fn decimal_of_small_numbers() {
    assert_eq!(decimal_string(0), "0");
    assert_eq!(decimal_string(7), "7");
    assert_eq!(decimal_string(9), "9");
    assert_eq!(decimal_string(10), "10");
    assert_eq!(decimal_string(60), "60");
    assert_eq!(decimal_string(101), "101");
}

#[test]
fn decimal_of_large_numbers() {
    assert_eq!(decimal_string(60_000), "60000");
    assert_eq!(decimal_string(1_234_567_890), "1234567890");
    assert_eq!(decimal_string(u64::MAX), "18446744073709551615");
}

#[test]
fn decimal_agrees_with_std() {
    let mut n: u64 = 1;
    for _ in 0..19 {
        assert_eq!(decimal_string(n), n.to_string());
        assert_eq!(decimal_string(n - 1), (n - 1).to_string());
        n *= 10;
    }
}

#[test]
fn server_url_puts_the_scheme_in_front() {
    assert_eq!(server_url("localhost:6379"), "redis://localhost:6379");
    assert_eq!(server_url("10.1.2.3"), "redis://10.1.2.3");
    assert_eq!(server_url(""), "redis://");
}

#[test]
fn lock_command_words() {
    let request = LockRequest {
        server: "redis://a".to_string(),
        key: "nightly-job".to_string(),
        value: "67e55044-10b1-426f-9247-bb680e5fe0c8".to_string(),
        ttl_ms: 60_000,
    };
    assert_eq!(
        request.command(),
        vec![
            "SET",
            "nightly-job",
            "67e55044-10b1-426f-9247-bb680e5fe0c8",
            "nx",
            "px",
            "60000"
        ]
    );
}

#[test]
fn lock_command_of_an_attempt() {
    let servers = vec!["redis://a".to_string(), "redis://b".to_string()];
    let attempt = Attempt::with_token(&servers, "job", 1_500, 0xff, 10);
    let requests = attempt.requests();
    assert_eq!(requests.len(), 2);
    assert_eq!(requests[0].server, "redis://a");
    assert_eq!(requests[1].server, "redis://b");
    for request in &requests {
        assert_eq!(request.key, "job");
        assert_eq!(request.value, "00000000-0000-0000-0000-0000000000ff");
        assert_eq!(request.ttl_ms, 1_500);
        assert_eq!(
            request.command(),
            vec!["SET", "job", "00000000-0000-0000-0000-0000000000ff", "nx", "px", "1500"]
        );
    }
}

#[test]
fn unlock_script_compares_before_it_deletes() {
    let words: Vec<&str> = UNLOCK_SCRIPT.split_whitespace().collect();
    assert_eq!(
        words,
        vec![
            "if",
            "redis.call('get',KEYS[1])",
            "==",
            "ARGV[1]",
            "then",
            "return",
            "redis.call('del',KEYS[1])",
            "else",
            "return",
            "0",
            "end"
        ]
    );
}

#[test]
fn only_a_stored_reply_counts() {
    assert!(SetReply::Stored.is_stored());
    assert!(!SetReply::Exists.is_stored());
    assert!(!SetReply::Unreachable.is_stored());
}

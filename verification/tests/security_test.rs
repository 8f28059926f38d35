use wikify_web::security::{
    client_ip_candidates, is_safe_path, is_valid_session_id, is_valid_url, sanitize_string,
    validate_repository_request, ClientIp, RateLimitConfig, RateLimitEntry, RateLimiter, SecurityHeaders,
    RATE_WINDOW, STALE_AFTER,
};

const SEC: u64 = 1_000_000_000;

fn ip(last: u128) -> ClientIp {
    ClientIp { is_v6: false, bits: 0x0a00_0000 + last }
}

#[test]
fn limiter_allows_up_to_the_limit_per_minute() {
    let config = RateLimitConfig { requests_per_minute: 3, burst_size: 1, cleanup_interval: 60 * SEC };
    let mut limiter = RateLimiter::new(config);
    let t0 = STALE_AFTER;
    assert!(limiter.check_rate_limit_at(ip(1), t0));
    assert!(limiter.check_rate_limit_at(ip(1), t0 + 1));
    assert!(limiter.check_rate_limit_at(ip(1), t0 + 2));
    assert!(!limiter.check_rate_limit_at(ip(1), t0 + 3));
    // another client is counted apart
    assert!(limiter.check_rate_limit_at(ip(2), t0 + 3));
    // a minute after the first request it is forgotten
    assert!(limiter.check_rate_limit_at(ip(1), t0 + RATE_WINDOW));
    assert!(limiter.check_rate_limit_at(ip(1), t0 + RATE_WINDOW + 1));
    assert!(!limiter.check_rate_limit_at(ip(1), t0 + RATE_WINDOW + 1));
}

#[test]
fn clock_driven_limiter() {
    let config = RateLimitConfig { requests_per_minute: 1, burst_size: 1, cleanup_interval: 60 * SEC };
    let mut limiter = RateLimiter::new(config);
    assert!(limiter.check_rate_limit(ip(9)));
    assert!(!limiter.check_rate_limit(ip(9)));
    limiter.cleanup_stale();
}

#[test]
fn stale_clients_are_forgotten() {
    let mut limiter = RateLimiter::new(RateLimitConfig::default());
    let t0 = STALE_AFTER;
    assert!(limiter.check_rate_limit_at(ip(1), t0));
    assert!(limiter.check_rate_limit_at(ip(2), t0 + 200 * SEC));
    limiter.cleanup_stale_at(t0 + STALE_AFTER);
    // client 1 was forgotten: its requests no longer count
    let strict = RateLimitConfig { requests_per_minute: 1, burst_size: 1, cleanup_interval: 0 };
    let mut l2 = RateLimiter::new(strict);
    assert!(l2.check_rate_limit_at(ip(1), t0));
    l2.cleanup_stale_at(t0 + STALE_AFTER);
    assert!(l2.check_rate_limit_at(ip(1), t0 + STALE_AFTER + 1));
}

#[test]
fn entry_keeps_recent_requests() {
    let mut e = RateLimitEntry::new(0);
    e.add_request(10);
    e.add_request(20);
    e.add_request(30);
    assert_eq!(e.request_count(), 3);
    e.cleanup_old_requests(15, 35);
    assert_eq!(e.requests, vec![30]);
    assert_eq!(e.last_request, 30);
}

#[test]
fn default_settings() {
    let c = RateLimitConfig::default();
    assert_eq!(c.requests_per_minute, 60);
    assert_eq!(c.burst_size, 10);
    let h = SecurityHeaders::default();
    assert_eq!(h.x_frame_options, Some("DENY".to_string()));
    assert!(h.x_content_type_options);
}

#[test]
fn url_and_session_validation() {
    assert!(is_valid_url("https://github.com/user/repo"));
    assert!(is_valid_url("http://example.org"));
    assert!(!is_valid_url("ftp://example.org"));
    assert!(!is_valid_url("https://localhost"));
    assert!(is_valid_session_id("123e4567-e89b-12d3-a456-426614174000"));
    assert!(!is_valid_session_id("123e4567e89b12d3a456426614174000"));
}

#[test]
fn sanitizing_and_paths() {
    assert_eq!(sanitize_string("Hello <b>World</b>!", 100), "Hello bWorldb!");
    assert_eq!(sanitize_string("abcdef", 3), "abc");
    assert!(is_safe_path("src/main.rs"));
    assert!(!is_safe_path("../etc/passwd"));
    assert!(!is_safe_path("/etc/passwd"));
}

#[test]
fn repository_request_validation() {
    assert!(validate_repository_request("https://github.com/a/b", &Some("github".to_string())).is_ok());
    assert!(validate_repository_request("./local/repo", &None).is_ok());
    let errors = validate_repository_request("", &Some("svn".to_string())).err().unwrap();
    assert_eq!(errors.len(), 2);
    assert_eq!(errors[0].field, "repository");
    assert_eq!(errors[0].message, "Repository cannot be empty");
    assert_eq!(errors[1].field, "repo_type");
    let errors = validate_repository_request("http://bad", &None).err().unwrap();
    assert_eq!(errors[0].message, "Invalid repository URL format");
    let errors = validate_repository_request("../x", &None).err().unwrap();
    assert_eq!(errors[0].message, "Invalid repository path");
}

#[test]
fn client_address_candidates() {
    assert_eq!(client_ip_candidates(Some(" 1.2.3.4 , 5.6.7.8"), Some("9.9.9.9")), vec!["1.2.3.4".to_string(), "9.9.9.9".to_string()]);
    assert_eq!(client_ip_candidates(None, None), Vec::<String>::new());
}

#[test]
fn sanitizing_twice_changes_nothing() {
    for (text, limit) in [("Hello <b>world</b>!", 8usize), ("a;b;c (d) [e] {f}", 100), ("日本語 ok?", 3), ("", 5)] {
        let once = sanitize_string(text, limit);
        assert_eq!(sanitize_string(&once, limit), once);
    }
    assert_eq!(sanitize_string("Hello <b>world</b>!", 8), "Hello bw");
}

#[test]
fn no_minute_allows_more_than_the_limit() {
    let config = RateLimitConfig { requests_per_minute: 4, burst_size: 1, cleanup_interval: 60 * SEC };
    let mut limiter = RateLimiter::new(config);
    let t0 = STALE_AFTER;
    let mut allowed_at: Vec<u64> = Vec::new();
    let mut t = t0;
    for step in 0..200u64 {
        t += (step % 7 + 1) * SEC;
        if limiter.check_rate_limit_at(ip(3), t) {
            allowed_at.push(t);
        }
        // checks of another client change nothing for this one
        limiter.check_rate_limit_at(ip(4), t);
    }
    assert!(allowed_at.len() > 4);
    for &end in &allowed_at {
        let in_window = allowed_at.iter().filter(|&&a| a + RATE_WINDOW > end && a <= end).count();
        assert!(in_window <= 4, "window ending at {} holds {}", end, in_window);
    }
}

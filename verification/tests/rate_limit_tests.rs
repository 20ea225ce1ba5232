use file_share::http::rate_limit_response;
use file_share::rate_limit::RateLimiter;

fn status_of_admission(limited: bool) -> u16 {
    if limited {
        rate_limit_response().0
    } else {
        200
    }
}

#[test]
fn test_rate_limiter() {
    // Room for two requests in a one-second window: the third rapid
    // request is turned away.
    let mut limiter = RateLimiter::new(2, 1000);

    let first = limiter.is_rate_limited_at("client", 0);
    assert_eq!(status_of_admission(first), 200);

    let second = limiter.is_rate_limited_at("client", 300);
    assert_eq!(status_of_admission(second), 200);

    let third = limiter.is_rate_limited_at("client", 600);
    assert_eq!(status_of_admission(third), 429);
}

#[test]
fn test_rate_limiter_window_elapses() {
    let mut limiter = RateLimiter::new(2, 1000);
    assert!(!limiter.is_rate_limited_at("c", 0));
    assert!(!limiter.is_rate_limited_at("c", 100));
    assert!(limiter.is_rate_limited_at("c", 200));

    // One second after the admitted stamps, the window has emptied.
    assert!(!limiter.is_rate_limited_at("c", 1_100));
}

#[test]
fn test_rate_limiter_edge_of_window() {
    let mut limiter = RateLimiter::new(1, 1000);
    assert!(!limiter.is_rate_limited_at("c", 0));
    // An age of 999 is still inside the window; an age of exactly 1000 is
    // out.
    assert!(limiter.is_rate_limited_at("c", 999));
    assert!(!limiter.is_rate_limited_at("c", 1_000));
}

#[test]
fn test_rate_limiter_keys_are_independent() {
    let mut limiter = RateLimiter::new(1, 60_000);
    assert!(!limiter.is_rate_limited_at("a", 0));
    assert!(!limiter.is_rate_limited_at("b", 1));
    assert!(limiter.is_rate_limited_at("a", 2));
    assert!(limiter.is_rate_limited_at("b", 3));
}

#[test]
fn test_rejected_request_not_recorded() {
    let mut limiter = RateLimiter::new(1, 1000);
    assert!(!limiter.is_rate_limited_at("c", 0));
    // Rejections at 500 and 900 record nothing, so once the admitted stamp
    // from time 0 ages out, the client is admitted again.
    assert!(limiter.is_rate_limited_at("c", 500));
    assert!(limiter.is_rate_limited_at("c", 900));
    assert!(!limiter.is_rate_limited_at("c", 1_050));
}

#[test]
fn test_rate_limiter_with_wall_clock() {
    let mut limiter = RateLimiter::new(2, 60_000);
    assert!(!limiter.is_rate_limited("client"));
    assert!(!limiter.is_rate_limited("client"));
    assert!(limiter.is_rate_limited("client"));
}

#[test]
fn test_rate_limit_response_body() {
    let (status, body) = rate_limit_response();
    assert_eq!(status, 429);
    assert_eq!(body, "Rate limit exceeded. Please try again later.");
}

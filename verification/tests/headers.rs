use http_pipeline::parse::extract_content_length;
use http_pipeline::parse::extract_user_agent;
use http_pipeline::pipeline::plan_request;
use http_pipeline::pipeline::Action;
use http_pipeline::response::BodyKind;
use http_pipeline::response::StatusCode;

#[test]
fn user_agent_body_is_the_header_value() {
    let buf = b"GET /user-agent HTTP/1.1\r\nHost: h\r\nUser-Agent: curl/7.64.1\r\n\r\n".to_vec();
    match plan_request(&buf) {
        Action::Deliver(r) => {
            assert_eq!(r.status, StatusCode::Okay);
            assert_eq!(r.kind, BodyKind::PlainText);
            assert_eq!(r.body, b"curl/7.64.1".to_vec());
        }
        _ => panic!("the user-agent page must be answered directly"),
    }
}

#[test]
fn missing_user_agent_falls_back() {
    let buf = b"GET /user-agent HTTP/1.1\r\nHost: h\r\n\r\n".to_vec();
    match plan_request(&buf) {
        Action::Deliver(r) => assert_eq!(r.body, b"Unknown User-Agent".to_vec()),
        _ => panic!("the user-agent page must be answered directly"),
    }
}

#[test]
fn user_agent_without_space_keeps_the_rest() {
    let buf = b"GET /user-agent HTTP/1.1\r\nUser-Agent:probe\r\n\r\n".to_vec();
    assert_eq!(extract_user_agent(&buf), b"probe".to_vec());
}

#[test]
fn user_agent_label_is_stripped_once() {
    let buf = b"GET /user-agent HTTP/1.1\r\nUser-Agent: User-Agent: twice\r\n\r\n".to_vec();
    assert_eq!(extract_user_agent(&buf), b"User-Agent: twice".to_vec());
}

#[test]
fn first_user_agent_line_wins() {
    let buf = b"GET /user-agent HTTP/1.1\r\nUser-Agent: one\r\nUser-Agent: two\r\n\r\n".to_vec();
    assert_eq!(extract_user_agent(&buf), b"one".to_vec());
}

#[test]
fn content_length_reads_the_number() {
    let buf = b"POST /files/a HTTP/1.1\r\nContent-Length: 42\r\n\r\n".to_vec();
    assert_eq!(extract_content_length(&buf), 42);
}

#[test]
fn content_length_allows_a_plus_sign() {
    let buf = b"POST /files/a HTTP/1.1\r\nContent-Length:  +7 \r\n\r\n".to_vec();
    assert_eq!(extract_content_length(&buf), 7);
}

#[test]
fn content_length_missing_reads_zero() {
    let buf = b"POST /files/a HTTP/1.1\r\nHost: h\r\n\r\n".to_vec();
    assert_eq!(extract_content_length(&buf), 0);
}

#[test]
fn content_length_garbage_reads_zero() {
    let buf = b"POST /files/a HTTP/1.1\r\nContent-Length: abc\r\n\r\n".to_vec();
    assert_eq!(extract_content_length(&buf), 0);
}

#[test]
fn content_length_empty_value_reads_zero() {
    let buf = b"POST /files/a HTTP/1.1\r\nContent-Length:\r\n\r\n".to_vec();
    assert_eq!(extract_content_length(&buf), 0);
}

#[test]
fn content_length_overflow_reads_zero() {
    let buf = b"POST /files/a HTTP/1.1\r\nContent-Length: 99999999999999999999999999\r\n\r\n"
        .to_vec();
    assert_eq!(extract_content_length(&buf), 0);
}

#[test]
fn content_length_at_the_limit_is_kept() {
    let buf = b"POST /files/a HTTP/1.1\r\nContent-Length: 18446744073709551615\r\n\r\n".to_vec();
    assert_eq!(extract_content_length(&buf), usize::MAX);
}

#[test]
fn content_length_just_past_the_limit_reads_zero() {
    let buf = b"POST /files/a HTTP/1.1\r\nContent-Length: 18446744073709551616\r\n\r\n".to_vec();
    assert_eq!(extract_content_length(&buf), 0);
}

#[test]
fn last_content_length_line_wins() {
    let buf = b"POST /files/a HTTP/1.1\r\nContent-Length: 5\r\nContent-Length: 9\r\n\r\n".to_vec();
    assert_eq!(extract_content_length(&buf), 9);
    let bad_last =
        b"POST /files/a HTTP/1.1\r\nContent-Length: 5\r\nContent-Length: x\r\n\r\n".to_vec();
    assert_eq!(extract_content_length(&bad_last), 0);
}

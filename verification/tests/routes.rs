use http_pipeline::pipeline::plan_request;
use http_pipeline::pipeline::Action;
use http_pipeline::response::serialize_response;
use http_pipeline::response::BodyKind;
use http_pipeline::response::StatusCode;

#[test]
fn echo_returns_the_suffix() {
    let buf = b"GET /echo/abc HTTP/1.1\r\nHost: h\r\n\r\n".to_vec();
    match plan_request(&buf) {
        Action::Deliver(r) => {
            assert_eq!(r.status, StatusCode::Okay);
            assert_eq!(r.kind, BodyKind::PlainText);
            assert_eq!(r.body, b"abc".to_vec());
        }
        _ => panic!("echo request must be answered directly"),
    }
}

#[test]
fn echo_empty_suffix_has_zero_length_body() {
    let buf = b"GET /echo/ HTTP/1.1\r\n\r\n".to_vec();
    match plan_request(&buf) {
        Action::Deliver(r) => {
            assert_eq!(r.status, StatusCode::Okay);
            assert_eq!(r.kind, BodyKind::PlainText);
            assert_eq!(r.body, Vec::<u8>::new());
            let wire = serialize_response(&r);
            assert_eq!(
                wire,
                b"HTTP/1.1 200 OK\r\nContent-Type: text/plain\r\nContent-Length: 0\r\n\r\n"
                    .to_vec()
            );
        }
        _ => panic!("echo request must be answered directly"),
    }
}

#[test]
fn echo_serializes_exactly() {
    let buf = b"GET /echo/hello HTTP/1.1\r\n\r\n".to_vec();
    match plan_request(&buf) {
        Action::Deliver(r) => {
            let wire = serialize_response(&r);
            assert_eq!(
                wire,
                b"HTTP/1.1 200 OK\r\nContent-Type: text/plain\r\nContent-Length: 5\r\n\r\nhello"
                    .to_vec()
            );
        }
        _ => panic!("echo request must be answered directly"),
    }
}

#[test]
fn root_is_a_bare_ok() {
    let buf = b"GET / HTTP/1.1\r\nHost: h\r\n\r\n".to_vec();
    match plan_request(&buf) {
        Action::Deliver(r) => {
            assert_eq!(r.status, StatusCode::Okay);
            assert_eq!(r.kind, BodyKind::Absent);
            assert_eq!(r.body, Vec::<u8>::new());
            assert_eq!(serialize_response(&r), b"HTTP/1.1 200 OK\r\n\r\n".to_vec());
        }
        _ => panic!("root request must be answered directly"),
    }
}

#[test]
fn unknown_path_is_not_found() {
    let buf = b"GET /nope HTTP/1.1\r\n\r\n".to_vec();
    match plan_request(&buf) {
        Action::Deliver(r) => {
            assert_eq!(r.status, StatusCode::NotFound);
            assert_eq!(r.body, Vec::<u8>::new());
            assert_eq!(serialize_response(&r), b"HTTP/1.1 404 Not Found\r\n\r\n".to_vec());
        }
        _ => panic!("unknown path must be answered directly"),
    }
}

#[test]
fn one_token_request_line_is_bad_request() {
    let buf = b"GET\r\nHost: h\r\n\r\n".to_vec();
    match plan_request(&buf) {
        Action::Deliver(r) => {
            assert_eq!(r.status, StatusCode::BadRequest);
            assert_eq!(r.body, Vec::<u8>::new());
            assert_eq!(serialize_response(&r), b"HTTP/1.1 400 Bad Request\r\n\r\n".to_vec());
        }
        _ => panic!("a malformed request line must be answered directly"),
    }
}

#[test]
fn empty_request_is_bad_request() {
    let buf = Vec::new();
    match plan_request(&buf) {
        Action::Deliver(r) => assert_eq!(r.status, StatusCode::BadRequest),
        _ => panic!("an empty request must be answered directly"),
    }
}

#[test]
fn other_methods_are_not_allowed() {
    for method in [&b"PUT"[..], b"DELETE", b"HEAD", b"get"] {
        let mut buf = method.to_vec();
        buf.extend_from_slice(b" /echo/x HTTP/1.1\r\n\r\n");
        match plan_request(&buf) {
            Action::Deliver(r) => {
                assert_eq!(r.status, StatusCode::MethodNotAllowed);
                assert_eq!(r.body, Vec::<u8>::new());
                assert_eq!(
                    serialize_response(&r),
                    b"HTTP/1.1 405 Method Not Allowed\r\n\r\n".to_vec()
                );
            }
            _ => panic!("an unknown method must be answered directly"),
        }
    }
}

#[test]
fn get_files_asks_for_a_read() {
    let buf = b"GET /files/notes.txt HTTP/1.1\r\n\r\n".to_vec();
    match plan_request(&buf) {
        Action::ReadFile(name) => assert_eq!(name, b"notes.txt".to_vec()),
        _ => panic!("a file download must ask for a read"),
    }
}

#[test]
fn post_outside_files_is_not_found() {
    let buf = b"POST /echo/x HTTP/1.1\r\nContent-Length: 1\r\n\r\nA".to_vec();
    match plan_request(&buf) {
        Action::Deliver(r) => assert_eq!(r.status, StatusCode::NotFound),
        _ => panic!("a POST outside /files/ must be answered directly"),
    }
}

#[test]
fn each_connection_gets_its_own_echo() {
    for i in 0..8 {
        let buf = format!("GET /echo/{} HTTP/1.1\r\n\r\n", i).into_bytes();
        match plan_request(&buf) {
            Action::Deliver(r) => assert_eq!(r.body, format!("{}", i).into_bytes()),
            _ => panic!("echo request must be answered directly"),
        }
    }
}

use http_pipeline::parse::truncate_body;
use http_pipeline::pipeline::file_get_response;
use http_pipeline::pipeline::file_post_response;
use http_pipeline::pipeline::plan_request;
use http_pipeline::pipeline::Action;
use http_pipeline::response::serialize_response;
use http_pipeline::response::BodyKind;
use http_pipeline::response::StatusCode;

#[test]
fn post_then_get_round_trips_text() {
    let mut buf = b"POST /files/notes.txt HTTP/1.1\r\nContent-Length: 5\r\n\r\nhello".to_vec();
    buf.resize(1024, 0);
    let stored = match plan_request(&buf) {
        Action::WriteFile(name, data) => {
            assert_eq!(name, b"notes.txt".to_vec());
            assert_eq!(data, b"hello".to_vec());
            data
        }
        _ => panic!("a file upload must ask for a write"),
    };
    let r = file_get_response(Some(stored));
    assert_eq!(r.status, StatusCode::Okay);
    assert_eq!(r.kind, BodyKind::OctetStream);
    assert_eq!(r.body, b"hello".to_vec());
    assert_eq!(
        serialize_response(&r),
        b"HTTP/1.1 200 OK\r\nContent-Type: application/octet-stream\r\nContent-Length: 5\r\n\r\nhello"
            .to_vec()
    );
}

#[test]
fn post_then_get_round_trips_binary() {
    let payload = [0xffu8, 0x00, 0x10, 0x80, 0x7f];
    let mut buf = b"POST /files/blob HTTP/1.1\r\nContent-Length: 5\r\n\r\n".to_vec();
    buf.extend_from_slice(&payload);
    buf.resize(1024, 0);
    let stored = match plan_request(&buf) {
        Action::WriteFile(_, data) => {
            assert_eq!(data, payload.to_vec());
            data
        }
        _ => panic!("a file upload must ask for a write"),
    };
    let r = file_get_response(Some(stored));
    assert_eq!(r.body, payload.to_vec());
}

#[test]
fn upload_short_of_its_length_closes() {
    let buf = b"POST /files/a HTTP/1.1\r\nContent-Length: 10\r\n\r\nabc".to_vec();
    match plan_request(&buf) {
        Action::Close => {}
        _ => panic!("an upload short of its declared length must drop the connection"),
    }
}

#[test]
fn missing_file_is_not_found() {
    let r = file_get_response(None);
    assert_eq!(r.status, StatusCode::NotFound);
    assert_eq!(r.kind, BodyKind::Absent);
    assert_eq!(r.body, Vec::<u8>::new());
    assert_eq!(serialize_response(&r), b"HTTP/1.1 404 Not Found\r\n\r\n".to_vec());
}

#[test]
fn write_outcomes_map_to_created_or_error() {
    let created = file_post_response(true);
    assert_eq!(created.status, StatusCode::Created);
    assert_eq!(serialize_response(&created), b"HTTP/1.1 201 Created\r\n\r\n".to_vec());
    let failed = file_post_response(false);
    assert_eq!(failed.status, StatusCode::ServerError);
    assert_eq!(
        serialize_response(&failed),
        b"HTTP/1.1 500 Internal Server Error\r\n\r\n".to_vec()
    );
}

#[test]
fn truncate_trims_read_padding() {
    let body = b"ab\0\0\0".to_vec();
    assert_eq!(truncate_body(&body, 2), Some(b"ab".to_vec()));
    assert_eq!(truncate_body(&body, 0), Some(Vec::new()));
}

#[test]
fn truncate_refuses_a_length_past_the_data() {
    let body = b"ab\0\0\0".to_vec();
    assert_eq!(truncate_body(&body, 3), None);
    assert_eq!(truncate_body(&body, 5), None);
}

#[test]
fn trailing_nul_data_is_cut_with_the_padding() {
    let body = b"ab\0\0\0".to_vec();
    assert_eq!(truncate_body(&body, 4), None);
}

#[test]
fn body_without_blank_line_starts_at_the_buffer() {
    let buf = b"POST /files/x HTTP/1.1\nContent-Length: 4\nABCD".to_vec();
    match plan_request(&buf) {
        Action::WriteFile(name, data) => {
            assert_eq!(name, b"x".to_vec());
            assert_eq!(data, b"POST".to_vec());
        }
        _ => panic!("a file upload must ask for a write"),
    }
}

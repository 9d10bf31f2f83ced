use api_supervisor::http::{is_success_status, probe_is_success, status_code};

#[test]
fn parses_ok_status_line() {
    assert_eq!(status_code(b"HTTP/1.1 200 OK\r\n"), Some(200));
    assert_eq!(status_code(b"HTTP/1.0 204 No Content\r\n"), Some(204));
    assert_eq!(status_code(b"HTTP/1.1 404 Not Found\r\n"), Some(404));
    assert_eq!(status_code(b"HTTP/1.1 500 Internal Server Error\r\n"), Some(500));
}

#[test]
fn parses_bare_status_line() {
    // The code may end the line: at the end of input or before CR.
    assert_eq!(status_code(b"HTTP/1.1 200"), Some(200));
    assert_eq!(status_code(b"HTTP/1.1 200\r\n"), Some(200));
}

#[test]
fn rejects_non_http_answers() {
    assert_eq!(status_code(b""), None);
    assert_eq!(status_code(b"hello"), None);
    assert_eq!(status_code(b"HTTP/"), None);
    assert_eq!(status_code(b"HTTP/1.1"), None);
    assert_eq!(status_code(b"HTTP/1.1 20"), None);
    assert_eq!(status_code(b"HTTP/1.1 2x0 OK"), None);
    assert_eq!(status_code(b"SMTP 220 ready"), None);
}

#[test]
fn success_is_exactly_2xx() {
    assert!(!is_success_status(199));
    assert!(is_success_status(200));
    assert!(is_success_status(204));
    assert!(is_success_status(299));
    assert!(!is_success_status(300));
    assert!(!is_success_status(404));
    assert!(!is_success_status(0));
}

#[test]
fn probe_success_classification() {
    assert!(probe_is_success(b"HTTP/1.1 200 OK\r\nContent-Length: 2\r\n\r\nok"));
    assert!(probe_is_success(b"HTTP/1.1 204 No Content\r\n"));
    assert!(!probe_is_success(b"HTTP/1.1 503 Service Unavailable\r\n"));
    assert!(!probe_is_success(b"HTTP/1.1 301 Moved Permanently\r\n"));
    assert!(!probe_is_success(b"garbage"));
    assert!(!probe_is_success(b""));
}

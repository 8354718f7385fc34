use rust_playground::http::{request_head, response, RequestHead};

fn owned(lines: &[&str]) -> Vec<String> {
    lines.iter().map(|s| s.to_string()).collect()
}

#[test]
fn head_stops_at_the_first_empty_line() {
    let lines = owned(&["GET / HTTP/1.1", "Host: localhost:10001", "", "body", ""]);
    assert_eq!(request_head(lines), owned(&["GET / HTTP/1.1", "Host: localhost:10001"]));
}

#[test]
fn head_without_empty_line_keeps_everything() {
    let lines = owned(&["GET / HTTP/1.1", "Accept: */*"]);
    assert_eq!(request_head(lines.clone()), lines);
    assert_eq!(request_head(vec![]), Vec::<String>::new());
    assert_eq!(request_head(owned(&["", "GET / HTTP/1.1"])), Vec::<String>::new());
}

#[test]
fn push_line_reports_when_the_head_is_done() {
    let mut h = RequestHead::new();
    assert!(!h.is_complete());
    assert!(h.push_line("GET / HTTP/1.1".to_string()));
    assert!(h.push_line("Host: x".to_string()));
    assert!(!h.push_line(String::new()));
    assert!(h.is_complete());
    assert!(!h.push_line("ignored".to_string()));
    assert_eq!(h.lines(), &owned(&["GET / HTTP/1.1", "Host: x"]));
}

#[test]
fn response_is_bare_ok() {
    assert_eq!(response(), "HTTP/1.1 200 OK\r\n\r\n");
    assert_eq!(response().as_bytes(), b"HTTP/1.1 200 OK\r\n\r\n");
}

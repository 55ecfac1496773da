use scram_hpc_rs::errors::ErrorKind;
use scram_hpc_rs::fetch::FetchMode;
use scram_hpc_rs::fetch::FetchRequest;
use scram_hpc_rs::fetch::FetchResult;
use scram_hpc_rs::headers::check_header_name;
use scram_hpc_rs::headers::check_header_value;
use scram_hpc_rs::headers::validate_headers;

fn pair(name: &str, value: &str) -> (String, String) {
    (String::from(name), String::from(value))
}

#[test]
fn header_name_rules() {
    assert!(check_header_name("content-type"));
    assert!(check_header_name("Content-Type"));
    assert!(check_header_name("x-token~1"));
    assert!(!check_header_name(""));
    assert!(!check_header_name("bad name"));
    assert!(!check_header_name("colon:name"));
    assert!(!check_header_name("line\nbreak"));
}

#[test]
fn header_value_rules() {
    assert!(check_header_value(""));
    assert!(check_header_value("text/html; charset=utf-8"));
    assert!(check_header_value("with\ttab"));
    assert!(check_header_value("caf\u{e9}"));
    assert!(!check_header_value("bad\nvalue"));
    assert!(!check_header_value("bad\rvalue"));
    assert!(!check_header_value("del\u{7f}"));
}

#[test]
fn malformed_header_rejected_without_send() {
    // A malformed value fails with InvalidHeader before any request value
    // exists, so nothing can be sent on its behalf.
    let headers = vec![pair("X-Bad", "a\nb")];
    let r = validate_headers(&headers);
    assert_eq!(r.unwrap_err().kind(), ErrorKind::InvalidHeader);

    let r = FetchRequest::direct(String::from("http://x.test/"), vec![pair("X-Bad", "a\nb")]);
    match r {
        Ok(_) => panic!("malformed header accepted"),
        Err(e) => {
            assert_eq!(e.kind(), ErrorKind::InvalidHeader);
            assert!(e.message().contains("X-Bad"));
        }
    }
}

#[test]
fn malformed_header_name_rejected() {
    let r = FetchRequest::direct(String::from("http://x.test/"), vec![pair("bad name", "v")]);
    assert_eq!(r.unwrap_err().kind(), ErrorKind::InvalidHeader);
}

#[test]
fn direct_request_keeps_its_parts() {
    let headers = vec![pair("Accept", "text/html"), pair("X-Token", "abc123")];
    let req = FetchRequest::direct(String::from("http://x.test/page"), headers.clone()).unwrap();
    assert_eq!(req.url, "http://x.test/page");
    assert_eq!(req.headers, headers);
    assert_eq!(req.mode, FetchMode::Direct);
}

#[test]
fn empty_url_rejected_as_transport() {
    let r = FetchRequest::direct(String::new(), Vec::new());
    assert_eq!(r.unwrap_err().kind(), ErrorKind::Transport);
}

#[test]
fn rendered_request_has_no_headers() {
    let req = FetchRequest::rendered(String::from("http://x.test/")).unwrap();
    assert_eq!(req.mode, FetchMode::Rendered);
    assert!(req.headers.is_empty());

    let r = FetchRequest::rendered(String::new());
    assert_eq!(r.unwrap_err().kind(), ErrorKind::Navigation);
}

#[test]
fn transport_status_is_three_digit() {
    // Whatever a parsed response reports stays in the three-digit range.
    for status in [100u16, 200, 404, 599, 999] {
        let res =
            FetchResult::from_transport(status, None, Vec::new(), String::from("x")).unwrap();
        assert_eq!(res.status, status);
        assert!((100..=999).contains(&res.status));
    }
    let r = FetchResult::from_transport(42, None, Vec::new(), String::new());
    assert_eq!(r.unwrap_err().kind(), ErrorKind::Transport);
}

#[test]
fn mock_backend_not_found() {
    // A mock backend answers 404 with body "not found" for
    // http://x.test/missing; the direct path reports exactly that, with no
    // error raised.
    let req = FetchRequest::direct(String::from("http://x.test/missing"), Vec::new()).unwrap();
    assert_eq!(req.url, "http://x.test/missing");

    let backend_headers = vec![pair("content-type", "text/plain")];
    let res = FetchResult::from_transport(
        404,
        Some(9),
        backend_headers.clone(),
        String::from("not found"),
    )
    .unwrap();
    assert_eq!(res.body, "not found");
    assert_eq!(res.status, 404);
    assert_eq!(res.content_length, Some(9));
    assert_eq!(res.headers, backend_headers);
    assert!(res.screenshot.is_none());
}

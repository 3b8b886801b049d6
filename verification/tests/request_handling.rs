use multithread_server::request_manager::{HttpRequest, HttpResponse, RequestManager, Route};

fn request(method: &str, path: &str, version: &str) -> HttpRequest {
    HttpRequest {
        method: method.to_string(),
        path: path.to_string(),
        version: version.to_string(),
    }
}

fn route_of(method: &str, path: &str) -> Route {
    RequestManager::generate_response(&request(method, path, "HTTP/1.1"))
}

fn wire(response: &HttpResponse) -> String {
    String::from_utf8(RequestManager::response_bytes(response)).unwrap()
}

#[test]
fn parses_request_line_fields() {
    let r = RequestManager::parse_request(b"GET / HTTP/1.1\r\nHost: localhost\r\n\r\n").unwrap();
    assert_eq!(r.method, "GET");
    assert_eq!(r.path, "/");
    assert_eq!(r.version, "HTTP/1.1");
}

#[test]
fn parses_version_without_trailing_line() {
    let r = RequestManager::parse_request_text("POST /form HTTP/1.0");
    assert_eq!(r.method, "POST");
    assert_eq!(r.path, "/form");
    assert_eq!(r.version, "HTTP/1.0");
}

#[test]
fn parses_invalid_method() {
    let r = RequestManager::parse_request(b"INVALID / HTTP/1.1\r\nHost: localhost\r\n\r\n").unwrap();
    assert_eq!(r.method, "INVALID");
    assert_eq!(r.path, "/");
    assert_eq!(r.version, "HTTP/1.1");
}

#[test]
fn plain_text_is_a_message() {
    let r = RequestManager::parse_request(b"Hello, Server!").unwrap();
    assert_eq!(r.method, "MESSAGE");
    assert_eq!(r.path, "Hello, Server!");
    assert_eq!(r.version, "MESSAGE");
}

#[test]
fn lowercase_method_is_a_message() {
    let r = RequestManager::parse_request(b"get / HTTP/1.1").unwrap();
    assert_eq!(r.method, "MESSAGE");
    assert_eq!(r.path, "get / HTTP/1.1");
}

#[test]
fn empty_read_is_an_empty_message() {
    let r = RequestManager::parse_request(b"").unwrap();
    assert_eq!(r.method, "MESSAGE");
    assert_eq!(r.path, "");
}

#[test]
fn method_without_path_or_version_has_no_request_line() {
    assert!(RequestManager::parse_request(b"GET").is_none());
    assert!(RequestManager::parse_request(b"GET /index.html").is_none());
    assert!(RequestManager::parse_request(b"DELETE x").is_none());
}

#[test]
fn invalid_utf8_is_replaced_in_message() {
    let r = RequestManager::parse_request(&[0xff, b'a', b' ', b'b']).unwrap();
    assert_eq!(r.method, "MESSAGE");
    assert_eq!(r.path, "\u{FFFD}a b");
}

#[test]
fn root_routes_to_index() {
    match route_of("GET", "/") {
        Route::ServeFile { filepath, content_type } => {
            assert_eq!(filepath, "static/index.html");
            assert_eq!(content_type, "text/html");
        }
        _ => panic!("expected the index page"),
    }
}

#[test]
fn static_suffixes_route_to_files() {
    let cases = [
        ("/page.html", "static/page.html", "text/html", false),
        ("/style.css", "static/style.css", "text/css", false),
        ("/app.js", "static/app.js", "application/javascript", false),
        ("/logo.png", "static/logo.png", "image/png", true),
        ("/photo.jpg", "static/photo.jpg", "image/jpeg", true),
    ];
    for (path, file, kind, image) in cases {
        match (route_of("GET", path), image) {
            (Route::ServeFile { filepath, content_type }, false)
            | (Route::ServeImage { filepath, content_type }, true) => {
                assert_eq!(filepath, file);
                assert_eq!(content_type, kind);
            }
            _ => panic!("unexpected route for {}", path),
        }
    }
}

#[test]
fn other_requests_route_to_404() {
    assert!(matches!(route_of("GET", "/notes.txt"), Route::NotFound));
    assert!(matches!(route_of("POST", "/page.html"), Route::NotFound));
    assert!(matches!(route_of("PUT", "/"), Route::NotFound));
    assert!(matches!(route_of("DELETE", "/x.css"), Route::NotFound));
}

#[test]
fn invalid_routes_to_400() {
    assert!(matches!(route_of("INVALID", "/"), Route::BadRequest));
}

#[test]
fn message_routes_to_echo() {
    match route_of("MESSAGE", "Hello") {
        Route::Ready(r) => {
            assert_eq!(r.status_line, "MESSAGE");
            assert_eq!(r.content_type, "MESSAGE");
            assert_eq!(r.content, "Hello");
        }
        _ => panic!("expected an echo"),
    }
}

#[test]
fn echo_returns_the_same_bytes() {
    for text in ["Message 1", "Hello, Server!", "Request number 3\n", "héllo wörld", ""] {
        let r = RequestManager::parse_request(text.as_bytes()).unwrap();
        let route = RequestManager::generate_response(&r);
        let response = match route {
            Route::Ready(response) => response,
            _ => panic!("expected an echo"),
        };
        assert_eq!(RequestManager::response_bytes(&response), text.as_bytes().to_vec());
    }
}

#[test]
fn invalid_request_is_answered_400() {
    let r = RequestManager::parse_request(b"INVALID / HTTP/1.1\r\nHost: localhost\r\n\r\n").unwrap();
    assert!(matches!(RequestManager::generate_response(&r), Route::BadRequest));
    let out = wire(&RequestManager::serve_400(None));
    assert!(out.contains("HTTP/1.1 400 Bad Request"));
    assert_eq!(
        out,
        "HTTP/1.1 400 Bad Request\r\nContent-Type: text/html\r\nContent-Length: 26\r\n\r\n<h1>400 - Bad Request</h1>"
    );
}

#[test]
fn bad_request_uses_page_when_read() {
    let r = RequestManager::serve_400(Some("<p>bad</p>".to_string()));
    assert_eq!(r.status_line, "HTTP/1.1 400 Bad Request");
    assert_eq!(r.content, "<p>bad</p>");
}

#[test]
fn not_found_default_and_page() {
    let r = RequestManager::serve_404(None);
    assert_eq!(r.status_line, "HTTP/1.1 404 NOT FOUND");
    assert_eq!(r.content_type, "text/html");
    assert_eq!(r.content, "<h1>404 - Page Not Found</h1>");
    let r = RequestManager::serve_404(Some("missing".to_string()));
    assert_eq!(r.content, "missing");
}

#[test]
fn ok_response_is_written_with_length() {
    let r = RequestManager::serve_file("text/html", Some("hello".to_string()), None);
    assert_eq!(
        wire(&r),
        "HTTP/1.1 200 OK\r\nContent-Type: text/html\r\nContent-Length: 5\r\n\r\nhello"
    );
}

#[test]
fn content_length_counts_bytes_not_chars() {
    let r = RequestManager::ok_response("text/plain", "é€".to_string());
    assert_eq!(
        wire(&r),
        "HTTP/1.1 200 OK\r\nContent-Type: text/plain\r\nContent-Length: 5\r\n\r\né€"
    );
}

#[test]
fn content_length_of_longer_body() {
    let body = "x".repeat(1234);
    let r = RequestManager::ok_response("text/plain", body.clone());
    let expected = format!(
        "HTTP/1.1 200 OK\r\nContent-Type: text/plain\r\nContent-Length: 1234\r\n\r\n{}",
        body
    );
    assert_eq!(wire(&r), expected);
}

#[test]
fn content_length_of_empty_body() {
    let r = RequestManager::ok_response("text/css", String::new());
    assert_eq!(
        wire(&r),
        "HTTP/1.1 200 OK\r\nContent-Type: text/css\r\nContent-Length: 0\r\n\r\n"
    );
}

#[test]
fn missing_file_is_served_404() {
    let r = RequestManager::serve_file("text/css", None, Some("<h1>gone</h1>".to_string()));
    assert_eq!(r.status_line, "HTTP/1.1 404 NOT FOUND");
    assert_eq!(r.content_type, "text/html");
    assert_eq!(r.content, "<h1>gone</h1>");
}

#[test]
fn image_is_base64_encoded() {
    let r = RequestManager::serve_image("image/png", Some(b"hello".to_vec()), None);
    assert_eq!(r.status_line, "HTTP/1.1 200 OK");
    assert_eq!(r.content_type, "image/png");
    assert_eq!(r.content, "aGVsbG8=");
    let r = RequestManager::serve_image("image/jpeg", Some(vec![0xff, 0xec, 0x20, 0x55, 0]), None);
    assert_eq!(r.content, "/+wgVQA=");
}

#[test]
fn missing_image_is_served_404() {
    let r = RequestManager::serve_image("image/png", None, None);
    assert_eq!(r.status_line, "HTTP/1.1 404 NOT FOUND");
    assert_eq!(r.content, "<h1>404 - Page Not Found</h1>");
}

#[test]
fn serve_message_echoes_text() {
    let r = RequestManager::serve_message("ping");
    assert_eq!(r.status_line, "MESSAGE");
    assert_eq!(wire(&r), "ping");
}

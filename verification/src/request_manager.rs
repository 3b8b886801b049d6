//! Parsing a client's request, choosing the response, and writing it out.
//!
//! The server reads at most one buffer from a connection. If its text does
//! not start with one of the HTTP methods it knows, the text is echoed back
//! unchanged; otherwise the request line is split into method, path and
//! version and routed to a static file, an image, a 400 or a 404 page.
use vstd::prelude::*;
use vstd::utf8::*;
use crate::codec::{base64_encode, base64_fits, base64_standard, decode_lossy, utf8_lossy};
use crate::text::{
    append_bytes, before_crlf, decimal, decimal_bytes, ends_with, lemma_split_on_nonempty, same_text,
    split_on, split_text, text_before_crlf, text_ends_with,
};

verus! {

/// A request line: method, path and protocol version.
pub struct HttpRequest {
    pub method: String,
    pub path: String,
    pub version: String,
}

/// What a request holds, as character sequences.
pub struct RequestModel {
    pub method: Seq<char>,
    pub path: Seq<char>,
    pub version: Seq<char>,
}

impl View for HttpRequest {
    type V = RequestModel;

    open spec fn view(&self) -> RequestModel {
        RequestModel { method: self.method@, path: self.path@, version: self.version@ }
    }
}

/// A response before it is written out.
pub struct HttpResponse {
    pub status_line: String,
    pub content_type: String,
    pub content: String,
}

/// What a response holds, as character sequences.
pub struct ResponseModel {
    pub status_line: Seq<char>,
    pub content_type: Seq<char>,
    pub content: Seq<char>,
}

impl View for HttpResponse {
    type V = ResponseModel;

    open spec fn view(&self) -> ResponseModel {
        ResponseModel {
            status_line: self.status_line@,
            content_type: self.content_type@,
            content: self.content@,
        }
    }
}

/// Where a request is routed: a response that needs nothing more, a file or
/// an image to serve from disk, or an error page.
pub enum Route {
    Ready(HttpResponse),
    ServeFile { filepath: String, content_type: String },
    ServeImage { filepath: String, content_type: String },
    BadRequest,
    NotFound,
}

/// A route, as character sequences.
pub enum RouteModel {
    Ready(ResponseModel),
    ServeFile { filepath: Seq<char>, content_type: Seq<char> },
    ServeImage { filepath: Seq<char>, content_type: Seq<char> },
    BadRequest,
    NotFound,
}

impl View for Route {
    type V = RouteModel;

    open spec fn view(&self) -> RouteModel {
        match self {
            Route::Ready(r) => RouteModel::Ready(r@),
            Route::ServeFile { filepath, content_type } => RouteModel::ServeFile {
                filepath: filepath@,
                content_type: content_type@,
            },
            Route::ServeImage { filepath, content_type } => RouteModel::ServeImage {
                filepath: filepath@,
                content_type: content_type@,
            },
            Route::BadRequest => RouteModel::BadRequest,
            Route::NotFound => RouteModel::NotFound,
        }
    }
}

/// The methods that make a text an HTTP request.
pub open spec fn is_http_method(m: Seq<char>) -> bool {
    ||| m == "GET"@
    ||| m == "POST"@
    ||| m == "PUT"@
    ||| m == "DELETE"@
    ||| m == "INVALID"@
}

/// The space-separated pieces of a request text.
pub open spec fn request_parts(text: Seq<char>) -> Seq<Seq<char>> {
    split_on(text, ' ')
}

/// A request text can be parsed: either it does not start with a method, or
/// it has at least a method, a path and a version. (On the other texts,
/// which name a method but stop short, the request line cannot be split.)
pub open spec fn parsable(text: Seq<char>) -> bool {
    is_http_method(request_parts(text)[0]) ==> request_parts(text).len() >= 3
}

/// The request that a text parses to. A text that does not start with a
/// method is a plain message: its whole text becomes the path.
pub open spec fn parse_spec(text: Seq<char>) -> RequestModel {
    let parts = request_parts(text);
    if !is_http_method(parts[0]) {
        RequestModel { method: "MESSAGE"@, path: text, version: "MESSAGE"@ }
    } else {
        RequestModel { method: parts[0], path: parts[1], version: before_crlf(parts[2]) }
    }
}

/// The response that echoes a message back.
pub open spec fn message_response(message: Seq<char>) -> ResponseModel {
    ResponseModel { status_line: "MESSAGE"@, content_type: "MESSAGE"@, content: message }
}

/// A 200 response with the given content.
pub open spec fn ok_response_spec(content_type: Seq<char>, content: Seq<char>) -> ResponseModel {
    ResponseModel { status_line: "HTTP/1.1 200 OK"@, content_type, content }
}

/// The 404 response: the 404 page if it could be read, else a short default.
pub open spec fn not_found_response(page: Option<Seq<char>>) -> ResponseModel {
    ResponseModel {
        status_line: "HTTP/1.1 404 NOT FOUND"@,
        content_type: "text/html"@,
        content: match page {
            Some(p) => p,
            None => "<h1>404 - Page Not Found</h1>"@,
        },
    }
}

/// The 400 response: the 400 page if it could be read, else a short default.
pub open spec fn bad_request_response(page: Option<Seq<char>>) -> ResponseModel {
    ResponseModel {
        status_line: "HTTP/1.1 400 Bad Request"@,
        content_type: "text/html"@,
        content: match page {
            Some(p) => p,
            None => "<h1>400 - Bad Request</h1>"@,
        },
    }
}

/// The route of a request: the first rule that matches, in this order.
pub open spec fn route_spec(r: RequestModel) -> RouteModel {
    let get = r.method == "GET"@;
    if get && r.path == "/"@ {
        RouteModel::ServeFile { filepath: "static/index.html"@, content_type: "text/html"@ }
    } else if get && ends_with(r.path, ".html"@) {
        RouteModel::ServeFile { filepath: "static"@ + r.path, content_type: "text/html"@ }
    } else if get && ends_with(r.path, ".css"@) {
        RouteModel::ServeFile { filepath: "static"@ + r.path, content_type: "text/css"@ }
    } else if get && ends_with(r.path, ".js"@) {
        RouteModel::ServeFile {
            filepath: "static"@ + r.path,
            content_type: "application/javascript"@,
        }
    } else if get && ends_with(r.path, ".png"@) {
        RouteModel::ServeImage { filepath: "static"@ + r.path, content_type: "image/png"@ }
    } else if get && ends_with(r.path, ".jpg"@) {
        RouteModel::ServeImage { filepath: "static"@ + r.path, content_type: "image/jpeg"@ }
    } else if r.method == "MESSAGE"@ {
        RouteModel::Ready(message_response(r.path))
    } else if r.method == "INVALID"@ {
        RouteModel::BadRequest
    } else {
        RouteModel::NotFound
    }
}

/// The bytes written to the client for a response. A message goes back as
/// its bare text; any other response gets a status line, a content type and
/// a content length (in bytes) before its body.
pub open spec fn wire_bytes(r: ResponseModel) -> Seq<u8> {
    if r.status_line == "MESSAGE"@ {
        encode_utf8(r.content)
    } else {
        encode_utf8(r.status_line) + encode_utf8("\r\nContent-Type: "@) + encode_utf8(r.content_type)
            + encode_utf8("\r\nContent-Length: "@) + decimal(encode_utf8(r.content).len())
            + encode_utf8("\r\n\r\n"@) + encode_utf8(r.content)
    }
}

/// Handles HTTP requests: parses them, chooses the response and writes it.
pub struct RequestManager {}

impl RequestManager {
    /// Whether `m` is one of the methods that make a text a request.
    fn is_method(m: &str) -> (b: bool)
        ensures
            b == is_http_method(m@),
    {
        same_text(m, "GET") || same_text(m, "POST") || same_text(m, "PUT") || same_text(
            m,
            "DELETE",
        ) || same_text(m, "INVALID")
    }

    /// Parses the text of a request.
    pub fn parse_request_text(text: &str) -> (request: HttpRequest)
        requires
            parsable(text@),
        ensures
            request@ == parse_spec(text@),
    {
        let parts = split_text(text, ' ');
        proof {
            lemma_split_on_nonempty(text@, ' ');
            assert(parts@.map_values(|p: String| p@)[0] == parts@[0]@);
        }
        if !Self::is_method(parts[0].as_str()) {
            return HttpRequest {
                method: "MESSAGE".to_owned(),
                path: text.to_owned(),
                version: "MESSAGE".to_owned(),
            };
        }
        proof {
            assert(parts@.map_values(|p: String| p@)[1] == parts@[1]@);
            assert(parts@.map_values(|p: String| p@)[2] == parts@[2]@);
        }
        let version = text_before_crlf(parts[2].as_str());
        HttpRequest { method: parts[0].clone(), path: parts[1].clone(), version }
    }

    /// Parses the bytes read from a client. `None` when the text names a
    /// method but lacks a path or a version, where no request line can be
    /// taken from it.
    pub fn parse_request(buffer: &[u8]) -> (request: Option<HttpRequest>)
        ensures
            request is Some <==> parsable(utf8_lossy(buffer@)),
            request matches Some(r) ==> r@ == parse_spec(utf8_lossy(buffer@)),
            valid_utf8(buffer@) ==> utf8_lossy(buffer@) == decode_utf8(buffer@),
    {
        let text = decode_lossy(buffer);
        let parts = split_text(text.as_str(), ' ');
        proof {
            lemma_split_on_nonempty(text@, ' ');
            assert(parts@.map_values(|p: String| p@)[0] == parts@[0]@);
        }
        if Self::is_method(parts[0].as_str()) && parts.len() < 3 {
            return None;
        }
        Some(Self::parse_request_text(text.as_str()))
    }

    /// Chooses the response to a request.
    pub fn generate_response(request: &HttpRequest) -> (route: Route)
        ensures
            route@ == route_spec(request@),
    {
        let m = request.method.as_str();
        let p = request.path.as_str();
        let get = same_text(m, "GET");
        if get && same_text(p, "/") {
            return Route::ServeFile {
                filepath: "static/index.html".to_owned(),
                content_type: "text/html".to_owned(),
            };
        }
        if get && text_ends_with(p, ".html") {
            return Route::ServeFile {
                filepath: "static".to_owned().concat(p),
                content_type: "text/html".to_owned(),
            };
        }
        if get && text_ends_with(p, ".css") {
            return Route::ServeFile {
                filepath: "static".to_owned().concat(p),
                content_type: "text/css".to_owned(),
            };
        }
        if get && text_ends_with(p, ".js") {
            return Route::ServeFile {
                filepath: "static".to_owned().concat(p),
                content_type: "application/javascript".to_owned(),
            };
        }
        if get && text_ends_with(p, ".png") {
            return Route::ServeImage {
                filepath: "static".to_owned().concat(p),
                content_type: "image/png".to_owned(),
            };
        }
        if get && text_ends_with(p, ".jpg") {
            return Route::ServeImage {
                filepath: "static".to_owned().concat(p),
                content_type: "image/jpeg".to_owned(),
            };
        }
        if same_text(m, "MESSAGE") {
            return Route::Ready(Self::serve_message(p));
        }
        if same_text(m, "INVALID") {
            return Route::BadRequest;
        }
        Route::NotFound
    }

    /// The response that echoes a message back.
    pub fn serve_message(message: &str) -> (response: HttpResponse)
        ensures
            response@ == message_response(message@),
    {
        HttpResponse {
            status_line: "MESSAGE".to_owned(),
            content_type: "MESSAGE".to_owned(),
            content: message.to_owned(),
        }
    }

    /// A 200 response with the given content type and content.
    pub fn ok_response(content_type: &str, content: String) -> (response: HttpResponse)
        ensures
            response@ == ok_response_spec(content_type@, content@),
    {
        HttpResponse {
            status_line: "HTTP/1.1 200 OK".to_owned(),
            content_type: content_type.to_owned(),
            content,
        }
    }

    /// Serves a text file: its content if it exists (`Some`), else the 404
    /// response built from the 404 page.
    pub fn serve_file(
        content_type: &str,
        content: Option<String>,
        not_found_page: Option<String>,
    ) -> (response: HttpResponse)
        ensures
            response@ == match content {
                Some(c) => ok_response_spec(content_type@, c@),
                None => not_found_response(not_found_page.deep_view()),
            },
    {
        match content {
            Some(c) => Self::ok_response(content_type, c),
            None => Self::serve_404(not_found_page),
        }
    }

    /// Serves an image: its bytes, Base64-encoded, if it exists (`Some`),
    /// else the 404 response built from the 404 page.
    pub fn serve_image(
        content_type: &str,
        content: Option<Vec<u8>>,
        not_found_page: Option<String>,
    ) -> (response: HttpResponse)
        requires
            content matches Some(b) ==> base64_fits(b@.len()),
        ensures
            response@ == match content {
                Some(b) => ok_response_spec(content_type@, base64_standard(b@)),
                None => not_found_response(not_found_page.deep_view()),
            },
    {
        match content {
            Some(b) => {
                let encoded = base64_encode(b.as_slice());
                Self::ok_response(content_type, encoded)
            },
            None => Self::serve_404(not_found_page),
        }
    }

    /// The 404 Not Found response.
    pub fn serve_404(page: Option<String>) -> (response: HttpResponse)
        ensures
            response@ == not_found_response(page.deep_view()),
    {
        let content = match page {
            Some(p) => p,
            None => "<h1>404 - Page Not Found</h1>".to_owned(),
        };
        HttpResponse {
            status_line: "HTTP/1.1 404 NOT FOUND".to_owned(),
            content_type: "text/html".to_owned(),
            content,
        }
    }

    /// The 400 Bad Request response.
    pub fn serve_400(page: Option<String>) -> (response: HttpResponse)
        ensures
            response@ == bad_request_response(page.deep_view()),
    {
        let content = match page {
            Some(p) => p,
            None => "<h1>400 - Bad Request</h1>".to_owned(),
        };
        HttpResponse {
            status_line: "HTTP/1.1 400 Bad Request".to_owned(),
            content_type: "text/html".to_owned(),
            content,
        }
    }

    /// The bytes to send to the client for a response.
    pub fn response_bytes(response: &HttpResponse) -> (bytes: Vec<u8>)
        ensures
            bytes@ == wire_bytes(response@),
    {
        let mut out: Vec<u8> = Vec::new();
        if same_text(response.status_line.as_str(), "MESSAGE") {
            append_bytes(&mut out, response.content.as_str().as_bytes());
            assert(out@ =~= wire_bytes(response@));
            return out;
        }
        let length = response.content.as_str().as_bytes().len();
        append_bytes(&mut out, response.status_line.as_str().as_bytes());
        append_bytes(&mut out, "\r\nContent-Type: ".as_bytes());
        append_bytes(&mut out, response.content_type.as_str().as_bytes());
        append_bytes(&mut out, "\r\nContent-Length: ".as_bytes());
        let digits = decimal_bytes(length);
        append_bytes(&mut out, digits.as_slice());
        append_bytes(&mut out, "\r\n\r\n".as_bytes());
        append_bytes(&mut out, response.content.as_str().as_bytes());
        assert(out@ =~= wire_bytes(response@));
        out
    }
}

} // verus!

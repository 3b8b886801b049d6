//! What holds of request handling as a whole: request lines are taken apart
//! into their three fields, other texts are echoed back byte for byte, the
//! INVALID method is answered with 400, and the Content-Length header counts
//! the body that follows it.
use vstd::prelude::*;
use vstd::utf8::*;
use crate::request_manager::{
    bad_request_response, is_http_method, not_found_response, message_response, parsable, parse_spec, request_parts,
    route_spec, wire_bytes, RequestModel, ResponseModel, RouteModel,
};
use crate::text::{
    before_crlf, crlf_at, ends_with, decimal, digits_value, lemma_before_crlf_prefix,
    lemma_decimal_round_trip, lemma_split_on_nonempty, split_on,
};

verus! {

/// A text with no separator in it is a single piece.
pub proof fn lemma_split_without_sep(s: Seq<char>, sep: char)
    requires
        !s.contains(sep),
    ensures
        split_on(s, sep) == seq![s],
    decreases s.len(),
{
    if s.len() == 0 {
        assert(s =~= Seq::<char>::empty());
    } else {
        let init = s.drop_last();
        assert(!init.contains(sep)) by {
            if init.contains(sep) {
                let i = choose|i: int| 0 <= i < init.len() && init[i] == sep;
                assert(s[i] == sep);
            }
        }
        lemma_split_without_sep(init, sep);
        assert(s.last() != sep) by {
            assert(s[s.len() - 1] == s.last());
        }
        assert(init.push(s.last()) =~= s);
        assert(seq![init].update(0, init.push(s.last())) =~= seq![s]);
    }
}

/// Splitting at a separator splits the two sides separately.
pub proof fn lemma_split_concat(a: Seq<char>, b: Seq<char>, sep: char)
    ensures
        split_on(a + seq![sep] + b, sep) == split_on(a, sep) + split_on(b, sep),
    decreases b.len(),
{
    let x = a + seq![sep] + b;
    if b.len() == 0 {
        assert(x.drop_last() =~= a);
        assert(split_on(a, sep).push(Seq::empty()) =~= split_on(a, sep) + seq![
            Seq::<char>::empty(),
        ]);
    } else {
        lemma_split_concat(a, b.drop_last(), sep);
        lemma_split_on_nonempty(b.drop_last(), sep);
        lemma_split_on_nonempty(a, sep);
        assert(x.drop_last() =~= a + seq![sep] + b.drop_last());
        assert(x.last() == b.last());
        let sa = split_on(a, sep);
        let sb = split_on(b.drop_last(), sep);
        if b.last() == sep {
            assert((sa + sb).push(Seq::empty()) =~= sa + sb.push(Seq::empty()));
        } else {
            assert((sa + sb).update(
                (sa + sb).len() - 1,
                (sa + sb).last().push(b.last()),
            ) =~= sa + sb.update(sb.len() - 1, sb.last().push(b.last())));
        }
    }
}

/// A prefix without separators joins the first piece of what follows it.
pub proof fn lemma_split_prefix(u: Seq<char>, t: Seq<char>, sep: char)
    requires
        !u.contains(sep),
    ensures
        split_on(u + t, sep) == split_on(t, sep).update(0, u + split_on(t, sep)[0]),
    decreases t.len(),
{
    if t.len() == 0 {
        assert(u + t =~= u);
        lemma_split_without_sep(u, sep);
        assert(u + Seq::<char>::empty() =~= u);
        assert(seq![Seq::<char>::empty()].update(0, u + Seq::<char>::empty()) =~= seq![u]);
    } else {
        let x = u + t;
        lemma_split_prefix(u, t.drop_last(), sep);
        lemma_split_on_nonempty(t.drop_last(), sep);
        assert(x.drop_last() =~= u + t.drop_last());
        assert(x.last() == t.last());
        let st = split_on(t.drop_last(), sep);
        let sx = st.update(0, u + st[0]);
        if t.last() == sep {
            assert(sx.push(Seq::empty()) =~= st.push(Seq::empty()).update(
                0,
                u + st.push(Seq::empty())[0],
            ));
        } else {
            let c = t.last();
            let st2 = st.update(st.len() - 1, st.last().push(c));
            if st.len() == 1 {
                assert((u + st[0]).push(c) =~= u + st[0].push(c));
                assert(sx.update(sx.len() - 1, sx.last().push(c)) =~= st2.update(0, u + st2[0]));
            } else {
                assert(sx.update(sx.len() - 1, sx.last().push(c)) =~= st2.update(0, u + st2[0]));
            }
        }
    }
}

/// The HTTP methods hold no space.
proof fn lemma_methods_have_no_space(m: Seq<char>)
    requires
        is_http_method(m),
    ensures
        !m.contains(' '),
{
    reveal_strlit("GET");
    reveal_strlit("POST");
    reveal_strlit("PUT");
    reveal_strlit("DELETE");
    reveal_strlit("INVALID");
    if m.contains(' ') {
        let i = choose|i: int| 0 <= i < m.len() && m[i] == ' ';
        assert(m[i] == ' ');
    }
}

/// A request line `METHOD PATH VERSION\r\n...`, for each of the methods GET,
/// POST, PUT, DELETE and INVALID, parses to exactly its method, path and
/// version, whatever follows the line.
pub proof fn law_request_line_fields(
    method: Seq<char>,
    path: Seq<char>,
    version: Seq<char>,
    rest: Seq<char>,
)
    requires
        method == "GET"@ || method == "POST"@ || method == "PUT"@ || method == "DELETE"@
            || method == "INVALID"@,
        !path.contains(' '),
        !version.contains(' '),
        !version.contains('\r'),
    ensures
        ({
            let text = method + seq![' '] + path + seq![' '] + version + seq!['\r', '\n'] + rest;
            &&& parsable(text)
            &&& parse_spec(text) == RequestModel { method, path, version }
        }),
{
    let crlf = seq!['\r', '\n'];
    let text = method + seq![' '] + path + seq![' '] + version + crlf + rest;
    let u = version + crlf;
    let w = u + rest;
    lemma_methods_have_no_space(method);
    assert(!u.contains(' ')) by {
        if u.contains(' ') {
            let i = choose|i: int| 0 <= i < u.len() && u[i] == ' ';
            if i < version.len() {
                assert(version[i] == ' ');
            }
        }
    }
    assert(text =~= method + seq![' '] + (path + seq![' '] + w));
    lemma_split_concat(method, path + seq![' '] + w, ' ');
    lemma_split_concat(path, w, ' ');
    lemma_split_without_sep(method, ' ');
    lemma_split_without_sep(path, ' ');
    lemma_split_prefix(u, rest, ' ');
    lemma_split_on_nonempty(rest, ' ');
    let parts = split_on(text, ' ');
    let sw = split_on(w, ' ');
    assert(parts == seq![method] + (seq![path] + sw));
    assert(parts[0] == method);
    assert(parts[1] == path);
    assert(parts[2] == sw[0]);
    let z = split_on(rest, ' ')[0];
    assert(sw[0] == u + z);
    let s2 = u + z;
    assert forall|j: int| 0 <= j < version.len() implies !crlf_at(s2, j) by {
        assert(s2[j] == version[j]);
        if version[j] == '\r' {
            assert(version.contains('\r'));
        }
    }
    assert(crlf_at(s2, version.len() as int));
    lemma_before_crlf_prefix(s2, version.len() as int);
    assert(s2.take(version.len() as int) =~= version);
    assert(request_parts(text) == parts);
}

/// A text that does not start with an HTTP method is answered with itself:
/// it parses as a message, is routed to the echo response, and that
/// response is written as the text's own UTF-8 bytes. For bytes received
/// that are valid UTF-8, the reply is those very bytes.
pub proof fn law_message_echo(received: Seq<u8>)
    requires
        valid_utf8(received),
        ({
            let first = request_parts(decode_utf8(received))[0];
            &&& first != "GET"@
            &&& first != "POST"@
            &&& first != "PUT"@
            &&& first != "DELETE"@
            &&& first != "INVALID"@
        }),
    ensures
        ({
            let text = decode_utf8(received);
            &&& parsable(text)
            &&& route_spec(parse_spec(text)) == RouteModel::Ready(message_response(text))
            &&& wire_bytes(message_response(text)) == received
        }),
{
    let text = decode_utf8(received);
    reveal_strlit("MESSAGE");
    reveal_strlit("GET");
    decode_utf8_encode_utf8(received);
    assert("MESSAGE"@[0] != "GET"@[0]);
}

/// A request with the INVALID method is routed to 400, and whatever the 400
/// page holds, the reply starts with the 400 status line.
pub proof fn law_invalid_method_answered_400(request: RequestModel, page: Option<Seq<char>>)
    requires
        request.method == "INVALID"@,
    ensures
        route_spec(request) == RouteModel::BadRequest,
        wire_bytes(bad_request_response(page)).take(
            encode_utf8("HTTP/1.1 400 Bad Request"@).len() as int,
        ) == encode_utf8("HTTP/1.1 400 Bad Request"@),
{
    reveal_strlit("INVALID");
    reveal_strlit("GET");
    reveal_strlit("MESSAGE");
    reveal_strlit("HTTP/1.1 400 Bad Request");
    assert("INVALID"@[0] != "GET"@[0]);
    assert("INVALID"@[0] != "MESSAGE"@[0]);
    let r = bad_request_response(page);
    assert(r.status_line[0] != "MESSAGE"@[0]);
    let status = encode_utf8("HTTP/1.1 400 Bad Request"@);
    let w = wire_bytes(r);
    assert(w.take(status.len() as int) =~= status);
}

/// Outside an echo, the reply is the status line, the content type, a
/// Content-Length header whose digits read back as the byte length of the
/// whole body, an empty line, and then that body.
pub proof fn law_content_length_counts_body(response: ResponseModel)
    requires
        response.status_line != "MESSAGE"@,
    ensures
        ({
            let body = encode_utf8(response.content);
            let w = wire_bytes(response);
            let digits = decimal(body.len());
            &&& w == encode_utf8(response.status_line) + encode_utf8("\r\nContent-Type: "@)
                + encode_utf8(response.content_type) + encode_utf8("\r\nContent-Length: "@)
                + digits + encode_utf8("\r\n\r\n"@) + body
            &&& digits_value(digits) == body.len()
            &&& forall|i: int| 0 <= i < digits.len() ==> 48 <= #[trigger] digits[i] <= 57
            &&& w.skip(w.len() - body.len()) == body
        }),
{
    let body = encode_utf8(response.content);
    let w = wire_bytes(response);
    lemma_decimal_round_trip(body.len());
    assert(w.skip(w.len() - body.len()) =~= body);
}

/// `p` ends with `t`, so their last characters agree.
proof fn lemma_ends_with_char(p: Seq<char>, t: Seq<char>, k: int)
    requires
        ends_with(p, t),
        0 <= k < t.len(),
    ensures
        p[p.len() - 1 - k] == t[t.len() - 1 - k],
{
    assert(p.subrange(p.len() - t.len(), p.len() as int)[t.len() - 1 - k] == t[t.len() - 1 - k]);
}

/// Every path ends with what was appended to it.
proof fn lemma_ends_with_appended(q: Seq<char>, t: Seq<char>)
    ensures
        ends_with(q + t, t),
{
    assert((q + t).subrange(q.len() as int, (q + t).len() as int) =~= t);
}

/// A GET of any path ending in `.html`, `.css` or `.js` is served from the
/// file `static` + path with the suffix's content type; one ending in `.png`
/// or `.jpg` is served as an image the same way. Subdirectories and all
/// other characters before the suffix make no difference.
pub proof fn law_get_static_routes(q: Seq<char>, version: Seq<char>)
    ensures
        (route_spec(RequestModel { method: "GET"@, path: q + ".html"@, version })
            == RouteModel::ServeFile { filepath: "static"@ + (q + ".html"@), content_type: "text/html"@ }),
        (route_spec(RequestModel { method: "GET"@, path: q + ".css"@, version })
            == RouteModel::ServeFile { filepath: "static"@ + (q + ".css"@), content_type: "text/css"@ }),
        (route_spec(RequestModel { method: "GET"@, path: q + ".js"@, version })
            == RouteModel::ServeFile {
                filepath: "static"@ + (q + ".js"@),
                content_type: "application/javascript"@,
            }),
        (route_spec(RequestModel { method: "GET"@, path: q + ".png"@, version })
            == RouteModel::ServeImage { filepath: "static"@ + (q + ".png"@), content_type: "image/png"@ }),
        (route_spec(RequestModel { method: "GET"@, path: q + ".jpg"@, version })
            == RouteModel::ServeImage { filepath: "static"@ + (q + ".jpg"@), content_type: "image/jpeg"@ }),
{
    reveal_strlit("/");
    reveal_strlit(".html");
    reveal_strlit(".css");
    reveal_strlit(".js");
    reveal_strlit(".png");
    reveal_strlit(".jpg");
    let html = ".html"@;
    let css = ".css"@;
    let js = ".js"@;
    let png = ".png"@;
    let jpg = ".jpg"@;
    // Each path is longer than "/", so it is not the root.
    assert((q + html).len() != "/"@.len());
    assert((q + css).len() != "/"@.len());
    assert((q + js).len() != "/"@.len());
    assert((q + png).len() != "/"@.len());
    assert((q + jpg).len() != "/"@.len());
    lemma_ends_with_appended(q, html);
    lemma_ends_with_appended(q, css);
    lemma_ends_with_appended(q, js);
    lemma_ends_with_appended(q, png);
    lemma_ends_with_appended(q, jpg);
    // The earlier suffixes in the routing order do not match.
    let p = q + css;
    if ends_with(p, html) {
        lemma_ends_with_char(p, html, 0);
        lemma_ends_with_char(p, css, 0);
    }
    let p = q + js;
    if ends_with(p, html) {
        lemma_ends_with_char(p, html, 0);
        lemma_ends_with_char(p, js, 0);
    }
    if ends_with(p, css) {
        lemma_ends_with_char(p, css, 1);
        lemma_ends_with_char(p, js, 1);
    }
    let p = q + png;
    if ends_with(p, html) {
        lemma_ends_with_char(p, html, 0);
        lemma_ends_with_char(p, png, 0);
    }
    if ends_with(p, css) {
        lemma_ends_with_char(p, css, 0);
        lemma_ends_with_char(p, png, 0);
    }
    if ends_with(p, js) {
        lemma_ends_with_char(p, js, 0);
        lemma_ends_with_char(p, png, 0);
    }
    let p = q + jpg;
    if ends_with(p, html) {
        lemma_ends_with_char(p, html, 0);
        lemma_ends_with_char(p, jpg, 0);
    }
    if ends_with(p, css) {
        lemma_ends_with_char(p, css, 0);
        lemma_ends_with_char(p, jpg, 0);
    }
    if ends_with(p, js) {
        lemma_ends_with_char(p, js, 0);
        lemma_ends_with_char(p, jpg, 0);
    }
    if ends_with(p, png) {
        lemma_ends_with_char(p, png, 1);
        lemma_ends_with_char(p, jpg, 1);
    }
}

/// A GET of `/` is served the index page; POST, PUT and DELETE of any path,
/// and a GET of any other path without a served suffix, get the 404 page.
pub proof fn law_other_routes(method: Seq<char>, path: Seq<char>, version: Seq<char>)
    ensures
        (route_spec(RequestModel { method: "GET"@, path: "/"@, version })
            == RouteModel::ServeFile { filepath: "static/index.html"@, content_type: "text/html"@ }),
        (method == "POST"@ || method == "PUT"@ || method == "DELETE"@) ==> (route_spec(
            RequestModel { method, path, version },
        ) == RouteModel::NotFound),
        (path != "/"@ && !ends_with(path, ".html"@) && !ends_with(path, ".css"@) && !ends_with(
            path,
            ".js"@,
        ) && !ends_with(path, ".png"@) && !ends_with(path, ".jpg"@)) ==> (route_spec(
            RequestModel { method: "GET"@, path, version },
        ) == RouteModel::NotFound),
{
    reveal_strlit("GET");
    reveal_strlit("POST");
    reveal_strlit("PUT");
    reveal_strlit("DELETE");
    reveal_strlit("MESSAGE");
    reveal_strlit("INVALID");
    assert("POST"@[0] != "GET"@[0]);
    assert("PUT"@[0] != "GET"@[0]);
    assert("DELETE"@[0] != "GET"@[0]);
    assert("POST"@[0] != "MESSAGE"@[0]);
    assert("PUT"@[0] != "MESSAGE"@[0]);
    assert("DELETE"@[0] != "MESSAGE"@[0]);
    assert("POST"@[0] != "INVALID"@[0]);
    assert("PUT"@[0] != "INVALID"@[0]);
    assert("DELETE"@[0] != "INVALID"@[0]);
    assert("GET"@[0] != "MESSAGE"@[0]);
    assert("GET"@[0] != "INVALID"@[0]);
}

/// The error pages: the page read from disk is the body when there is one,
/// else a short default; both are HTML under their own status line.
pub proof fn law_error_pages(page: Seq<char>)
    ensures
        bad_request_response(Some(page)).content == page,
        bad_request_response(Some(page)).status_line == "HTTP/1.1 400 Bad Request"@,
        bad_request_response(None).content == "<h1>400 - Bad Request</h1>"@,
        bad_request_response(None).content_type == "text/html"@,
        not_found_response(Some(page)).content == page,
        not_found_response(Some(page)).status_line == "HTTP/1.1 404 NOT FOUND"@,
        not_found_response(None).content == "<h1>404 - Page Not Found</h1>"@,
        not_found_response(None).content_type == "text/html"@,
{
}

} // verus!

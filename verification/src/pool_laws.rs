//! What a pool worker answers, stated over every input.
use vstd::prelude::*;
use vstd::utf8::*;
use crate::pool::{reply_bytes, reply_plan};
use crate::text::{decimal, digits_value, lemma_decimal_round_trip};

verus! {

/// Exactly the request line `GET / HTTP/1.1` is answered with the index
/// page and 200; every other line, whatever its method or path, with the
/// 404 page and 404 NOT FOUND.
pub proof fn law_only_get_root_gets_index(line: Seq<char>)
    ensures
        line == "GET / HTTP/1.1"@ ==> reply_plan(line) == ("HTTP/1.1 200 OK"@, "static/index.html"@),
        line != "GET / HTTP/1.1"@ ==> reply_plan(line) == (
            "HTTP/1.1 404 NOT FOUND"@,
            "static/404.html"@,
        ),
{
}

/// A worker's reply to a readable file is the status line, a Content-Length
/// header whose digits read back as the byte length of the file's content,
/// an empty line, and that content; to an unreadable file, the fixed 500
/// reply.
pub proof fn law_reply_counts_body_bytes(status_line: Seq<char>, contents: Option<Seq<char>>)
    ensures
        contents matches Some(c) ==> {
            let digits = decimal(encode_utf8(c).len());
            &&& reply_bytes(status_line, contents) == encode_utf8(status_line) + encode_utf8(
                "\r\nContent-Length: "@,
            ) + digits + encode_utf8("\r\n\r\n"@) + encode_utf8(c)
            &&& digits_value(digits) == encode_utf8(c).len()
            &&& forall|i: int| 0 <= i < digits.len() ==> 48 <= #[trigger] digits[i] <= 57
        },
        contents is None ==> reply_bytes(status_line, contents) == encode_utf8(
            "HTTP/1.1 500 INTERNAL SERVER ERROR\r\n\r\nInternal Server Error"@,
        ),
{
    if let Some(c) = contents {
        lemma_decimal_round_trip(encode_utf8(c).len());
    }
}

} // verus!

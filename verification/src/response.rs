//! The text of a response.

use crate::route::{ContentType, Status};
use vstd::prelude::*;
use vstd::string::{StringExecFns, StringSliceAdditionalSpecFns};
use vstd::utf8::encode_utf8;

verus! {

/// The character of the decimal digit `d`.
pub open spec fn digit_char(d: nat) -> char {
    (('0' as u8) + d) as char
}

/// `n` in decimal notation, without leading zeros.
pub open spec fn decimal(n: nat) -> Seq<char>
    decreases n,
{
    if n < 10 {
        seq![digit_char(n)]
    } else {
        decimal(n / 10).push(digit_char(n % 10))
    }
}

/// The number of bytes that `text` takes in UTF-8.
pub open spec fn utf8_len(text: Seq<char>) -> nat {
    encode_utf8(text).len()
}

/// The response that carries `body`: the status line, the length of the body
/// in bytes, its content type, an empty line and the body, each line ended
/// by a carriage return and a line feed.
pub open spec fn rendered(status: Status, content_type: ContentType, body: Seq<char>) -> Seq<
    char,
> {
    status.line() + "\r\nContent-Length: "@ + decimal(utf8_len(body)) + "\r\nContent-Type: "@
        + content_type.media_type() + "\r\n\r\n"@ + body
}

/// The response that carries no body: the not-found status line and an
/// empty line.
pub open spec fn bare_not_found() -> Seq<char> {
    Status::NotFound.line() + "\r\n\r\n"@
}

/// The decimal digit `d` as a string.
fn digit_str(d: usize) -> (text: &'static str)
    requires
        d < 10,
    ensures
        text@ == seq![digit_char(d as nat)],
{
    proof {
        reveal_strlit("0");
        reveal_strlit("1");
        reveal_strlit("2");
        reveal_strlit("3");
        reveal_strlit("4");
        reveal_strlit("5");
        reveal_strlit("6");
        reveal_strlit("7");
        reveal_strlit("8");
        reveal_strlit("9");
    }
    let text = match d {
        0 => "0",
        1 => "1",
        2 => "2",
        3 => "3",
        4 => "4",
        5 => "5",
        6 => "6",
        7 => "7",
        8 => "8",
        _ => "9",
    };
    text
}

/// Appends `n` in decimal notation to `out`.
fn push_decimal(out: &mut String, n: usize)
    ensures
        final(out)@ == old(out)@ + decimal(n as nat),
    decreases n,
{
    if n >= 10 {
        push_decimal(out, n / 10);
    }
    out.append(digit_str(n % 10));
}

/// `n` in decimal notation.
pub fn decimal_string(n: usize) -> (text: String)
    ensures
        text@ == decimal(n as nat),
{
    let mut text = String::new();
    push_decimal(&mut text, n);
    text
}

/// Writes out the response that carries `body`.
pub fn render(status: Status, content_type: ContentType, body: &str) -> (response: String)
    ensures
        response@ == rendered(status, content_type, body@),
{
    let length = body.as_bytes().len();
    let mut response = String::new();
    response.append(status.status_line());
    response.append("\r\nContent-Length: ");
    push_decimal(&mut response, length);
    response.append("\r\nContent-Type: ");
    response.append(content_type.as_str());
    response.append("\r\n\r\n");
    response.append(body);
    response
}

/// Writes out the response that carries no body.
pub fn render_bare_not_found() -> (response: String)
    ensures
        response@ == bare_not_found(),
{
    let mut response = String::new();
    response.append(Status::NotFound.status_line());
    response.append("\r\n\r\n");
    response
}

} // verus!

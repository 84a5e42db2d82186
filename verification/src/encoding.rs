//! Percent-encoding of text that is placed in the query of the toolbar
//! page's address.

use vstd::prelude::*;
use vstd::string::*;
use vstd::utf8::*;

verus! {

/// Bytes that percent-encoding leaves as they are: ASCII letters and
/// digits, `-`, `.`, `_` and `~`.
pub open spec fn is_unreserved(b: u8) -> bool {
    ||| 0x30 <= b <= 0x39
    ||| 0x41 <= b <= 0x5a
    ||| 0x61 <= b <= 0x7a
    ||| b == 0x2d
    ||| b == 0x2e
    ||| b == 0x5f
    ||| b == 0x7e
}

/// The upper-case hexadecimal digit for a value below sixteen.
pub open spec fn hex_digit(d: u8) -> char {
    if d < 10 {
        (0x30 + d) as u8 as char
    } else {
        (0x41 + (d - 10)) as u8 as char
    }
}

/// One byte, percent-encoded: itself when unreserved, otherwise `%` and its
/// two hexadecimal digits.
pub open spec fn encoded_byte(b: u8) -> Seq<char> {
    if is_unreserved(b) {
        seq![b as char]
    } else {
        seq!['%', hex_digit(b / 16), hex_digit(b % 16)]
    }
}

/// A byte string, percent-encoded byte by byte.
pub open spec fn percent_encoded(bytes: Seq<u8>) -> Seq<char>
    decreases bytes.len(),
{
    if bytes.len() == 0 {
        Seq::empty()
    } else {
        percent_encoded(bytes.drop_last()) + encoded_byte(bytes.last())
    }
}

/// A text, percent-encoded over its UTF-8 bytes.
pub open spec fn encoded_text(text: Seq<char>) -> Seq<char> {
    percent_encoded(encode_utf8(text))
}

/// Characters that can appear in percent-encoded output.
pub open spec fn is_query_safe(c: char) -> bool {
    ||| '0' <= c <= '9'
    ||| 'A' <= c <= 'Z'
    ||| 'a' <= c <= 'z'
    ||| c == '-'
    ||| c == '.'
    ||| c == '_'
    ||| c == '~'
    ||| c == '%'
}

/// Percent-encoded output is made of unreserved characters and `%` alone,
/// so it holds none of the characters that structure a query (`&`, `=`,
/// `?`, `#`), and it is at least as long as the input and at most three
/// times as long.
pub proof fn lemma_percent_encoded_is_safe(bytes: Seq<u8>)
    ensures
        forall|i: int|
            0 <= i < percent_encoded(bytes).len() ==> is_query_safe(
                #[trigger] percent_encoded(bytes)[i],
            ),
        bytes.len() <= percent_encoded(bytes).len() <= 3 * bytes.len(),
    decreases bytes.len(),
{
    if bytes.len() > 0 {
        lemma_percent_encoded_is_safe(bytes.drop_last());
        let b = bytes.last();
        let tail = encoded_byte(b);
        assert forall|j: int| 0 <= j < tail.len() implies is_query_safe(#[trigger] tail[j]) by {
            lemma_hex_digit_range((b / 16) as u8);
            lemma_hex_digit_range((b % 16) as u8);
        }
    }
}

/// A hexadecimal digit is one of `0`–`9`, `A`–`F`.
pub proof fn lemma_hex_digit_range(d: u8)
    requires
        d < 16,
    ensures
        ('0' <= hex_digit(d) <= '9') || ('A' <= hex_digit(d) <= 'F'),
{
}

/// Calls `urlencoding::encode`, which walks the UTF-8 bytes of its argument
/// and copies the ASCII letters, digits, `-`, `.`, `_` and `~`, replacing
/// every other byte by `%` and two upper-case hexadecimal digits.
#[verifier::external_body]
pub(crate) fn percent_encode(data: &str) -> (out: String)
    ensures
        out@ == encoded_text(data@),
{
    urlencoding::encode(data).into_owned()
}

/// The address of the toolbar page for an app: the control page in toolbar
/// mode, with the app's address and display name as query parameters.
pub open spec fn toolbar_page_text(url: Seq<char>, name: Seq<char>) -> Seq<char> {
    "index.html?mode=toolbar&url="@ + encoded_text(url) + "&name="@ + encoded_text(name)
}

/// Builds the address that the toolbar surface is loaded with.
pub fn toolbar_page(url: &str, name: &str) -> (page: String)
    ensures
        page@ == toolbar_page_text(url@, name@),
{
    let mut page = String::from_str("index.html?mode=toolbar&url=");
    let u = percent_encode(url);
    page.append(u.as_str());
    page.append("&name=");
    let n = percent_encode(name);
    page.append(n.as_str());
    page
}

} // verus!

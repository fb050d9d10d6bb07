use vstd::prelude::*;
use vstd::string::*;

use crate::error::FsError;

verus! {

/// Bytes that stand for themselves in an encoded path: `A-Z a-z 0-9 - _ . ~`.
pub open spec fn is_unreserved(b: u8) -> bool {
    (0x41 <= b <= 0x5a) || (0x61 <= b <= 0x7a) || (0x30 <= b <= 0x39) || b == 0x2d || b == 0x5f
        || b == 0x2e || b == 0x7e
}

/// Bytes that an encoded path writes as `%XX`: all but the unreserved ones and `'/'`.
pub open spec fn is_escaped(b: u8) -> bool {
    !is_unreserved(b) && b != 0x2f
}

/// An upper-case hexadecimal digit.
pub open spec fn hex_digit(n: u8) -> char {
    if n < 10 {
        (n + 0x30) as char
    } else {
        (n - 10 + 0x41) as char
    }
}

/// The escape sequence `%XX` of a byte, in upper-case hexadecimal.
pub open spec fn escape_of(b: u8) -> Seq<char> {
    seq!['%', hex_digit(b / 16), hex_digit(b % 16)]
}

/// What one byte of a path becomes once encoded.
pub open spec fn encoded_byte(b: u8) -> Seq<char> {
    if is_escaped(b) {
        escape_of(b)
    } else {
        seq![b as char]
    }
}

/// A byte string with every escaped byte written as `%XX`.
pub open spec fn encoded(s: Seq<u8>) -> Seq<char>
    decreases s.len(),
{
    if s.len() == 0 {
        Seq::empty()
    } else {
        encoded(s.drop_last()) + encoded_byte(s.last())
    }
}

/// Relies on percent_encoding::percent_encode_byte: the three characters `%XX` of a
/// byte, upper-case hexadecimal.
#[verifier::external_body]
fn escape_byte(b: u8) -> (r: &'static str)
    ensures
        r@ == escape_of(b),
{
    percent_encoding::percent_encode_byte(b)
}

/// Relies on `char::to_string`: a string that holds the one character `c`.
#[verifier::external_body]
fn char_to_string(c: char) -> (r: String)
    ensures
        r@ == seq![c],
{
    c.to_string()
}

/// Whether a byte of a path must be escaped.
pub fn needs_escape(byte: u8) -> (r: bool)
    ensures
        r == is_escaped(byte),
{
    let unreserved = (0x41 <= byte && byte <= 0x5a) || (0x61 <= byte && byte <= 0x7a) || (0x30
        <= byte && byte <= 0x39) || byte == 0x2d || byte == 0x5f || byte == 0x2e || byte == 0x7e;
    !unreserved && byte != 0x2f
}

/// Percent-encodes a path: unreserved bytes and `'/'` are kept, every other byte
/// becomes `%XX`.
pub fn encode_path(src: &[u8]) -> (r: String)
    ensures
        r@ == encoded(src@),
{
    let mut out = String::new();
    let mut i: usize = 0;
    while i < src.len()
        invariant
            i <= src@.len(),
            out@ == encoded(src@.subrange(0, i as int)),
        decreases src@.len() - i,
    {
        let b = src[i];
        assert(src@.subrange(0, i + 1).drop_last() =~= src@.subrange(0, i as int));
        if needs_escape(b) {
            out.append(escape_byte(b));
        } else {
            let s = char_to_string(b as char);
            out.append(s.as_str());
        }
        i = i + 1;
    }
    assert(src@.subrange(0, src@.len() as int) =~= src@);
    out
}

/// Whether webdav-handler accepts `href` as a request path.
pub uninterp spec fn dav_path_accepts(href: Seq<char>) -> bool;

/// Relies on webdav_handler's `DavPath::new`: whether it parses `href`, which depends
/// on `href` alone.
#[verifier::external_body]
fn parses_as_dav_path(href: &str) -> (r: bool)
    ensures
        r == dav_path_accepts(href@),
{
    webdav_handler::davpath::DavPath::new(href).is_ok()
}

/// The request path of the ancestor directory `key` (a relative path): `'/'` and the
/// encoded bytes of `key`. A path that webdav-handler refuses is a `GeneralFailure`.
pub fn ancestor_href(key: &str) -> (r: Result<String, FsError>)
    ensures
        match r {
            Ok(h) => h@ == seq!['/'] + encoded(key.spec_bytes()) && dav_path_accepts(h@),
            Err(e) => e == FsError::GeneralFailure && !dav_path_accepts(
                seq!['/'] + encoded(key.spec_bytes()),
            ),
        },
{
    let mut href = String::from_str("/");
    proof {
        reveal_strlit("/");
        assert(href@ =~= seq!['/']);
    }
    let tail = encode_path(key.as_bytes());
    href.append(tail.as_str());
    if parses_as_dav_path(href.as_str()) {
        Ok(href)
    } else {
        Err(FsError::GeneralFailure)
    }
}

} // verus!

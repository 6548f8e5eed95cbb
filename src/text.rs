//! The few text conversions of std that the library needs, each behind a
//! contract, and the rendering of a path's bytes that is built from them.
use vstd::prelude::*;
use vstd::utf8::{decode_utf8, valid_utf8};

verus! {

/// The text that `String::from_utf8_lossy` makes of a byte sequence.
pub uninterp spec fn lossy_utf8(b: Seq<u8>) -> Seq<char>;

/// The text that `Debug` gives for a `str`: quoted, with escapes.
pub uninterp spec fn debug_str(s: Seq<char>) -> Seq<char>;

/// The text that the alternate `Debug` gives for a `Duration` of `secs`
/// seconds and `nanos` nanoseconds.
pub uninterp spec fn debug_duration(secs: u64, nanos: u32) -> Seq<char>;

/// The chunks that `<[u8]>::utf8_chunks` splits a byte sequence into: each
/// a well-formed run, as its characters, followed by the malformed bytes
/// that end it.
pub uninterp spec fn utf8_chunks_of(b: Seq<u8>) -> Seq<(Seq<char>, Seq<u8>)>;

/// The characters that `char::escape_debug` gives for a character.
pub uninterp spec fn escape_debug_of(c: char) -> Seq<char>;

/// A hexadecimal digit in upper case.
pub open spec fn hex_digit(d: u8) -> char {
    if d < 10 {
        (d + 48) as char
    } else {
        (d + 55) as char
    }
}

/// A byte written as `\x` and two upper-case hexadecimal digits.
pub open spec fn hex_escape(b: u8) -> Seq<char> {
    seq!['\\', 'x', hex_digit(b / 16), hex_digit(b % 16)]
}

/// Relies on `<[u8]>::utf8_chunks`: each chunk's well-formed part and
/// malformed part, in order.
#[verifier::external_body]
pub(crate) fn utf8_chunks(b: &[u8]) -> (r: Vec<(Vec<char>, Vec<u8>)>)
    ensures
        r@.map_values(|p: (Vec<char>, Vec<u8>)| (p.0@, p.1@)) == utf8_chunks_of(b@),
{
    b.utf8_chunks().map(|c| (c.valid().chars().collect(), c.invalid().to_vec())).collect()
}

/// Relies on `char::escape_debug`: the character as `Debug` writes it
/// inside a quoted text.
#[verifier::external_body]
pub(crate) fn char_escape(c: char) -> (r: String)
    ensures
        r@ == escape_debug_of(c),
{
    c.escape_debug().to_string()
}

/// Relies on `format!` with `{:02X}`: a byte as two upper-case hexadecimal
/// digits, after `\x`.
#[verifier::external_body]
pub(crate) fn byte_escape(b: u8) -> (r: String)
    ensures
        r@ == hex_escape(b),
{
    format!("\\x{:02X}", b)
}

/// Relies on `std::str::from_utf8`: it accepts exactly the well-formed UTF-8
/// sequences, and then the text is what they encode.
#[verifier::external_body]
pub(crate) fn utf8_text(b: &Vec<u8>) -> (r: Option<String>)
    ensures
        r is Some <==> valid_utf8(b@),
        r matches Some(s) ==> s@ == decode_utf8(b@),
{
    match std::str::from_utf8(b.as_slice()) {
        Ok(s) => Some(s.to_string()),
        Err(_) => None,
    }
}

/// Relies on `String::from_utf8_lossy`: well-formed UTF-8 is decoded as it
/// is; other bytes become replacement characters.
#[verifier::external_body]
pub(crate) fn lossy_text(b: &[u8]) -> (r: String)
    ensures
        r@ == lossy_utf8(b@),
        valid_utf8(b@) ==> r@ == decode_utf8(b@),
{
    String::from_utf8_lossy(b).into_owned()
}

/// Relies on `<str as Debug>::fmt`: the text between double quotes, with
/// quotes, backslashes and control characters escaped.
#[verifier::external_body]
pub(crate) fn quoted(s: &str) -> (r: String)
    ensures
        r@ == debug_str(s@),
{
    format!("{:?}", s)
}

/// Relies on `<Duration as Debug>::fmt` in its alternate form, applied to
/// `Duration::new(secs, nanos)`, which does not panic while `nanos` is below
/// one second.
#[verifier::external_body]
pub(crate) fn duration_text(secs: u64, nanos: u32) -> (r: String)
    requires
        nanos < 1_000_000_000,
    ensures
        r@ == debug_duration(secs, nanos),
{
    format!("{:#?}", std::time::Duration::new(secs, nanos))
}

/// The characters of a text, each as `char::escape_debug` writes it.
pub open spec fn escaped_chars(v: Seq<char>) -> Seq<char>
    decreases v.len(),
{
    if v.len() == 0 {
        Seq::empty()
    } else {
        escaped_chars(v.drop_last()) + escape_debug_of(v.last())
    }
}

/// Bytes, each written as a `\x` escape.
pub open spec fn escaped_bytes(b: Seq<u8>) -> Seq<char>
    decreases b.len(),
{
    if b.len() == 0 {
        Seq::empty()
    } else {
        escaped_bytes(b.drop_last()) + hex_escape(b.last())
    }
}

/// Chunks written one after the other: the well-formed characters escaped,
/// then the malformed bytes as `\x` escapes.
pub open spec fn escaped_chunks(cs: Seq<(Seq<char>, Seq<u8>)>) -> Seq<char>
    decreases cs.len(),
{
    if cs.len() == 0 {
        Seq::empty()
    } else {
        escaped_chunks(cs.drop_last()) + escaped_chars(cs.last().0) + escaped_bytes(cs.last().1)
    }
}

/// How `Debug` writes a path held as these bytes: quoted, well-formed UTF-8
/// escaped character by character, each malformed byte as `\xNN`.
pub open spec fn debug_path(b: Seq<u8>) -> Seq<char> {
    "\""@ + escaped_chunks(utf8_chunks_of(b)) + "\""@
}

/// Writes a path held as bytes the way `Debug` writes it.
pub fn path_debug_text(b: &[u8]) -> (r: String)
    ensures
        r@ == debug_path(b@),
{
    let chunks = utf8_chunks(b);
    let ghost cs = utf8_chunks_of(b@);
    let mut r = "\"".to_owned();
    let mut i: usize = 0;
    while i < chunks.len()
        invariant
            i <= chunks@.len(),
            chunks@.map_values(|p: (Vec<char>, Vec<u8>)| (p.0@, p.1@)) == cs,
            r@ == "\""@ + escaped_chunks(cs.take(i as int)),
        decreases chunks@.len() - i,
    {
        let chunk = &chunks[i];
        assert(cs[i as int] == (chunk.0@, chunk.1@));
        let ghost before = r@;
        let mut j: usize = 0;
        while j < chunk.0.len()
            invariant
                j <= chunk.0@.len(),
                r@ == before + escaped_chars(chunk.0@.take(j as int)),
            decreases chunk.0@.len() - j,
        {
            r.append(char_escape(chunk.0[j]).as_str());
            assert(chunk.0@.take(j + 1).drop_last() == chunk.0@.take(j as int));
            j = j + 1;
        }
        assert(chunk.0@.take(j as int) == chunk.0@);
        let ghost middle = r@;
        let mut k: usize = 0;
        while k < chunk.1.len()
            invariant
                k <= chunk.1@.len(),
                r@ == middle + escaped_bytes(chunk.1@.take(k as int)),
            decreases chunk.1@.len() - k,
        {
            r.append(byte_escape(chunk.1[k]).as_str());
            assert(chunk.1@.take(k + 1).drop_last() == chunk.1@.take(k as int));
            k = k + 1;
        }
        assert(chunk.1@.take(k as int) == chunk.1@);
        assert(cs.take(i + 1).drop_last() == cs.take(i as int));
        i = i + 1;
    }
    assert(cs.take(i as int) == cs);
    r.append("\"");
    r
}

} // verus!

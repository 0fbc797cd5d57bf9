//! The frame of a pair of fixed-width text fields:
//! one discriminant byte, then each field's UTF-8 bytes.
use vstd::prelude::*;
use vstd::string::StringSliceAdditionalSpecFns;
use vstd::utf8::{decode_utf8, encode_utf8, valid_utf8};

use crate::{Error, ErrorKind};

verus! {

/// Width in bytes of each text field.
pub const FIELD_WIDTH: usize = 4;

/// Length of a whole frame: the discriminant and both fields.
pub const FRAME_LEN: usize = 9;

/// Relies on `std::str::from_utf8`: it succeeds exactly on valid UTF-8 and
/// hands back a string slice over the very same bytes.
#[verifier::external_body]
fn str_from_utf8<'a>(b: &'a [u8]) -> (r: Option<&'a str>)
    ensures
        r is Some <==> valid_utf8(b@),
        r matches Some(s) ==> s.spec_bytes() == b@,
{
    match std::str::from_utf8(b) {
        Ok(s) => Some(s),
        Err(_) => None,
    }
}

/// The text that `b` holds, if it is valid UTF-8.
pub open spec fn field_text(b: Seq<u8>) -> Option<Seq<char>> {
    if valid_utf8(b) {
        Some(decode_utf8(b))
    } else {
        None
    }
}

/// Reads `b` as UTF-8 text, borrowing from `b`.
pub fn read_text<'a>(b: &'a [u8]) -> (r: Option<&'a str>)
    ensures
        r is Some <==> field_text(b@) is Some,
        r matches Some(s) ==> field_text(b@) == Some(s@) && s.spec_bytes() == b@,
{
    let r = str_from_utf8(b);
    if let Some(s) = r {
        proof {
            vstd::utf8::encode_utf8_decode_utf8(s@);
        }
    }
    r
}

/// Whether text `t` fills a field exactly once encoded.
pub open spec fn fits_field(t: Seq<char>) -> bool {
    encode_utf8(t).len() == FIELD_WIDTH
}

/// The frame of fields `x` and `y` under discriminant `tag`.
pub open spec fn frame(tag: u8, x: Seq<char>, y: Seq<char>) -> Seq<u8> {
    seq![tag] + encode_utf8(x) + encode_utf8(y)
}

/// What the bytes `b` hold as a frame: whether the discriminant is zero
/// (the value may be viewed in place), and the two texts. Bytes past the
/// frame are not read.
pub open spec fn parse_frame(b: Seq<u8>) -> Option<(bool, Seq<char>, Seq<char>)> {
    if b.len() < FRAME_LEN {
        None
    } else {
        match (field_text(b.subrange(1, 5)), field_text(b.subrange(5, 9))) {
            (Some(x), Some(y)) => Some((b[0] == 0, x, y)),
            _ => None,
        }
    }
}

/// A frame that is read back yields the discriminant's kind and the very
/// texts it was written from.
pub proof fn lemma_frame_round_trip(tag: u8, x: Seq<char>, y: Seq<char>)
    requires
        fits_field(x),
        fits_field(y),
    ensures
        parse_frame(frame(tag, x, y)) == Some((tag == 0, x, y)),
{
    let b = frame(tag, x, y);
    assert(b.subrange(1, 5) =~= encode_utf8(x));
    assert(b.subrange(5, 9) =~= encode_utf8(y));
    vstd::utf8::encode_utf8_valid_utf8(x);
    vstd::utf8::encode_utf8_valid_utf8(y);
    vstd::utf8::encode_utf8_decode_utf8(x);
    vstd::utf8::encode_utf8_decode_utf8(y);
}

/// Appends the bytes of `s` to `out`.
fn push_bytes(out: &mut Vec<u8>, s: &[u8])
    ensures
        final(out)@ == old(out)@ + s@,
{
    let mut i: usize = 0;
    while i < s.len()
        invariant
            i <= s@.len(),
            out@ == old(out)@ + s@.subrange(0, i as int),
        decreases s@.len() - i,
    {
        out.push(s[i]);
        i = i + 1;
        assert(out@ =~= old(out)@ + s@.subrange(0, i as int));
    }
    assert(s@.subrange(0, i as int) =~= s@);
}

/// Writes the frame of `x` and `y` under discriminant `tag`; fails when a
/// field does not take exactly the field width.
pub fn encode_frame(tag: u8, x: &str, y: &str) -> (r: Result<Vec<u8>, Error>)
    ensures
        match r {
            Ok(v) => fits_field(x@) && fits_field(y@) && v@ == frame(tag, x@, y@),
            Err(e) => !(fits_field(x@) && fits_field(y@)) && e.kind == ErrorKind::EncodingError,
        },
{
    let xb = x.as_bytes();
    let yb = y.as_bytes();
    if xb.len() != FIELD_WIDTH || yb.len() != FIELD_WIDTH {
        return Err(Error::encoding());
    }
    let mut out: Vec<u8> = Vec::new();
    out.push(tag);
    push_bytes(&mut out, xb);
    push_bytes(&mut out, yb);
    assert(out@ =~= frame(tag, x@, y@));
    Ok(out)
}

/// Reads a frame from `b`. The texts borrow from `b`: nothing is copied.
pub fn decode_frame<'a>(b: &'a [u8]) -> (r: Result<(bool, &'a str, &'a str), Error>)
    ensures
        match r {
            Ok((z, x, y)) => {
                &&& parse_frame(b@) == Some((z, x@, y@))
                &&& x.spec_bytes() == b@.subrange(1, 5)
                &&& y.spec_bytes() == b@.subrange(5, 9)
            },
            Err(e) => parse_frame(b@) is None && e.kind == ErrorKind::MalformedInput,
        },
{
    if b.len() < FRAME_LEN {
        return Err(Error::malformed());
    }
    let xo = read_text(vstd::slice::slice_subrange(b, 1, 1 + FIELD_WIDTH));
    let yo = read_text(vstd::slice::slice_subrange(b, 1 + FIELD_WIDTH, FRAME_LEN));
    match (xo, yo) {
        (Some(x), Some(y)) => Ok((b[0] == 0, x, y)),
        _ => Err(Error::malformed()),
    }
}

} // verus!

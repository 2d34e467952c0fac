//! The reading of the ephemeris engine's raw replies: status codes and the
//! NUL-terminated diagnostic buffers that come with them.
use vstd::prelude::*;
use vstd::utf8::{decode_utf8, valid_utf8};
use crate::error::AstroError;
use crate::sign::Longitude;

verus! {

/// The text used when the engine fails without a diagnostic.
pub open spec fn unknown_error_text() -> Seq<char> {
    "unknown Swiss Ephemeris error"@
}

/// The text used when the house computation fails; the engine gives none.
pub open spec fn ascendant_error_text() -> Seq<char> {
    "failed to compute ascendant"@
}

/// What `String::from_utf8_lossy` makes of a sequence of bytes.
pub uninterp spec fn lossy_text_of(b: Seq<u8>) -> Seq<char>;

/// Relies on `String::from_utf8_lossy`: its text depends on the bytes alone
/// (invalid sequences become U+FFFD), and valid UTF-8 decodes as itself.
#[verifier::external_body]
fn decode_lossy(b: &[u8]) -> (r: String)
    ensures
        r@ == lossy_text_of(b@),
        valid_utf8(b@) ==> r@ == decode_utf8(b@),
{
    String::from_utf8_lossy(b).into_owned()
}

/// The index of the first NUL byte of `b` at or after `i`, or `b.len()` if none.
pub open spec fn nul_from(b: Seq<u8>, i: int) -> int
    decreases b.len() - i,
{
    if i < 0 || i >= b.len() {
        b.len() as int
    } else if b[i] == 0 {
        i
    } else {
        nul_from(b, i + 1)
    }
}

/// The bytes of a NUL-terminated buffer before its terminator (all of them if
/// it has none).
pub open spec fn c_text(b: Seq<u8>) -> Seq<u8> {
    b.take(nul_from(b, 0))
}

/// The diagnostic that a buffer holds: its text before the terminator, decoded
/// with lossy substitution, or a fixed placeholder when that text is empty.
pub open spec fn diagnostic_text(b: Seq<u8>) -> Seq<char> {
    if c_text(b).len() == 0 {
        unknown_error_text()
    } else {
        lossy_text_of(c_text(b))
    }
}

/// The diagnostic held in a NUL-terminated buffer filled by the engine.
pub fn error_string(buf: &[u8]) -> (r: String)
    ensures
        r@ == diagnostic_text(buf@),
{
    let mut i: usize = 0;
    while i < buf.len() && buf[i] != 0
        invariant
            0 <= i <= buf@.len(),
            nul_from(buf@, i as int) == nul_from(buf@, 0),
        decreases buf@.len() - i,
    {
        i = i + 1;
    }
    let mut text: Vec<u8> = Vec::new();
    let mut j: usize = 0;
    while j < i
        invariant
            0 <= j <= i <= buf@.len(),
            text@ == buf@.take(j as int),
        decreases i - j,
    {
        text.push(buf[j]);
        j = j + 1;
        assert(text@ =~= buf@.take(j as int));
    }
    assert(text@ =~= c_text(buf@));
    if i == 0 {
        "unknown Swiss Ephemeris error".to_string()
    } else {
        decode_lossy(text.as_slice())
    }
}

/// `o` is the outcome of a time conversion that returned `status` and filled
/// `diagnostic`: a negative status is a failure carrying the diagnostic.
pub open spec fn is_time_outcome(status: i32, diagnostic: Seq<u8>, o: Result<(), AstroError>) -> bool {
    &&& o is Ok <==> status >= 0
    &&& o is Err ==> o->Err_0.is_ephemeris_with(diagnostic_text(diagnostic))
}

/// The outcome of the engine's UTC to Julian Day conversion.
pub fn julian_day_outcome(status: i32, diagnostic: &[u8]) -> (r: Result<(), AstroError>)
    ensures
        is_time_outcome(status, diagnostic@, r),
{
    if status < 0 {
        Err(AstroError::EphemerisError(error_string(diagnostic)))
    } else {
        Ok(())
    }
}

/// The outcome of the engine's position query for a body: on success the
/// longitude that the engine put first in its result vector.
pub fn body_longitude_outcome(status: i32, longitude: Longitude, diagnostic: &[u8]) -> (r: Result<
    Longitude,
    AstroError,
>)
    ensures
        status >= 0 ==> r == Ok::<Longitude, AstroError>(longitude),
        status < 0 ==> r is Err && r->Err_0.is_ephemeris_with(diagnostic_text(diagnostic@)),
{
    if status < 0 {
        Err(AstroError::EphemerisError(error_string(diagnostic)))
    } else {
        Ok(longitude)
    }
}

/// The outcome of the engine's house computation: on success the ascendant,
/// on failure a fixed diagnostic.
pub fn ascendant_outcome(status: i32, ascendant: Longitude) -> (r: Result<Longitude, AstroError>)
    ensures
        status >= 0 ==> r == Ok::<Longitude, AstroError>(ascendant),
        status < 0 ==> r is Err && r->Err_0.is_ephemeris_with(ascendant_error_text()),
{
    if status < 0 {
        Err(AstroError::EphemerisError("failed to compute ascendant".to_string()))
    } else {
        Ok(ascendant)
    }
}

} // verus!

//! The ephemeris data path that every chart computation hands to the engine.
//!
//! The engine keeps a single process-wide path. The store holds the path that
//! the caller last configured, so that it can be pushed to the engine again
//! right before each computation; callers share one store under a lock.
use vstd::prelude::*;
use vstd::utf8::encode_utf8;
use crate::error::AstroError;

verus! {

/// Whether a text can be handed to the engine as a NUL-terminated string:
/// its UTF-8 encoding holds no NUL byte.
pub open spec fn c_compatible(text: Seq<char>) -> bool {
    forall|i: int| 0 <= i < encode_utf8(text).len() ==> #[trigger] encode_utf8(text)[i] != 0
}

/// The bytes handed to the engine for a path: its UTF-8 encoding and a
/// terminating NUL.
pub open spec fn engine_bytes(text: Seq<char>) -> Seq<u8> {
    encode_utf8(text).push(0)
}

/// The configured ephemeris data path; empty means the engine's default.
pub struct EphePathStore {
    path: String,
}

impl View for EphePathStore {
    type V = Seq<char>;

    closed spec fn view(&self) -> Seq<char> {
        self.path@
    }
}

/// A new store holding the empty path, which leaves the engine on its default.
pub fn ephe_path_store() -> (r: EphePathStore)
    ensures
        r@ == Seq::<char>::empty(),
{
    EphePathStore { path: String::new() }
}

impl EphePathStore {
    /// Replaces the stored path as a whole by `path`.
    pub fn set(&mut self, path: &str)
        ensures
            final(self)@ == path@,
    {
        self.path = path.to_string();
    }

    /// The stored path.
    pub fn path(&self) -> (r: &str)
        ensures
            r@ == self@,
    {
        self.path.as_str()
    }

    /// The NUL-terminated bytes to hand to the engine for the stored path, or
    /// an error when the path holds a NUL byte and so cannot be handed over.
    pub fn engine_path(&self) -> (r: Result<Vec<u8>, AstroError>)
        ensures
            r is Ok <==> c_compatible(self@),
            r is Ok ==> r->Ok_0@ == engine_bytes(self@),
            r is Err ==> r->Err_0.is_invalid_input_with("ephemeris path contains null byte"@),
    {
        let text: &str = self.path.as_str();
        let bytes: &[u8] = text.as_bytes();
        assert(bytes@ == encode_utf8(self@));
        let mut out: Vec<u8> = Vec::new();
        let mut i: usize = 0;
        while i < bytes.len()
            invariant
                0 <= i <= bytes@.len(),
                bytes@ == encode_utf8(self@),
                out@ == bytes@.take(i as int),
                forall|k: int| 0 <= k < i ==> bytes@[k] != 0,
            decreases bytes@.len() - i,
        {
            if bytes[i] == 0 {
                return Err(AstroError::InvalidInput("ephemeris path contains null byte".to_string()));
            }
            out.push(bytes[i]);
            i = i + 1;
            assert(out@ =~= bytes@.take(i as int));
        }
        out.push(0);
        assert(out@ =~= engine_bytes(self@));
        Ok(out)
    }
}

} // verus!

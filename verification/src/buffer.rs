//! Owned output buffers.
//!
//! Every data-returning operation hands the foreign caller a fresh,
//! independently-owned, null-terminated text buffer; the caller releases
//! it exactly once through [`free_string`].  `OwnedBuf` models such a
//! buffer: the text it carries, which — being null-terminated on the
//! wire — can never contain an interior NUL character.  Text that does
//! contain one cannot cross the boundary and the operation that produced
//! it fails with its sentinel instead.
use vstd::prelude::*;
use vstd::std_specs::iter::IteratorSpec;

verus! {

/// A heap-allocated text buffer whose ownership has transferred to the
/// foreign caller.
pub struct OwnedBuf {
    text: String,
}

impl View for OwnedBuf {
    type V = Seq<char>;

    closed spec fn view(&self) -> Seq<char> {
        self.text@
    }
}

impl OwnedBuf {
    /// A buffer is well-formed when its text has no interior NUL, so it
    /// survives null-termination unchanged.
    pub open spec fn wf(&self) -> bool {
        !self@.contains('\0')
    }

    /// The text the buffer carries.
    pub fn text(&self) -> (r: &String)
        ensures
            r@ == self@,
    {
        &self.text
    }

    /// Surrenders the buffer's text.
    pub fn into_text(self) -> (r: String)
        ensures
            r@ == self@,
    {
        self.text
    }
}

/// Whether the text contains an interior NUL character, by a scan over
/// its characters.
fn contains_nul(s: &str) -> (r: bool)
    ensures
        r == s@.contains('\0'),
{
    broadcast use vstd::string::axiom_spec_iter;
    broadcast use vstd::string::next_postcondition;

    let mut it = s.chars();
    let ghost mut seen: int = 0;
    loop
        invariant
            it.obeys_prophetic_iter_laws(),
            0 <= seen <= s@.len(),
            it.remaining() =~= s@.skip(seen),
            forall|k: int| 0 <= k < seen ==> s@[k] != '\0',
        decreases s@.len() - seen,
    {
        match it.next() {
            None => {
                assert(seen == s@.len());
                return false;
            },
            Some(c) => {
                assert(c == s@[seen]);
                if c == '\0' {
                    return true;
                }
                proof {
                    seen = seen + 1;
                }
            },
        }
    }
}

/// Wraps text for transfer across the boundary: succeeds exactly when the
/// text is free of interior NUL characters, the one thing a
/// null-terminated buffer cannot carry.
pub fn make_buffer(text: String) -> (r: Option<OwnedBuf>)
    ensures
        r is Some <==> !text@.contains('\0'),
        r matches Some(b) ==> b@ == text@ && b.wf(),
{
    if contains_nul(text.as_str()) {
        None
    } else {
        Some(OwnedBuf { text })
    }
}

/// Releases a buffer previously produced by this layer; the `None` case
/// mirrors the null pointer, on which release is a no-op.  Dropping the
/// buffer is the release: the allocator and the releaser are the same
/// subsystem, and a buffer passed here cannot be used again.
pub fn free_string(buf: Option<OwnedBuf>) {
    let _ = buf;
}

} // verus!

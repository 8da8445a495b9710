//! The unit-conversion capability: a per-unit-type strategy that tells the
//! state machine whether a file is textual, which unit ends a line, how a
//! decoded line of text becomes units, and how a fixed-size byte blob and a
//! unit convert into one another. A file handle type implements [`PascalFile`]
//! to bundle this capability with its owned state and last-error code.

use vstd::prelude::*;

use crate::state::FileState;

verus! {

/// A file handle: one unit-conversion capability, one owned file state, and
/// a last-error code (`0` means no error).
pub trait PascalFile: Sized {
    /// The element type of the file: a character for text files, a
    /// fixed-size record for binary files.
    type Unit;

    /// Whether this file is read line by line (text) or block by block
    /// (binary).
    spec fn spec_is_text_file() -> bool;

    /// Whether `u` is a line-terminator unit.
    spec fn spec_is_eoln_unit(u: Self::Unit) -> bool;

    /// The canonical line-terminator unit.
    spec fn spec_eoln_unit() -> Self::Unit;

    /// The number of bytes of one unit's binary encoding.
    spec fn spec_unit_size() -> usize;

    /// Line-terminator normalization applied to each physical line before it
    /// is converted to units.
    spec fn spec_normalize(line: Seq<u8>) -> Seq<u8>;

    /// The unit sequence a normalized line of text converts to.
    spec fn spec_line_units(line: Seq<u8>) -> Seq<Self::Unit>;

    /// The unit a blob of `spec_unit_size()` bytes decodes to.
    spec fn spec_blob_to_unit(blob: Seq<u8>) -> Self::Unit;

    /// The blob of `spec_unit_size()` bytes a unit encodes to.
    spec fn spec_unit_to_blob(u: Self::Unit) -> Seq<u8>;

    /// The file state this handle currently owns.
    spec fn spec_state(&self) -> FileState<Self::Unit>;

    /// The last open-time error code recorded on this handle.
    spec fn spec_error(&self) -> usize;

    /// The canonical terminator must itself be recognized as a terminator,
    /// so a synthesized line end satisfies the line-buffer invariant.
    proof fn lemma_eoln_unit_is_terminator()
        ensures
            Self::spec_is_eoln_unit(Self::spec_eoln_unit()),
    ;

    /// Block mode is undefined for zero-sized units.
    proof fn lemma_unit_size_positive()
        ensures
            Self::spec_unit_size() >= 1,
    ;

    /// Encoding a unit yields exactly one blob, and decoding that blob
    /// yields the unit back.
    proof fn lemma_blob_round_trip(u: Self::Unit)
        ensures
            Self::spec_unit_to_blob(u).len() == Self::spec_unit_size(),
            Self::spec_blob_to_unit(Self::spec_unit_to_blob(u)) == u,
    ;

    fn is_text_file() -> (b: bool)
        ensures
            b == Self::spec_is_text_file(),
    ;

    fn is_eoln_unit(u: &Self::Unit) -> (b: bool)
        ensures
            b == Self::spec_is_eoln_unit(*u),
    ;

    fn eoln_unit() -> (u: Self::Unit)
        ensures
            u == Self::spec_eoln_unit(),
    ;

    fn unit_size() -> (n: usize)
        ensures
            n == Self::spec_unit_size(),
    ;

    /// Rewrites a physical line in place to its normalized form
    /// (canonically, CRLF to LF).
    fn convert_line_string_crlf_to_lf(input: &mut Vec<u8>)
        ensures
            final(input)@ == Self::spec_normalize(old(input)@),
    ;

    /// Converts a normalized line of text to units, appending them to
    /// `units`.
    fn convert_line_string_to_units(input: &Vec<u8>, units: &mut Vec<Self::Unit>)
        ensures
            final(units)@ == old(units)@ + Self::spec_line_units(input@),
    ;

    /// Decodes the unit whose blob sits at `window[start..start + size]`.
    fn convert_blob_to_unit(window: &Vec<u8>, start: usize) -> (u: Self::Unit)
        requires
            start + Self::spec_unit_size() <= window@.len(),
        ensures
            u == Self::spec_blob_to_unit(
                window@.subrange(start as int, start + Self::spec_unit_size()),
            ),
    ;

    /// Encodes one unit as its blob.
    fn convert_unit_to_blob(data: Self::Unit) -> (blob: Vec<u8>)
        ensures
            blob@ == Self::spec_unit_to_blob(data),
    ;

    fn file_state(&self) -> (s: &FileState<Self::Unit>)
        ensures
            *s == self.spec_state(),
    ;

    /// Moves the owned state out of the handle, leaving it closed.
    fn take_file_state(&mut self) -> (s: FileState<Self::Unit>)
        ensures
            s == old(self).spec_state(),
            final(self).spec_state() == FileState::<Self::Unit>::Undefined,
            final(self).spec_error() == old(self).spec_error(),
    ;

    fn set_file_state(&mut self, s: FileState<Self::Unit>)
        ensures
            final(self).spec_state() == s,
            final(self).spec_error() == old(self).spec_error(),
    ;

    fn error_state(&self) -> (e: usize)
        ensures
            e == self.spec_error(),
    ;

    fn set_error_state(&mut self, e: usize)
        ensures
            final(self).spec_error() == e,
            final(self).spec_state() == old(self).spec_state(),
    ;
}

/// Decoding a value of a type from its fixed-size binary blob.
pub trait FromBlob: Sized {
    /// The number of bytes the decoding consumes.
    spec fn spec_blob_size() -> usize;

    /// The value a blob decodes to.
    spec fn spec_from_blob(blob: Seq<u8>) -> Self;

    fn from_blob(data: &[u8]) -> (r: Self)
        requires
            data@.len() == Self::spec_blob_size(),
        ensures
            r == Self::spec_from_blob(data@),
    ;
}

/// Encoding a value of a type as its fixed-size binary blob.
pub trait ToBlob {
    /// The blob a value encodes to.
    spec fn spec_to_blob(&self) -> Seq<u8>;

    fn to_blob(&self) -> (b: Vec<u8>)
        ensures
            b@ == self.spec_to_blob(),
    ;
}

impl FromBlob for u8 {
    open spec fn spec_blob_size() -> usize {
        1
    }

    open spec fn spec_from_blob(blob: Seq<u8>) -> u8 {
        blob[0]
    }

    fn from_blob(data: &[u8]) -> (r: u8)
        ensures
            r == Self::spec_from_blob(data@),
    {
        data[0]
    }
}

impl ToBlob for u8 {
    open spec fn spec_to_blob(&self) -> Seq<u8> {
        seq![*self]
    }

    fn to_blob(&self) -> (b: Vec<u8>)
        ensures
            b@ == self.spec_to_blob(),
    {
        let mut b: Vec<u8> = Vec::new();
        b.push(*self);
        proof {
            assert(b@ =~= seq![*self]);
        }
        b
    }
}

} // verus!

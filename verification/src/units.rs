//! Concrete unit-conversion capabilities: a text file whose units are
//! single bytes, and a binary file whose units are four-byte little-endian
//! words. Each bundles the capability with an owned file state and error
//! code, implementing [`PascalFile`].

use vstd::prelude::*;

use crate::capability::PascalFile;
use crate::source::NEWLINE;
use crate::state::FileState;

verus! {

/// A text file of single-byte units; the terminator unit is the newline
/// byte. Normalization turns a CRLF line ending into a bare LF (a physical
/// line holds no other newline, so only its tail needs looking at).
pub struct TextByteFile {
    pub state: FileState<u8>,
    pub error: usize,
}

impl TextByteFile {
    pub fn new() -> (f: TextByteFile)
        ensures
            f.spec_state() == FileState::<u8>::Undefined,
            f.spec_error() == 0,
    {
        TextByteFile { state: FileState::Undefined, error: 0 }
    }
}

impl PascalFile for TextByteFile {
    type Unit = u8;

    open spec fn spec_is_text_file() -> bool {
        true
    }

    open spec fn spec_is_eoln_unit(u: u8) -> bool {
        u == NEWLINE
    }

    open spec fn spec_eoln_unit() -> u8 {
        NEWLINE
    }

    open spec fn spec_unit_size() -> usize {
        1
    }

    open spec fn spec_normalize(line: Seq<u8>) -> Seq<u8> {
        if line.len() >= 2 && line[line.len() - 2] == 13 && line[line.len() - 1] == NEWLINE {
            line.take(line.len() - 2).push(NEWLINE)
        } else {
            line
        }
    }

    open spec fn spec_line_units(line: Seq<u8>) -> Seq<u8> {
        line
    }

    open spec fn spec_blob_to_unit(blob: Seq<u8>) -> u8 {
        blob[0]
    }

    open spec fn spec_unit_to_blob(u: u8) -> Seq<u8> {
        seq![u]
    }

    open spec fn spec_state(&self) -> FileState<u8> {
        self.state
    }

    open spec fn spec_error(&self) -> usize {
        self.error
    }

    proof fn lemma_eoln_unit_is_terminator() {
    }

    proof fn lemma_unit_size_positive() {
    }

    proof fn lemma_blob_round_trip(u: u8) {
        assert(Self::spec_unit_to_blob(u).len() == 1);
        assert(Self::spec_blob_to_unit(Self::spec_unit_to_blob(u)) == u);
    }

    fn is_text_file() -> (b: bool) {
        true
    }

    fn is_eoln_unit(u: &u8) -> (b: bool) {
        *u == NEWLINE
    }

    fn eoln_unit() -> (u: u8) {
        NEWLINE
    }

    fn unit_size() -> (n: usize) {
        1
    }

    fn convert_line_string_crlf_to_lf(input: &mut Vec<u8>) {
        let n = input.len();
        if n >= 2 && input[n - 2] == 13 && input[n - 1] == NEWLINE {
            input.pop();
            input.pop();
            input.push(NEWLINE);
            proof {
                assert(input@ =~= Self::spec_normalize(old(input)@));
            }
        }
    }

    fn convert_line_string_to_units(input: &Vec<u8>, units: &mut Vec<u8>) {
        let mut i: usize = 0;
        while i < input.len()
            invariant
                0 <= i <= input@.len(),
                units@ == old(units)@ + input@.take(i as int),
            decreases input@.len() - i,
        {
            let b = input[i];
            units.push(b);
            proof {
                assert(units@ =~= old(units)@ + input@.take(i + 1));
            }
            i = i + 1;
        }
        proof {
            assert(units@ =~= old(units)@ + input@);
        }
    }

    fn convert_blob_to_unit(window: &Vec<u8>, start: usize) -> (u: u8) {
        let u = window[start];
        proof {
            assert(window@.subrange(start as int, start + 1)[0] == window@[start as int]);
        }
        u
    }

    fn convert_unit_to_blob(data: u8) -> (blob: Vec<u8>) {
        let mut blob: Vec<u8> = Vec::new();
        blob.push(data);
        proof {
            assert(blob@ =~= seq![data]);
        }
        blob
    }

    fn file_state(&self) -> (s: &FileState<u8>) {
        &self.state
    }

    fn take_file_state(&mut self) -> (s: FileState<u8>) {
        let mut s = FileState::Undefined;
        core::mem::swap(&mut s, &mut self.state);
        s
    }

    fn set_file_state(&mut self, s: FileState<u8>) {
        self.state = s;
    }

    fn error_state(&self) -> (e: usize) {
        self.error
    }

    fn set_error_state(&mut self, e: usize) {
        self.error = e;
    }
}

/// A binary file of four-byte little-endian word units. The terminator
/// unit is never consulted in block mode; any pair consistent with the
/// capability laws will do, and the newline value is used.
pub struct BinaryWordFile {
    pub state: FileState<u32>,
    pub error: usize,
}

impl BinaryWordFile {
    pub fn new() -> (f: BinaryWordFile)
        ensures
            f.spec_state() == FileState::<u32>::Undefined,
            f.spec_error() == 0,
    {
        BinaryWordFile { state: FileState::Undefined, error: 0 }
    }
}

impl PascalFile for BinaryWordFile {
    type Unit = u32;

    open spec fn spec_is_text_file() -> bool {
        false
    }

    open spec fn spec_is_eoln_unit(u: u32) -> bool {
        u == 10
    }

    open spec fn spec_eoln_unit() -> u32 {
        10
    }

    open spec fn spec_unit_size() -> usize {
        4
    }

    open spec fn spec_normalize(line: Seq<u8>) -> Seq<u8> {
        line
    }

    open spec fn spec_line_units(line: Seq<u8>) -> Seq<u32> {
        Seq::empty()
    }

    open spec fn spec_blob_to_unit(blob: Seq<u8>) -> u32 {
        (blob[0] as u32) | ((blob[1] as u32) << 8) | ((blob[2] as u32) << 16) | ((
        blob[3] as u32) << 24)
    }

    open spec fn spec_unit_to_blob(u: u32) -> Seq<u8> {
        seq![
            (u & 0xff) as u8,
            ((u >> 8) & 0xff) as u8,
            ((u >> 16) & 0xff) as u8,
            ((u >> 24) & 0xff) as u8,
        ]
    }

    open spec fn spec_state(&self) -> FileState<u32> {
        self.state
    }

    open spec fn spec_error(&self) -> usize {
        self.error
    }

    proof fn lemma_eoln_unit_is_terminator() {
    }

    proof fn lemma_unit_size_positive() {
    }

    proof fn lemma_blob_round_trip(u: u32) {
        let b = Self::spec_unit_to_blob(u);
        assert(b.len() == 4);
        assert((((u & 0xff) as u8) as u32) | (((((u >> 8) & 0xff) as u8) as u32) << 8) | (((((u
            >> 16) & 0xff) as u8) as u32) << 16) | (((((u >> 24) & 0xff) as u8) as u32) << 24)
            == u) by (bit_vector);
    }

    fn is_text_file() -> (b: bool) {
        false
    }

    fn is_eoln_unit(u: &u32) -> (b: bool) {
        *u == 10
    }

    fn eoln_unit() -> (u: u32) {
        10
    }

    fn unit_size() -> (n: usize) {
        4
    }

    fn convert_line_string_crlf_to_lf(input: &mut Vec<u8>) {
    }

    fn convert_line_string_to_units(input: &Vec<u8>, units: &mut Vec<u32>) {
        proof {
            assert(units@ =~= old(units)@ + Seq::<u32>::empty());
        }
    }

    fn convert_blob_to_unit(window: &Vec<u8>, start: usize) -> (u: u32) {
        let n = window.len();
        proof {
            assert(start + 4 <= n);
        }
        let b0 = window[start] as u32;
        let b1 = window[start + 1] as u32;
        let b2 = window[start + 2] as u32;
        let b3 = window[start + 3] as u32;
        let u = b0 | (b1 << 8) | (b2 << 16) | (b3 << 24);
        proof {
            let blob = window@.subrange(start as int, start + 4);
            assert(blob[0] == window@[start as int]);
            assert(blob[1] == window@[start + 1]);
            assert(blob[2] == window@[start + 2]);
            assert(blob[3] == window@[start + 3]);
        }
        u
    }

    fn convert_unit_to_blob(data: u32) -> (blob: Vec<u8>) {
        let mut blob: Vec<u8> = Vec::new();
        blob.push((data & 0xff) as u8);
        blob.push(((data >> 8) & 0xff) as u8);
        blob.push(((data >> 16) & 0xff) as u8);
        blob.push(((data >> 24) & 0xff) as u8);
        proof {
            assert(blob@ =~= Self::spec_unit_to_blob(data));
        }
        blob
    }

    fn file_state(&self) -> (s: &FileState<u32>) {
        &self.state
    }

    fn take_file_state(&mut self) -> (s: FileState<u32>) {
        let mut s = FileState::Undefined;
        core::mem::swap(&mut s, &mut self.state);
        s
    }

    fn set_file_state(&mut self, s: FileState<u32>) {
        self.state = s;
    }

    fn error_state(&self) -> (e: usize) {
        self.error
    }

    fn set_error_state(&mut self, e: usize) {
        self.error = e;
    }
}

} // verus!

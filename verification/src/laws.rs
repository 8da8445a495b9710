//! Laws of the buffering engines and primitive operations, stated and
//! proved over the mathematical models.

use vstd::prelude::*;

use crate::block::spec_block_refill;
use crate::capability::PascalFile;
use crate::line::spec_line_at_eoln;
use crate::line::spec_line_refill;
use crate::ops::spec_after_peek;
use crate::ops::spec_can_peek;
use crate::ops::spec_get;
use crate::ops::spec_can_test_eof;
use crate::ops::spec_can_test_eoln;
use crate::ops::spec_eof_value;
use crate::ops::spec_eoln_value;
use crate::ops::spec_peek_value;
use crate::ops::spec_resolve;
use crate::source::line_len;
use crate::source::NEWLINE;
use crate::state::line_buf_wf;
use crate::state::model_wf;
use crate::state::BlockBufModel;
use crate::state::FileModel;
use crate::state::LineBufModel;

verus! {

/// On a text input whose current physical line does not end with a
/// terminator (the end of the input, in particular), the refilled line
/// still ends with one: it is synthesized, the engine notes that no more
/// lines follow, and end-of-line is true at that final position.
pub proof fn lemma_last_line_synthesized<F: PascalFile>(src: Seq<u8>, initial: bool)
    requires
        !(initial && src.len() == 0),
    ensures
        ({
            let buf = spec_line_refill::<F>(src, initial).1;
            let units0 = F::spec_line_units(F::spec_normalize(src.take(line_len(src) as int)));
            &&& buf is Loaded
            &&& F::spec_is_eoln_unit(buf->units.last())
            &&& ((units0.len() == 0 || !F::spec_is_eoln_unit(units0.last())) ==> {
                &&& buf->no_more
                &&& buf->units.last() == F::spec_eoln_unit()
            })
        }),
{
    F::lemma_eoln_unit_is_terminator();
}

/// At the final position of a loaded line, the lookahead unit is the line's
/// closing terminator, so end-of-line is true there.
pub proof fn lemma_eoln_true_at_line_end<F: PascalFile>(src: Seq<u8>, buf: LineBufModel<F::Unit>)
    requires
        line_buf_wf::<F>(buf),
        buf matches LineBufModel::Loaded { units, pos, .. } && pos == units.len() - 1,
    ensures
        spec_line_at_eoln::<F>(src, buf),
{
}

/// On an empty input opened fresh, end-of-file is immediately true in
/// either reading mode, and a peek or advance before testing it is a usage
/// error (its precondition does not hold).
pub proof fn lemma_empty_input_eof<F: PascalFile>(src: Seq<u8>)
    requires
        src.len() == 0,
        F::spec_unit_size() >= 1,
    ensures
        ({
            let text = FileModel::<F::Unit>::LineReading {
                buf: LineBufModel::Unknown { initial: true },
                src,
                extra_eoln: false,
            };
            &&& spec_eof_value::<F>(text)
            &&& !spec_can_peek::<F>(text)
        }),
        ({
            let binary = FileModel::<F::Unit>::BlockReading { buf: BlockBufModel::Unknown, src };
            &&& spec_eof_value::<F>(binary)
            &&& !spec_can_peek::<F>(binary)
        }),
{
}

/// Peeking changes nothing a later operation can observe: the peeked unit
/// is returned identically by repeated peeks without an intervening
/// advance, and a second peek leaves the state exactly where the first
/// left it.
pub proof fn lemma_peek_idempotent<F: PascalFile>(m: FileModel<F::Unit>)
    requires
        model_wf::<F>(m),
        spec_can_peek::<F>(m),
    ensures
        spec_can_peek::<F>(spec_after_peek::<F>(m)),
        spec_peek_value::<F>(spec_after_peek::<F>(m)) == spec_peek_value::<F>(m),
        spec_after_peek::<F>(spec_after_peek::<F>(m)) == spec_after_peek::<F>(m),
        model_wf::<F>(spec_after_peek::<F>(m)),
{
    let m1 = spec_after_peek::<F>(m);
    match m {
        FileModel::LineReading { buf: LineBufModel::Unknown { initial }, src, .. } => {
            crate::line::lemma_line_refill_wf::<F>(src, initial);
        },
        FileModel::BlockReading { buf, src } => {
            crate::block::lemma_block_resolve_wf::<F>(src, buf);
        },
        _ => {},
    }
    assert(spec_after_peek::<F>(m1) =~~= m1);
}

/// A refill never loses unconsumed trailing bytes: whenever it yields a
/// loaded window, that window starts with exactly the bytes that sat after
/// the consumed unit, and they all stay among the valid bytes.
pub proof fn lemma_refill_preserves_tail<F: PascalFile>(
    src: Seq<u8>,
    window: Seq<u8>,
    avail: int,
    pos: int,
)
    requires
        F::spec_unit_size() >= 1,
        0 <= pos,
        pos + F::spec_unit_size() <= avail <= window.len(),
    ensures
        ({
            let l = avail - pos - F::spec_unit_size();
            let refilled = spec_block_refill::<F>(src, window, avail, pos).1;
            refilled matches BlockBufModel::Loaded { window: w2, avail: a2, .. } ==> {
                &&& a2 >= l
                &&& w2.subrange(0, l) == window.subrange(pos + F::spec_unit_size(), avail)
            }
        }),
{
    let size = F::spec_unit_size() as int;
    let l = avail - pos - size;
    let leftover = window.subrange(pos + size, avail);
    let compacted = leftover + window.skip(l);
    let refilled = spec_block_refill::<F>(src, window, avail, pos).1;
    if l >= size {
        assert(compacted.subrange(0, l) =~= leftover);
    } else if l + src.len() < size {
    } else {
        let n1 = vstd::math::min(window.len() - l, src.len() as int);
        let window2 = leftover + src.take(n1) + compacted.skip(l + n1);
        assert(window2.subrange(0, l) =~= leftover);
    }
}

/// Testing end-of-file never changes what is observable: the answer is the
/// same on the state it leaves behind, and testing twice leaves the state
/// where one test left it.
pub proof fn lemma_eof_idempotent<F: PascalFile>(m: FileModel<F::Unit>)
    requires
        model_wf::<F>(m),
        spec_can_test_eof::<F>(m),
    ensures
        spec_can_test_eof::<F>(spec_resolve::<F>(m)),
        spec_eof_value::<F>(spec_resolve::<F>(m)) == spec_eof_value::<F>(m),
        spec_resolve::<F>(spec_resolve::<F>(m)) == spec_resolve::<F>(m),
{
    let m1 = spec_resolve::<F>(m);
    assert(spec_resolve::<F>(m1) =~~= m1);
}

/// Testing end-of-line never changes what is observable, in the same
/// sense.
pub proof fn lemma_eoln_idempotent<F: PascalFile>(m: FileModel<F::Unit>)
    requires
        model_wf::<F>(m),
        spec_can_test_eoln::<F>(m),
    ensures
        spec_can_test_eoln::<F>(spec_resolve::<F>(m)),
        spec_eoln_value::<F>(spec_resolve::<F>(m)) == spec_eoln_value::<F>(m),
        spec_resolve::<F>(spec_resolve::<F>(m)) == spec_resolve::<F>(m),
{
    let m1 = spec_resolve::<F>(m);
    assert(spec_resolve::<F>(m1) =~~= m1);
}

/// The byte stream that committing each unit in turn leaves in a sink:
/// the concatenation of the units' blobs. One stage-and-commit appends one
/// blob (the commit contract); over a whole sequence the sink holds this.
pub open spec fn blobs_of<F: PascalFile>(units: Seq<F::Unit>) -> Seq<u8>
    decreases units.len(),
{
    if units.len() == 0 {
        Seq::empty()
    } else {
        F::spec_unit_to_blob(units[0]) + blobs_of::<F>(units.skip(1))
    }
}

pub proof fn lemma_blobs_len<F: PascalFile>(units: Seq<F::Unit>)
    ensures
        blobs_of::<F>(units).len() == units.len() * F::spec_unit_size(),
    decreases units.len(),
{
    if units.len() == 0 {
    } else {
        F::lemma_blob_round_trip(units[0]);
        lemma_blobs_len::<F>(units.skip(1));
        assert(units.len() * F::spec_unit_size() == (units.len() - 1) * F::spec_unit_size()
            + F::spec_unit_size()) by (nonlinear_arith);
    }
}

/// The units that `n` reads (peek, then advance) yield in turn from a
/// given state.
pub open spec fn spec_read_units<F: PascalFile>(m: FileModel<F::Unit>, n: nat) -> Seq<F::Unit>
    decreases n,
{
    if n == 0 {
        Seq::empty()
    } else {
        seq![spec_peek_value::<F>(m)] + spec_read_units::<F>(
            spec_get::<F>(spec_after_peek::<F>(m)),
            (n - 1) as nat,
        )
    }
}

/// The unconsumed byte stream of a block-reading state: the valid window
/// bytes past the cursor, then the bytes the source still holds.
pub open spec fn block_stream<F: PascalFile>(m: FileModel<F::Unit>) -> Seq<u8>
    recommends
        m is BlockReading,
{
    match m {
        FileModel::BlockReading { buf, src } => match buf {
            BlockBufModel::Unknown => src,
            BlockBufModel::Loaded { window, avail, pos, .. } => window.subrange(pos, avail) + src,
            BlockBufModel::Eof => Seq::empty(),
        },
        _ => Seq::empty(),
    }
}

/// Reading from a block state whose unconsumed stream is exactly the blob
/// concatenation of `units` yields those units back, one per read.
#[verifier::rlimit(100)]
#[verifier::spinoff_prover]
pub proof fn lemma_block_stream_reads<F: PascalFile>(m: FileModel<F::Unit>, units: Seq<F::Unit>)
    requires
        model_wf::<F>(m),
        m is BlockReading,
        !(m->BlockReading_buf is Eof),
        block_stream::<F>(m) == blobs_of::<F>(units),
    ensures
        spec_read_units::<F>(m, units.len()) == units,
    decreases units.len(),
{
    F::lemma_unit_size_positive();
    let size = F::spec_unit_size() as int;
    if units.len() == 0 {
        assert(spec_read_units::<F>(m, 0) =~= units);
    } else {
        lemma_blobs_len::<F>(units);
        assert(blobs_of::<F>(units).len() == units.len() * size);
        assert(units.len() * size >= 1 * size) by (nonlinear_arith)
            requires
                units.len() >= 1,
                size >= 0,
        ;
        let src = m->BlockReading_src;
        let buf = m->BlockReading_buf;
        crate::block::lemma_block_resolve_wf::<F>(src, buf);
        let resolved = crate::block::spec_block_resolve::<F>(src, buf);
        // Resolving keeps the stream, and cannot reach end-of-file while a
        // whole unit remains unconsumed.
        if buf is Unknown {
            let start = crate::block::spec_block_start::<F>();
            let q = crate::block::IDEAL_BUFSIZE as int / size;
            vstd::arithmetic::div_mod::lemma_div_pos_is_pos(
                crate::block::IDEAL_BUFSIZE as int,
                size,
            );
            assert((q + 1) * size >= size) by (nonlinear_arith)
                requires
                    q >= 0,
                    size >= 1,
            ;
            let dest = (q + 1) * size;
            assert(start.0.subrange(dest - size + size, dest) =~= Seq::<u8>::empty());
            let l = 0int;
            assert(src.len() >= size);
            let n1 = vstd::math::min(start.0.len() - l, src.len() as int);
            assert(resolved.1 matches BlockBufModel::Loaded { window, avail, pos, .. } && pos == 0
                && avail == n1 && window.subrange(0, n1) == src.take(n1)) by {
                assert((Seq::<u8>::empty() + start.0.skip(0)).skip(l + n1) == start.0.skip(n1));
                assert((Seq::<u8>::empty() + src.take(n1) + start.0.skip(n1)).subrange(0, n1)
                    =~= src.take(n1));
            }
            assert(block_stream::<F>(
                FileModel::BlockReading { buf: resolved.1, src: resolved.0 },
            ) =~= src);
        }
        let m1 = FileModel::<F::Unit>::BlockReading { buf: resolved.1, src: resolved.0 };
        assert(block_stream::<F>(m1) == blobs_of::<F>(units));
        let window1 = resolved.1->window;
        let avail1 = resolved.1->avail;
        let pos1 = resolved.1->pos;
        let src1 = resolved.0;
        // The blob at the cursor is the first unit's blob.
        F::lemma_blob_round_trip(units[0]);
        assert(window1.subrange(pos1, pos1 + size) =~= block_stream::<F>(m1).take(size));
        assert(blobs_of::<F>(units).take(size) =~= F::spec_unit_to_blob(units[0]));
        assert(spec_peek_value::<F>(m) == units[0]);
        // The advance after the peek leaves the stream of the remaining
        // units, whether or not it refills.
        let m2 = spec_after_peek::<F>(m);
        assert(m2 == (FileModel::BlockReading {
            buf: BlockBufModel::Loaded {
                window: window1,
                avail: avail1,
                pos: pos1,
                cache: Some(units[0]),
            },
            src: src1,
        }));
        lemma_blobs_len::<F>(units.skip(1));
        assert(blobs_of::<F>(units).skip(size) =~= blobs_of::<F>(units.skip(1)));
        let m3 = spec_get::<F>(m2);
        if avail1 - (pos1 + size) < size {
            crate::block::lemma_block_refill_wf::<F>(src1, window1, avail1, pos1);
            let l2 = avail1 - pos1 - size;
            let leftover = window1.subrange(pos1 + size, avail1);
            let compacted = leftover + window1.skip(l2);
            assert(leftover + src1 =~= blobs_of::<F>(units.skip(1))) by {
                assert(leftover =~= window1.subrange(pos1, avail1).skip(size));
            }
            if l2 + src1.len() < size {
                assert((units.len() - 1) * size < size);
                assert(units.len() == 1) by (nonlinear_arith)
                    requires
                        (units.len() - 1) * size < size,
                        size >= 1,
                        units.len() >= 1,
                ;
                assert(spec_read_units::<F>(m3, 0) =~= Seq::<F::Unit>::empty());
                assert(spec_read_units::<F>(m, units.len()) =~= units);
            } else {
                let n2 = vstd::math::min(window1.len() - l2, src1.len() as int);
                let window2 = leftover + src1.take(n2) + compacted.skip(l2 + n2);
                assert(window2.subrange(0, l2 + n2) + src1.skip(n2) =~= leftover + src1) by {
                    assert(window2.subrange(0, l2 + n2) =~= leftover + src1.take(n2));
                }
                assert(block_stream::<F>(m3) == blobs_of::<F>(units.skip(1)));
                lemma_block_stream_reads::<F>(m3, units.skip(1));
                assert(spec_read_units::<F>(m, units.len()) =~= units);
            }
        } else {
            assert(window1.subrange(pos1 + size, avail1) + src1 =~= blobs_of::<F>(units.skip(1)))
                by {
                assert(window1.subrange(pos1 + size, avail1) =~= window1.subrange(
                    pos1,
                    avail1,
                ).skip(size));
            }
            assert(block_stream::<F>(m3) == blobs_of::<F>(units.skip(1)));
            lemma_block_stream_reads::<F>(m3, units.skip(1));
            assert(spec_read_units::<F>(m, units.len()) =~= units);
        }
    }
}

/// Round trip for binary files: committing each of a sequence of units via
/// the buffer variable leaves a sink holding the concatenation of their
/// blobs (the commit contract, applied in turn); reopening those same
/// bytes as a fresh block-reading source and reading unit by unit yields
/// the same units back.
pub proof fn lemma_round_trip_binary<F: PascalFile>(units: Seq<F::Unit>)
    ensures
        spec_read_units::<F>(
            FileModel::BlockReading {
                buf: BlockBufModel::Unknown,
                src: blobs_of::<F>(units),
            },
            units.len(),
        ) == units,
{
    let m = FileModel::<F::Unit>::BlockReading {
        buf: BlockBufModel::Unknown,
        src: blobs_of::<F>(units),
    };
    lemma_block_stream_reads::<F>(m, units);
}

/// Round trip for text files of byte units, one line at a time: a line
/// without inner terminators, written with its closing terminator, is read
/// back as exactly that line's bytes up to terminator normalization, and
/// the rest of the input is left for the following refills.
pub proof fn lemma_text_refill_line(line: Seq<u8>, rest: Seq<u8>, initial: bool)
    requires
        forall|k: int| 0 <= k < line.len() ==> line[k] != NEWLINE,
    ensures
        spec_line_refill::<crate::units::TextByteFile>(line.push(NEWLINE) + rest, initial) == (
            rest,
            LineBufModel::<u8>::Loaded {
                units: crate::units::TextByteFile::spec_normalize(line.push(NEWLINE)),
                pos: 0,
                no_more: false,
            },
        ),
{
    let src = line.push(NEWLINE) + rest;
    assert(forall|k: int| 0 <= k < line.len() ==> src[k] != NEWLINE);
    assert(src[line.len() as int] == NEWLINE);
    crate::source::lemma_line_len_at(src, line.len() as int);
    assert(line_len(src) == line.len() + 1);
    assert(src.take(line.len() as int + 1) =~= line.push(NEWLINE));
    assert(src.skip(line.len() as int + 1) =~= rest);
    let raw = line.push(NEWLINE);
    let units = crate::units::TextByteFile::spec_normalize(raw);
    assert(units.len() > 0 && units.last() == NEWLINE);
}

} // verus!

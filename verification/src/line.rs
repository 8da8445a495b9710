//! The line-buffer engine: lazy line-at-a-time lookahead for text-mode
//! reads. The transitions are stated as spec functions over the model and
//! carried out by the executable refill.

use vstd::prelude::*;

use crate::capability::PascalFile;
use crate::source::line_len;
use crate::source::LineSource;
use crate::state::line_buf_wf;
use crate::state::LineBufModel;
use crate::state::LineBufferState;

verus! {

/// One refill on a source whose unread bytes are `src`: reads one physical
/// line, normalizes it, converts it to units, and appends a synthesized
/// terminator when the line does not end with one (marking that no more
/// lines follow). Only the very first refill of an empty file goes straight
/// to end-of-file.
pub open spec fn spec_line_refill<F: PascalFile>(src: Seq<u8>, initial: bool) -> (
    Seq<u8>,
    LineBufModel<F::Unit>,
) {
    let rest = src.skip(line_len(src) as int);
    if initial && src.len() == 0 {
        (rest, LineBufModel::Eof)
    } else {
        let units0 = F::spec_line_units(F::spec_normalize(src.take(line_len(src) as int)));
        let no_more = units0.len() == 0 || !F::spec_is_eoln_unit(units0.last());
        let units = if no_more {
            units0.push(F::spec_eoln_unit())
        } else {
            units0
        };
        (rest, LineBufModel::Loaded { units, pos: 0, no_more })
    }
}

/// The buffer with a pending refill performed; a loaded or exhausted buffer
/// is already resolved.
pub open spec fn spec_line_resolve<F: PascalFile>(src: Seq<u8>, buf: LineBufModel<F::Unit>) -> (
    Seq<u8>,
    LineBufModel<F::Unit>,
) {
    match buf {
        LineBufModel::Unknown { initial } => spec_line_refill::<F>(src, initial),
        _ => (src, buf),
    }
}

/// Whether the engine is at end-of-file, refilling first if a refill is
/// pending.
pub open spec fn spec_line_at_eof<F: PascalFile>(
    src: Seq<u8>,
    buf: LineBufModel<F::Unit>,
) -> bool {
    spec_line_resolve::<F>(src, buf).1 is Eof
}

/// The unit at the lookahead position, refilling first if a refill is
/// pending.
pub open spec fn spec_line_peek<F: PascalFile>(
    src: Seq<u8>,
    buf: LineBufModel<F::Unit>,
) -> F::Unit
    recommends
        !spec_line_at_eof::<F>(src, buf),
{
    let resolved = spec_line_resolve::<F>(src, buf).1;
    resolved->units[resolved->pos]
}

/// Whether the lookahead unit is a line terminator.
pub open spec fn spec_line_at_eoln<F: PascalFile>(
    src: Seq<u8>,
    buf: LineBufModel<F::Unit>,
) -> bool
    recommends
        !spec_line_at_eof::<F>(src, buf),
{
    F::spec_is_eoln_unit(spec_line_peek::<F>(src, buf))
}

/// One advance of the lookahead: move within the loaded line; at its last
/// unit, either reach end-of-file (when no more lines follow) or defer the
/// next refill. An advance on a pending refill performs just the refill.
pub open spec fn spec_line_advance<F: PascalFile>(src: Seq<u8>, buf: LineBufModel<F::Unit>) -> (
    Seq<u8>,
    LineBufModel<F::Unit>,
) {
    match buf {
        LineBufModel::Unknown { initial } => spec_line_refill::<F>(src, initial),
        LineBufModel::Loaded { units, pos, no_more } => {
            if pos + 1 < units.len() {
                (src, LineBufModel::Loaded { units, pos: pos + 1, no_more })
            } else if no_more {
                (src, LineBufModel::Eof)
            } else {
                (src, LineBufModel::Unknown { initial: false })
            }
        },
        LineBufModel::Eof => (src, LineBufModel::Eof),
    }
}

/// A refill always yields a well-formed buffer: a loaded line is never
/// empty and always ends with a terminator unit.
pub proof fn lemma_line_refill_wf<F: PascalFile>(src: Seq<u8>, initial: bool)
    ensures
        line_buf_wf::<F>(spec_line_refill::<F>(src, initial).1),
{
    if !(initial && src.len() == 0) {
        F::lemma_eoln_unit_is_terminator();
    }
}

/// Runs the refill algorithm on the owned source, yielding the next buffer
/// state.
pub fn refill_line<F: PascalFile>(src: &mut LineSource, initial_line: bool) -> (buf:
    LineBufferState<F::Unit>)
    requires
        old(src).wf(),
    ensures
        final(src).wf(),
        final(src)@ == spec_line_refill::<F>(old(src)@, initial_line).0,
        buf@ == spec_line_refill::<F>(old(src)@, initial_line).1,
        line_buf_wf::<F>(buf@),
{
    proof {
        lemma_line_refill_wf::<F>(old(src)@, initial_line);
    }
    let ghost src0 = src@;
    let mut raw: Vec<u8> = Vec::new();
    src.read_line(&mut raw);
    proof {
        assert(raw@ =~= src0.take(line_len(src0) as int));
    }
    if initial_line && raw.len() == 0 {
        proof {
            crate::source::lemma_line_len_bound(src0);
            assert(line_len(src0) == 0);
            if src0.len() != 0 {
                assert(line_len(src0) >= 1);
            }
        }
        return LineBufferState::Eof;
    }
    F::convert_line_string_crlf_to_lf(&mut raw);
    let mut line_chars: Vec<F::Unit> = Vec::new();
    F::convert_line_string_to_units(&raw, &mut line_chars);
    proof {
        assert(line_chars@ =~= F::spec_line_units(
            F::spec_normalize(src0.take(line_len(src0) as int)),
        ));
    }
    let no_more = if line_chars.len() == 0 {
        true
    } else {
        !F::is_eoln_unit(&line_chars[line_chars.len() - 1])
    };
    if no_more {
        line_chars.push(F::eoln_unit());
    }
    LineBufferState::AfterReadLine {
        line_buffer: line_chars,
        line_position: 0,
        line_no_more: no_more,
    }
}

} // verus!

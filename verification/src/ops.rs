//! The primitive operations on a file handle: open for read or write, stage
//! and commit the buffer variable, peek, advance, end-of-file and
//! end-of-line tests, direct writes, flush, line skip, interactive resume,
//! last-error query and close.
//!
//! Every operation takes the owned state out of the handle, replaces it by
//! the next state, and puts it back; its contract states the new state as a
//! spec-level transition of the old one. Calling an operation in a mode it
//! is not defined for is a usage error, ruled out by its `requires`; a
//! caller outside verified code must test the mode first.

use vstd::prelude::*;

use crate::block::refill_block;
use crate::block::spec_block_at_eof;
use crate::block::spec_block_peek;
use crate::block::spec_block_advance;
use crate::block::spec_block_resolve;
use crate::capability::PascalFile;
use crate::capability::ToBlob;
use crate::line::refill_line;
use crate::line::spec_line_at_eof;
use crate::line::spec_line_at_eoln;
use crate::line::spec_line_peek;
use crate::line::spec_line_advance;
use crate::line::spec_line_resolve;
use crate::source::ByteSink;
use crate::source::LineSource;
use crate::source::NEWLINE;
use crate::state::state_wf;
use crate::state::BlockBufModel;
use crate::state::BlockBufferState;
use crate::state::FileModel;
use crate::state::FileState;
use crate::state::LineBufModel;
use crate::state::LineBufferState;

verus! {

/// What an opening capability yields for a readable file: a line-oriented
/// source with its interactive-terminal flag, or a byte-oriented source.
pub enum OpenForRead {
    TextOpened { source: LineSource, is_terminal: bool },
    BinaryOpened { source: crate::source::ByteSource },
}

/// Whether an advance is defined on this state: the handle must be reading
/// and its buffer must not already have reached end-of-file.
pub open spec fn spec_can_advance<F: PascalFile>(m: FileModel<F::Unit>) -> bool {
    match m {
        FileModel::LineReading { buf, .. } => !(buf is Eof),
        FileModel::BlockReading { buf, .. } => !(buf is Eof),
        _ => false,
    }
}

/// Whether a peek is defined on this state: the handle must be reading and
/// not at end-of-file (refilling first if a refill is pending).
pub open spec fn spec_can_peek<F: PascalFile>(m: FileModel<F::Unit>) -> bool {
    match m {
        FileModel::LineReading { buf, src, .. } => !spec_line_at_eof::<F>(src, buf),
        FileModel::BlockReading { buf, src } => !spec_block_at_eof::<F>(src, buf),
        _ => false,
    }
}

/// The state with any pending refill performed; all other states are left
/// as they are.
pub open spec fn spec_resolve<F: PascalFile>(m: FileModel<F::Unit>) -> FileModel<F::Unit> {
    match m {
        FileModel::LineReading { buf, src, extra_eoln } => {
            let resolved = spec_line_resolve::<F>(src, buf);
            FileModel::LineReading { buf: resolved.1, src: resolved.0, extra_eoln }
        },
        FileModel::BlockReading { buf, src } => {
            let resolved = spec_block_resolve::<F>(src, buf);
            FileModel::BlockReading { buf: resolved.1, src: resolved.0 }
        },
        _ => m,
    }
}

/// The state after one advance of the lookahead.
pub open spec fn spec_get<F: PascalFile>(m: FileModel<F::Unit>) -> FileModel<F::Unit>
    recommends
        spec_can_advance::<F>(m),
{
    match m {
        FileModel::LineReading { buf, src, extra_eoln } => {
            let stepped = spec_line_advance::<F>(src, buf);
            FileModel::LineReading { buf: stepped.1, src: stepped.0, extra_eoln }
        },
        FileModel::BlockReading { buf, src } => {
            let stepped = spec_block_advance::<F>(src, buf);
            FileModel::BlockReading { buf: stepped.1, src: stepped.0 }
        },
        _ => m,
    }
}

/// The unit a peek returns on this state.
pub open spec fn spec_peek_value<F: PascalFile>(m: FileModel<F::Unit>) -> F::Unit
    recommends
        spec_can_peek::<F>(m),
{
    match m {
        FileModel::LineReading { buf, src, .. } => spec_line_peek::<F>(src, buf),
        FileModel::BlockReading { buf, src } => spec_block_peek::<F>(src, buf),
        _ => vstd::pervasive::arbitrary(),
    }
}

/// The state after a peek: any pending refill is performed, and in block
/// mode the decoded unit is cached at the cursor.
pub open spec fn spec_after_peek<F: PascalFile>(m: FileModel<F::Unit>) -> FileModel<F::Unit>
    recommends
        spec_can_peek::<F>(m),
{
    match spec_resolve::<F>(m) {
        FileModel::BlockReading { buf: BlockBufModel::Loaded { window, avail, pos, cache }, src } => {
            FileModel::BlockReading {
                buf: BlockBufModel::Loaded {
                    window,
                    avail,
                    pos,
                    cache: Some(spec_peek_value::<F>(m)),
                },
                src,
            }
        },
        resolved => resolved,
    }
}

/// Whether an end-of-file test is defined on this state: any mode but
/// closed (a writing handle reports end-of-file true by convention).
pub open spec fn spec_can_test_eof<F: PascalFile>(m: FileModel<F::Unit>) -> bool {
    !(m is Closed)
}

/// What the end-of-file test returns on this state.
pub open spec fn spec_eof_value<F: PascalFile>(m: FileModel<F::Unit>) -> bool
    recommends
        spec_can_test_eof::<F>(m),
{
    match m {
        FileModel::Writing { .. } => true,
        FileModel::LineReading { buf, src, .. } => spec_line_at_eof::<F>(src, buf),
        FileModel::BlockReading { buf, src } => spec_block_at_eof::<F>(src, buf),
        FileModel::Closed => true,
    }
}

/// Whether an end-of-line test is defined on this state: the handle must be
/// reading text and not at end-of-file.
pub open spec fn spec_can_test_eoln<F: PascalFile>(m: FileModel<F::Unit>) -> bool {
    m matches FileModel::LineReading { buf, src, .. } && !spec_line_at_eof::<F>(src, buf)
}

/// What the end-of-line test returns on this state: whether the lookahead
/// unit is a terminator.
pub open spec fn spec_eoln_value<F: PascalFile>(m: FileModel<F::Unit>) -> bool
    recommends
        spec_can_test_eoln::<F>(m),
{
    match m {
        FileModel::LineReading { buf, src, .. } => spec_line_at_eoln::<F>(src, buf),
        _ => false,
    }
}

/// Opens a file for reading. The opening capability's answer is handed in:
/// a source of the kind the unit type asks for, or the capability's error
/// code. An interactive text source is seeded with a single synthetic
/// terminator line and the handle remembers to re-seed one after each line
/// break; any other text source defers its first refill; a binary source
/// defers its first window fill. On failure the handle is closed and the
/// code recorded.
pub fn reset<F: PascalFile>(file: &mut F, opened: Result<OpenForRead, usize>)
    requires
        (opened matches Ok(o) ==> (o is TextOpened <==> F::spec_is_text_file())),
        (opened matches Ok(OpenForRead::TextOpened { source, .. }) ==> source.wf()),
        (opened matches Ok(OpenForRead::BinaryOpened { source }) ==> source.wf()),
    ensures
        state_wf::<F>(final(file).spec_state()),
        (opened matches Ok(OpenForRead::TextOpened { source, is_terminal }) ==> {
            &&& final(file).spec_state()@ == FileModel::LineReading {
                buf: if is_terminal {
                    LineBufModel::Loaded {
                        units: seq![F::spec_eoln_unit()],
                        pos: 0,
                        no_more: false,
                    }
                } else {
                    LineBufModel::Unknown { initial: true }
                },
                src: source@,
                extra_eoln: is_terminal,
            }
            &&& final(file).spec_error() == 0
        }),
        (opened matches Ok(OpenForRead::BinaryOpened { source }) ==> {
            &&& final(file).spec_state()@ == FileModel::BlockReading {
                buf: BlockBufModel::<F::Unit>::Unknown,
                src: source@,
            }
            &&& final(file).spec_error() == 0
        }),
        (opened matches Err(e) ==> {
            &&& final(file).spec_state()@ == FileModel::<F::Unit>::Closed
            &&& final(file).spec_error() == e
        }),
{
    match opened {
        Ok(OpenForRead::TextOpened { source, is_terminal }) => {
            if is_terminal {
                let mut line: Vec<F::Unit> = Vec::new();
                line.push(F::eoln_unit());
                proof {
                    assert(line@ =~= seq![F::spec_eoln_unit()]);
                    F::lemma_eoln_unit_is_terminator();
                }
                file.set_file_state(
                    FileState::LineInspectionMode {
                        read_line_buffer: LineBufferState::AfterReadLine {
                            line_buffer: line,
                            line_position: 0,
                            line_no_more: false,
                        },
                        read_target: source,
                        read_flag_extra_eoln_line: true,
                    },
                );
            } else {
                file.set_file_state(
                    FileState::LineInspectionMode {
                        read_line_buffer: LineBufferState::UnknownState { initial_line: true },
                        read_target: source,
                        read_flag_extra_eoln_line: false,
                    },
                );
            }
            file.set_error_state(0);
        },
        Ok(OpenForRead::BinaryOpened { source }) => {
            file.set_file_state(
                FileState::BlockInspectionMode {
                    read_block_buffer: BlockBufferState::UnknownState,
                    read_target: source,
                },
            );
            file.set_error_state(0);
        },
        Err(e) => {
            file.set_file_state(FileState::Undefined);
            file.set_error_state(e);
        },
    }
}

/// Opens a file for writing. The opening capability's answer is handed in:
/// a sink, or the capability's error code. On success the handle enters
/// writing mode with nothing staged; on failure it is closed and the code
/// recorded.
pub fn rewrite<F: PascalFile>(file: &mut F, opened: Result<ByteSink, usize>)
    ensures
        state_wf::<F>(final(file).spec_state()),
        (opened matches Ok(sink) ==> {
            &&& final(file).spec_state()@ == FileModel::<F::Unit>::Writing {
                staged: None,
                sink: sink@,
            }
            &&& final(file).spec_error() == 0
        }),
        (opened matches Err(e) ==> {
            &&& final(file).spec_state()@ == FileModel::<F::Unit>::Closed
            &&& final(file).spec_error() == e
        }),
{
    match opened {
        Ok(sink) => {
            file.set_file_state(
                FileState::GenerationMode { write_buffer: None, write_target: sink },
            );
            file.set_error_state(0);
        },
        Err(e) => {
            file.set_file_state(FileState::Undefined);
            file.set_error_state(e);
        },
    }
}

/// Stages a unit in the buffer variable, replacing any staged one. Only
/// defined in writing mode.
pub fn buffer_variable_assign<F: PascalFile>(file: &mut F, value: F::Unit)
    requires
        old(file).spec_state()@ is Writing,
    ensures
        final(file).spec_state()@ == (FileModel::Writing {
            staged: Some(value),
            sink: old(file).spec_state()@->sink,
        }),
        final(file).spec_error() == old(file).spec_error(),
        state_wf::<F>(final(file).spec_state()),
{
    let st = file.take_file_state();
    match st {
        FileState::GenerationMode { write_target, .. } => {
            file.set_file_state(
                FileState::GenerationMode { write_buffer: Some(value), write_target },
            );
        },
        _ => {
            proof {
                assert(false);
            }
        },
    }
}

/// Commits the staged unit: encodes it as its blob, writes the blob to the
/// sink, and clears the staged slot. Only defined in writing mode with a
/// unit staged ("nothing staged" is fatal).
pub fn put<F: PascalFile>(file: &mut F)
    requires
        old(file).spec_state()@ matches FileModel::Writing { staged, .. } && staged is Some,
    ensures
        final(file).spec_state()@ == (FileModel::<F::Unit>::Writing {
            staged: None,
            sink: old(file).spec_state()@->sink + F::spec_unit_to_blob(
                old(file).spec_state()@->staged->0,
            ),
        }),
        final(file).spec_error() == old(file).spec_error(),
        state_wf::<F>(final(file).spec_state()),
{
    let st = file.take_file_state();
    match st {
        FileState::GenerationMode { write_buffer: Some(value), mut write_target } => {
            let blob = F::convert_unit_to_blob(value);
            write_target.write_all(&blob);
            file.set_file_state(
                FileState::GenerationMode { write_buffer: None, write_target },
            );
        },
        _ => {
            proof {
                assert(false);
            }
        },
    }
}

/// Writes raw text bytes straight to the sink, discarding any staged unit
/// (a direct write supersedes a pending commit). Only defined in writing
/// mode.
pub fn write<F: PascalFile>(file: &mut F, val: &Vec<u8>)
    requires
        old(file).spec_state()@ is Writing,
    ensures
        final(file).spec_state()@ == (FileModel::<F::Unit>::Writing {
            staged: None,
            sink: old(file).spec_state()@->sink + val@,
        }),
        final(file).spec_error() == old(file).spec_error(),
        state_wf::<F>(final(file).spec_state()),
{
    let st = file.take_file_state();
    match st {
        FileState::GenerationMode { mut write_target, .. } => {
            write_target.write_all(val);
            file.set_file_state(
                FileState::GenerationMode { write_buffer: None, write_target },
            );
        },
        _ => {
            proof {
                assert(false);
            }
        },
    }
}

/// Writes raw text bytes and a line terminator, discarding any staged unit.
/// Only defined in writing mode.
pub fn write_ln<F: PascalFile>(file: &mut F, val: &Vec<u8>)
    requires
        old(file).spec_state()@ is Writing,
    ensures
        final(file).spec_state()@ == (FileModel::<F::Unit>::Writing {
            staged: None,
            sink: old(file).spec_state()@->sink + val@ + seq![NEWLINE],
        }),
        final(file).spec_error() == old(file).spec_error(),
        state_wf::<F>(final(file).spec_state()),
{
    let st = file.take_file_state();
    match st {
        FileState::GenerationMode { mut write_target, .. } => {
            write_target.write_all(val);
            write_target.write_byte(NEWLINE);
            proof {
                assert(write_target@ =~= old(file).spec_state()@->sink + val@ + seq![NEWLINE]);
            }
            file.set_file_state(
                FileState::GenerationMode { write_buffer: None, write_target },
            );
        },
        _ => {
            proof {
                assert(false);
            }
        },
    }
}

/// Writes a bare line terminator, discarding any staged unit. Only defined
/// in writing mode.
pub fn write_ln_noargs<F: PascalFile>(file: &mut F)
    requires
        old(file).spec_state()@ is Writing,
    ensures
        final(file).spec_state()@ == (FileModel::<F::Unit>::Writing {
            staged: None,
            sink: old(file).spec_state()@->sink + seq![NEWLINE],
        }),
        final(file).spec_error() == old(file).spec_error(),
        state_wf::<F>(final(file).spec_state()),
{
    let st = file.take_file_state();
    match st {
        FileState::GenerationMode { mut write_target, .. } => {
            write_target.write_byte(NEWLINE);
            proof {
                assert(write_target@ =~= old(file).spec_state()@->sink + seq![NEWLINE]);
            }
            file.set_file_state(
                FileState::GenerationMode { write_buffer: None, write_target },
            );
        },
        _ => {
            proof {
                assert(false);
            }
        },
    }
}

/// Writes a value's binary blob straight to the sink, discarding any staged
/// unit. Only defined in writing mode.
pub fn write_binary<F: PascalFile, T: ToBlob>(file: &mut F, val: T)
    requires
        old(file).spec_state()@ is Writing,
    ensures
        final(file).spec_state()@ == (FileModel::<F::Unit>::Writing {
            staged: None,
            sink: old(file).spec_state()@->sink + val.spec_to_blob(),
        }),
        final(file).spec_error() == old(file).spec_error(),
        state_wf::<F>(final(file).spec_state()),
{
    let st = file.take_file_state();
    match st {
        FileState::GenerationMode { mut write_target, .. } => {
            let blob = val.to_blob();
            write_target.write_all(&blob);
            file.set_file_state(
                FileState::GenerationMode { write_buffer: None, write_target },
            );
        },
        _ => {
            proof {
                assert(false);
            }
        },
    }
}

/// Forces pending output out of the sink, discarding any staged unit. Only
/// defined in writing mode.
pub fn break_out<F: PascalFile>(file: &mut F)
    requires
        old(file).spec_state()@ is Writing,
    ensures
        final(file).spec_state()@ == (FileModel::<F::Unit>::Writing {
            staged: None,
            sink: old(file).spec_state()@->sink,
        }),
        final(file).spec_error() == old(file).spec_error(),
        state_wf::<F>(final(file).spec_state()),
{
    let st = file.take_file_state();
    match st {
        FileState::GenerationMode { mut write_target, .. } => {
            write_target.flush();
            file.set_file_state(
                FileState::GenerationMode { write_buffer: None, write_target },
            );
        },
        _ => {
            proof {
                assert(false);
            }
        },
    }
}

/// The last open-time error code recorded on the handle; `0` means the last
/// open succeeded.
pub fn erstat<F: PascalFile>(file: &mut F) -> (e: usize)
    ensures
        e == old(file).spec_error(),
        final(file).spec_state() == old(file).spec_state(),
        final(file).spec_error() == old(file).spec_error(),
{
    file.error_state()
}

/// Closes the handle, dropping the owned target and its buffers. The
/// last-error code is left as it was.
pub fn close<F: PascalFile>(file: &mut F)
    ensures
        final(file).spec_state()@ == FileModel::<F::Unit>::Closed,
        final(file).spec_error() == old(file).spec_error(),
        state_wf::<F>(final(file).spec_state()),
{
    file.set_file_state(FileState::Undefined);
}

/// One advance of the lookahead. Advancing a handle that is closed, in
/// writing mode, or already at end-of-file is a usage error.
pub fn get<F: PascalFile>(file: &mut F)
    requires
        state_wf::<F>(old(file).spec_state()),
        spec_can_advance::<F>(old(file).spec_state()@),
    ensures
        state_wf::<F>(final(file).spec_state()),
        final(file).spec_state()@ == spec_get::<F>(old(file).spec_state()@),
        final(file).spec_error() == old(file).spec_error(),
{
    let st = file.take_file_state();
    let new_st = match st {
        FileState::LineInspectionMode {
            read_line_buffer,
            mut read_target,
            read_flag_extra_eoln_line,
        } => {
            let buf2 = match read_line_buffer {
                LineBufferState::Eof => vstd::pervasive::unreached(),
                LineBufferState::UnknownState { initial_line } => refill_line::<F>(
                    &mut read_target,
                    initial_line,
                ),
                LineBufferState::AfterReadLine { line_buffer, line_position, line_no_more } => {
                    if line_position < line_buffer.len() - 1 {
                        LineBufferState::AfterReadLine {
                            line_buffer,
                            line_position: line_position + 1,
                            line_no_more,
                        }
                    } else if line_no_more {
                        LineBufferState::Eof
                    } else {
                        LineBufferState::UnknownState { initial_line: false }
                    }
                },
            };
            FileState::LineInspectionMode {
                read_line_buffer: buf2,
                read_target,
                read_flag_extra_eoln_line,
            }
        },
        FileState::BlockInspectionMode { read_block_buffer, mut read_target } => {
            let buf2 = match read_block_buffer {
                BlockBufferState::Eof => vstd::pervasive::unreached(),
                BlockBufferState::UnknownState => refill_block::<F>(
                    &mut read_target,
                    BlockBufferState::UnknownState,
                ),
                BlockBufferState::AfterReadBlock {
                    bytes_block_buffer,
                    bytes_avail_length,
                    bytes_position,
                    bytes_buffer,
                } => {
                    let size: usize = F::unit_size();
                    proof {
                        F::lemma_unit_size_positive();
                    }
                    let pos_end: usize = bytes_position + size;
                    if bytes_avail_length - pos_end < size {
                        refill_block::<F>(
                            &mut read_target,
                            BlockBufferState::AfterReadBlock {
                                bytes_block_buffer,
                                bytes_avail_length,
                                bytes_position,
                                bytes_buffer,
                            },
                        )
                    } else {
                        BlockBufferState::AfterReadBlock {
                            bytes_block_buffer,
                            bytes_avail_length,
                            bytes_position: pos_end,
                            bytes_buffer: None,
                        }
                    }
                },
            };
            FileState::BlockInspectionMode { read_block_buffer: buf2, read_target }
        },
        _ => vstd::pervasive::unreached(),
    };
    file.set_file_state(new_st);
}

/// The lookahead unit, without consuming it: refills first if a refill is
/// pending, and in block mode caches the decoded unit so repeated peeks
/// decode only once. Peeking at end-of-file, or on a closed or writing
/// handle, is a usage error.
pub fn buffer_variable<F: PascalFile>(file: &mut F) -> (u: F::Unit) where F::Unit: Copy
    requires
        state_wf::<F>(old(file).spec_state()),
        spec_can_peek::<F>(old(file).spec_state()@),
    ensures
        state_wf::<F>(final(file).spec_state()),
        u == spec_peek_value::<F>(old(file).spec_state()@),
        final(file).spec_state()@ == spec_after_peek::<F>(old(file).spec_state()@),
        final(file).spec_error() == old(file).spec_error(),
{
    let st = file.take_file_state();
    match st {
        FileState::LineInspectionMode {
            read_line_buffer,
            mut read_target,
            read_flag_extra_eoln_line,
        } => {
            let buf2 = match read_line_buffer {
                LineBufferState::UnknownState { initial_line } => refill_line::<F>(
                    &mut read_target,
                    initial_line,
                ),
                other => other,
            };
            let u = match &buf2 {
                LineBufferState::AfterReadLine { line_buffer, line_position, .. } => {
                    line_buffer[*line_position]
                },
                _ => vstd::pervasive::unreached(),
            };
            file.set_file_state(
                FileState::LineInspectionMode {
                    read_line_buffer: buf2,
                    read_target,
                    read_flag_extra_eoln_line,
                },
            );
            u
        },
        FileState::BlockInspectionMode { read_block_buffer, mut read_target } => {
            let buf2 = match read_block_buffer {
                BlockBufferState::UnknownState => refill_block::<F>(
                    &mut read_target,
                    BlockBufferState::UnknownState,
                ),
                other => other,
            };
            match buf2 {
                BlockBufferState::AfterReadBlock {
                    bytes_block_buffer,
                    bytes_avail_length,
                    bytes_position,
                    bytes_buffer,
                } => {
                    let u = match bytes_buffer {
                        Some(v) => v,
                        None => F::convert_blob_to_unit(&bytes_block_buffer, bytes_position),
                    };
                    file.set_file_state(
                        FileState::BlockInspectionMode {
                            read_block_buffer: BlockBufferState::AfterReadBlock {
                                bytes_block_buffer,
                                bytes_avail_length,
                                bytes_position,
                                bytes_buffer: Some(u),
                            },
                            read_target,
                        },
                    );
                    u
                },
                _ => vstd::pervasive::unreached(),
            }
        },
        _ => vstd::pervasive::unreached(),
    }
}

/// Whether the handle is at end-of-file: a writing handle reports true by
/// convention, a reading handle refills first if a refill is pending.
/// Testing a closed handle is a usage error.
pub fn eof<F: PascalFile>(file: &mut F) -> (b: bool)
    requires
        state_wf::<F>(old(file).spec_state()),
        spec_can_test_eof::<F>(old(file).spec_state()@),
    ensures
        state_wf::<F>(final(file).spec_state()),
        b == spec_eof_value::<F>(old(file).spec_state()@),
        final(file).spec_state()@ == spec_resolve::<F>(old(file).spec_state()@),
        final(file).spec_error() == old(file).spec_error(),
{
    let st = file.take_file_state();
    match st {
        FileState::GenerationMode { write_buffer, write_target } => {
            file.set_file_state(FileState::GenerationMode { write_buffer, write_target });
            true
        },
        FileState::LineInspectionMode {
            read_line_buffer,
            mut read_target,
            read_flag_extra_eoln_line,
        } => {
            let buf2 = match read_line_buffer {
                LineBufferState::UnknownState { initial_line } => refill_line::<F>(
                    &mut read_target,
                    initial_line,
                ),
                other => other,
            };
            let b = match &buf2 {
                LineBufferState::Eof => true,
                _ => false,
            };
            file.set_file_state(
                FileState::LineInspectionMode {
                    read_line_buffer: buf2,
                    read_target,
                    read_flag_extra_eoln_line,
                },
            );
            b
        },
        FileState::BlockInspectionMode { read_block_buffer, mut read_target } => {
            let buf2 = match read_block_buffer {
                BlockBufferState::UnknownState => refill_block::<F>(
                    &mut read_target,
                    BlockBufferState::UnknownState,
                ),
                other => other,
            };
            let b = match &buf2 {
                BlockBufferState::Eof => true,
                _ => false,
            };
            file.set_file_state(
                FileState::BlockInspectionMode { read_block_buffer: buf2, read_target },
            );
            b
        },
        FileState::Undefined => vstd::pervasive::unreached(),
    }
}

/// Whether the lookahead unit is a line terminator, refilling first if a
/// refill is pending. Only defined on a text handle that is not at
/// end-of-file.
pub fn eoln<F: PascalFile>(file: &mut F) -> (b: bool) where F::Unit: Copy
    requires
        state_wf::<F>(old(file).spec_state()),
        spec_can_test_eoln::<F>(old(file).spec_state()@),
    ensures
        state_wf::<F>(final(file).spec_state()),
        b == spec_eoln_value::<F>(old(file).spec_state()@),
        final(file).spec_state()@ == spec_resolve::<F>(old(file).spec_state()@),
        final(file).spec_error() == old(file).spec_error(),
{
    let st = file.take_file_state();
    match st {
        FileState::LineInspectionMode {
            read_line_buffer,
            mut read_target,
            read_flag_extra_eoln_line,
        } => {
            let buf2 = match read_line_buffer {
                LineBufferState::UnknownState { initial_line } => refill_line::<F>(
                    &mut read_target,
                    initial_line,
                ),
                other => other,
            };
            let b = match &buf2 {
                LineBufferState::AfterReadLine { line_buffer, line_position, .. } => {
                    let u: F::Unit = line_buffer[*line_position];
                    F::is_eoln_unit(&u)
                },
                _ => vstd::pervasive::unreached(),
            };
            file.set_file_state(
                FileState::LineInspectionMode {
                    read_line_buffer: buf2,
                    read_target,
                    read_flag_extra_eoln_line,
                },
            );
            b
        },
        _ => vstd::pervasive::unreached(),
    }
}

/// Reads one unit: peek, then advance; returns the peeked unit.
pub fn read_onearg<F: PascalFile>(file: &mut F) -> (u: F::Unit) where F::Unit: Copy
    requires
        state_wf::<F>(old(file).spec_state()),
        spec_can_peek::<F>(old(file).spec_state()@),
    ensures
        state_wf::<F>(final(file).spec_state()),
        u == spec_peek_value::<F>(old(file).spec_state()@),
        final(file).spec_state()@ == spec_get::<F>(spec_after_peek::<F>(old(file).spec_state()@)),
        final(file).spec_error() == old(file).spec_error(),
{
    let v = buffer_variable(file);
    get(file);
    v
}

/// The position of the first terminator unit at or after `pos`; the last
/// unit of a well-formed line, at the latest.
pub open spec fn first_term_at<F: PascalFile>(units: Seq<F::Unit>, pos: int) -> int
    recommends
        0 <= pos < units.len(),
        F::spec_is_eoln_unit(units.last()),
    decreases units.len() - pos,
{
    if pos < 0 || pos >= units.len() {
        units.len() - 1
    } else if F::spec_is_eoln_unit(units[pos]) {
        pos
    } else {
        first_term_at::<F>(units, pos + 1)
    }
}

/// The state after skipping to the end of the line: advance up to the
/// first terminator at or after the lookahead position, then once more
/// past it.
pub open spec fn spec_read_ln<F: PascalFile>(m: FileModel<F::Unit>) -> FileModel<F::Unit>
    recommends
        spec_can_test_eoln::<F>(m),
{
    match spec_resolve::<F>(m) {
        FileModel::LineReading {
            buf: LineBufModel::Loaded { units, pos, no_more },
            src,
            extra_eoln,
        } => {
            let t = first_term_at::<F>(units, pos);
            let buf2 = if t + 1 < units.len() {
                LineBufModel::Loaded { units, pos: t + 1, no_more }
            } else if no_more {
                LineBufModel::Eof
            } else {
                LineBufModel::Unknown { initial: false }
            };
            FileModel::LineReading { buf: buf2, src, extra_eoln }
        },
        r => r,
    }
}

/// Loop measure for the line skip: how far the lookahead position is from
/// the end of the loaded line.
pub open spec fn spec_line_measure<F: PascalFile>(m: FileModel<F::Unit>) -> int {
    match m {
        FileModel::LineReading { buf: LineBufModel::Loaded { units, pos, .. }, .. } => units.len()
            - pos,
        _ => 0,
    }
}

/// Skips to the end of the current line: advances while the lookahead is
/// not a terminator, then once more past the terminator. Only defined on a
/// text handle that is not at end-of-file.
pub fn read_ln<F: PascalFile>(file: &mut F) where F::Unit: Copy
    requires
        state_wf::<F>(old(file).spec_state()),
        spec_can_test_eoln::<F>(old(file).spec_state()@),
    ensures
        state_wf::<F>(final(file).spec_state()),
        final(file).spec_state()@ == spec_read_ln::<F>(old(file).spec_state()@),
        final(file).spec_error() == old(file).spec_error(),
{
    let ghost m0 = old(file).spec_state()@;
    let mut done = eoln(file);
    while !done
        invariant
            state_wf::<F>(file.spec_state()),
            file.spec_error() == old(file).spec_error(),
            spec_can_test_eoln::<F>(file.spec_state()@),
            (file.spec_state()@ matches FileModel::LineReading { buf, .. } && buf is Loaded),
            done == spec_eoln_value::<F>(file.spec_state()@),
            spec_read_ln::<F>(file.spec_state()@) == spec_read_ln::<F>(m0),
        decreases spec_line_measure::<F>(file.spec_state()@),
    {
        get(file);
        done = eoln(file);
    }
    get(file);
}

/// Resumes input after a line break: at the last line, reach end-of-file;
/// on an interactive handle, re-seed a synthetic single-terminator line
/// (so a fresh read again reports end-of-line true); otherwise defer the
/// next refill. A pending refill or end-of-file is left as it is. Only
/// defined on a text handle.
pub fn break_in<F: PascalFile>(file: &mut F, _force: bool)
    requires
        state_wf::<F>(old(file).spec_state()),
        old(file).spec_state()@ is LineReading,
    ensures
        state_wf::<F>(final(file).spec_state()),
        final(file).spec_state()@ == spec_break_in::<F>(old(file).spec_state()@),
        final(file).spec_error() == old(file).spec_error(),
{
    let st = file.take_file_state();
    match st {
        FileState::LineInspectionMode {
            read_line_buffer,
            read_target,
            read_flag_extra_eoln_line,
        } => {
            let buf2 = match read_line_buffer {
                LineBufferState::AfterReadLine { line_buffer, line_position, line_no_more } => {
                    if line_no_more {
                        LineBufferState::Eof
                    } else if read_flag_extra_eoln_line {
                        let mut line: Vec<F::Unit> = Vec::new();
                        line.push(F::eoln_unit());
                        proof {
                            assert(line@ =~= seq![F::spec_eoln_unit()]);
                            F::lemma_eoln_unit_is_terminator();
                        }
                        LineBufferState::AfterReadLine {
                            line_buffer: line,
                            line_position: 0,
                            line_no_more: false,
                        }
                    } else {
                        LineBufferState::UnknownState { initial_line: false }
                    }
                },
                other => other,
            };
            file.set_file_state(
                FileState::LineInspectionMode {
                    read_line_buffer: buf2,
                    read_target,
                    read_flag_extra_eoln_line,
                },
            );
        },
        _ => {
            proof {
                assert(false);
            }
        },
    }
}

/// The state after resuming input past a line break.
pub open spec fn spec_break_in<F: PascalFile>(m: FileModel<F::Unit>) -> FileModel<F::Unit>
    recommends
        m is LineReading,
{
    match m {
        FileModel::LineReading {
            buf: LineBufModel::Loaded { units, pos, no_more },
            src,
            extra_eoln,
        } => {
            let buf2 = if no_more {
                LineBufModel::Eof
            } else if extra_eoln {
                LineBufModel::Loaded { units: seq![F::spec_eoln_unit()], pos: 0, no_more: false }
            } else {
                LineBufModel::Unknown { initial: false }
            };
            FileModel::LineReading { buf: buf2, src, extra_eoln }
        },
        r => r,
    }
}

} // verus!

//! The file-state machine's data model: the mode-exclusive file state, the
//! two lazy buffer sub-machines it owns, and the mathematical models the
//! contracts speak of.

use vstd::prelude::*;

use crate::capability::PascalFile;
use crate::source::ByteSink;
use crate::source::ByteSource;
use crate::source::LineSource;

verus! {

/// The line-buffer engine's sub-machine: not yet refilled, holding the units
/// of the current line, or past the end of the file.
pub enum LineBufferState<T> {
    UnknownState { initial_line: bool },
    AfterReadLine { line_buffer: Vec<T>, line_position: usize, line_no_more: bool },
    Eof,
}

/// The block-buffer engine's sub-machine: not yet allocated, holding a
/// sliding byte window with a cursor and an optional cached decoded unit, or
/// past the end of the file.
pub enum BlockBufferState<T> {
    UnknownState,
    AfterReadBlock {
        bytes_block_buffer: Vec<u8>,
        bytes_avail_length: usize,
        bytes_position: usize,
        bytes_buffer: Option<T>,
    },
    Eof,
}

/// The mode a file handle is in, owning the active buffer engine and the
/// active I/O target exclusively.
pub enum FileState<T> {
    Undefined,
    GenerationMode { write_buffer: Option<T>, write_target: ByteSink },
    LineInspectionMode {
        read_line_buffer: LineBufferState<T>,
        read_target: LineSource,
        read_flag_extra_eoln_line: bool,
    },
    BlockInspectionMode { read_block_buffer: BlockBufferState<T>, read_target: ByteSource },
}

/// Mathematical model of a [`LineBufferState`].
#[verifier::ext_equal]
pub enum LineBufModel<U> {
    Unknown { initial: bool },
    Loaded { units: Seq<U>, pos: int, no_more: bool },
    Eof,
}

/// Mathematical model of a [`BlockBufferState`].
#[verifier::ext_equal]
pub enum BlockBufModel<U> {
    Unknown,
    Loaded { window: Seq<u8>, avail: int, pos: int, cache: Option<U> },
    Eof,
}

/// Mathematical model of a [`FileState`]: each reading mode pairs its buffer
/// model with the bytes its source has not yet handed out, and the writing
/// mode pairs the staged unit with the bytes written so far.
#[verifier::ext_equal]
pub enum FileModel<U> {
    Closed,
    Writing { staged: Option<U>, sink: Seq<u8> },
    LineReading { buf: LineBufModel<U>, src: Seq<u8>, extra_eoln: bool },
    BlockReading { buf: BlockBufModel<U>, src: Seq<u8> },
}

impl<T> View for LineBufferState<T> {
    type V = LineBufModel<T>;

    open spec fn view(&self) -> LineBufModel<T> {
        match self {
            LineBufferState::UnknownState { initial_line } => LineBufModel::Unknown {
                initial: *initial_line,
            },
            LineBufferState::AfterReadLine { line_buffer, line_position, line_no_more } => {
                LineBufModel::Loaded {
                    units: line_buffer@,
                    pos: *line_position as int,
                    no_more: *line_no_more,
                }
            },
            LineBufferState::Eof => LineBufModel::Eof,
        }
    }
}

impl<T> View for BlockBufferState<T> {
    type V = BlockBufModel<T>;

    open spec fn view(&self) -> BlockBufModel<T> {
        match self {
            BlockBufferState::UnknownState => BlockBufModel::Unknown,
            BlockBufferState::AfterReadBlock {
                bytes_block_buffer,
                bytes_avail_length,
                bytes_position,
                bytes_buffer,
            } => BlockBufModel::Loaded {
                window: bytes_block_buffer@,
                avail: *bytes_avail_length as int,
                pos: *bytes_position as int,
                cache: *bytes_buffer,
            },
            BlockBufferState::Eof => BlockBufModel::Eof,
        }
    }
}

impl<T> View for FileState<T> {
    type V = FileModel<T>;

    open spec fn view(&self) -> FileModel<T> {
        match self {
            FileState::Undefined => FileModel::Closed,
            FileState::GenerationMode { write_buffer, write_target } => FileModel::Writing {
                staged: *write_buffer,
                sink: write_target@,
            },
            FileState::LineInspectionMode {
                read_line_buffer,
                read_target,
                read_flag_extra_eoln_line,
            } => FileModel::LineReading {
                buf: read_line_buffer@,
                src: read_target@,
                extra_eoln: *read_flag_extra_eoln_line,
            },
            FileState::BlockInspectionMode { read_block_buffer, read_target } => {
                FileModel::BlockReading { buf: read_block_buffer@, src: read_target@ }
            },
        }
    }
}

/// Invariant of a loaded line buffer: the position is inside the unit
/// sequence, and the sequence ends with a terminator unit (genuinely read or
/// synthesized), so "is the current unit a terminator" is always
/// well-defined.
pub open spec fn line_buf_wf<F: PascalFile>(b: LineBufModel<F::Unit>) -> bool {
    b matches LineBufModel::Loaded { units, pos, .. } ==> {
        &&& 0 <= pos < units.len()
        &&& F::spec_is_eoln_unit(units.last())
    }
}

/// Invariant of a loaded block buffer: at least one whole unit sits between
/// the cursor and the end of the valid bytes, the valid bytes fit in the
/// window, and a cached unit is the decoding of the blob at the cursor.
pub open spec fn block_buf_wf<F: PascalFile>(b: BlockBufModel<F::Unit>) -> bool {
    b matches BlockBufModel::Loaded { window, avail, pos, cache } ==> {
        &&& 0 <= pos
        &&& pos + F::spec_unit_size() <= avail
        &&& avail <= window.len()
        &&& (cache matches Some(u) ==> u == F::spec_blob_to_unit(
            window.subrange(pos, pos + F::spec_unit_size()),
        ))
    }
}

/// Well-formedness of a file model: the active buffer engine obeys its
/// invariant.
pub open spec fn model_wf<F: PascalFile>(m: FileModel<F::Unit>) -> bool {
    match m {
        FileModel::LineReading { buf, .. } => line_buf_wf::<F>(buf),
        FileModel::BlockReading { buf, .. } => block_buf_wf::<F>(buf),
        _ => true,
    }
}

/// Well-formedness of an owned file state: the active buffer engine obeys
/// its invariant and the owned source has not read past its end.
pub open spec fn state_wf<F: PascalFile>(s: FileState<F::Unit>) -> bool {
    match s {
        FileState::Undefined => true,
        FileState::GenerationMode { .. } => true,
        FileState::LineInspectionMode { read_line_buffer, read_target, .. } => {
            &&& read_target.wf()
            &&& line_buf_wf::<F>(read_line_buffer@)
        },
        FileState::BlockInspectionMode { read_block_buffer, read_target } => {
            &&& read_target.wf()
            &&& block_buf_wf::<F>(read_block_buffer@)
        },
    }
}

} // verus!

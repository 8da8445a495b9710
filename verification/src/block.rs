//! The block-buffer engine: lazy fixed-unit-size lookahead over a sliding
//! byte window. The transitions are stated as spec functions over the model
//! and carried out by the executable refill.

use vstd::prelude::*;

use crate::capability::PascalFile;
use crate::source::ByteSource;
use crate::state::block_buf_wf;
use crate::state::BlockBufModel;
use crate::state::BlockBufferState;

verus! {

/// Target chunk size: the window is the smallest multiple of the unit size
/// at least this large.
pub const IDEAL_BUFSIZE: usize = 512;

/// The window, valid-byte count and cursor the very first refill starts
/// from: a zeroed window with one whole (fictitious, already consumed) unit
/// sitting at its end, so the common refill path finds no leftover bytes.
pub open spec fn spec_block_start<F: PascalFile>() -> (Seq<u8>, int, int) {
    let size = F::spec_unit_size() as int;
    let dest = (IDEAL_BUFSIZE as int / size + 1) * size;
    (Seq::new(dest as nat, |i: int| 0u8), dest, dest - size)
}

/// One refill of the window: slide the bytes after the unit at the cursor
/// to the front, then top the window up from the source until it holds a
/// whole unit. A source that runs dry first means end-of-file; the bytes it
/// did hand out are consumed either way.
pub open spec fn spec_block_refill<F: PascalFile>(
    src: Seq<u8>,
    window: Seq<u8>,
    avail: int,
    pos: int,
) -> (Seq<u8>, BlockBufModel<F::Unit>) {
    let size = F::spec_unit_size() as int;
    let l = avail - pos - size;
    let leftover = window.subrange(pos + size, avail);
    let compacted = leftover + window.skip(l);
    if l >= size {
        (src, BlockBufModel::Loaded { window: compacted, avail: l, pos: 0, cache: None })
    } else if l + src.len() < size {
        (Seq::empty(), BlockBufModel::Eof)
    } else {
        let n1 = vstd::math::min(window.len() - l, src.len() as int);
        let window2 = leftover + src.take(n1) + compacted.skip(l + n1);
        (
            src.skip(n1),
            BlockBufModel::Loaded { window: window2, avail: l + n1, pos: 0, cache: None },
        )
    }
}

/// A refill starting from the given buffer state: a pending first refill
/// starts from the fabricated initial window, a loaded buffer refills from
/// its own window.
pub open spec fn spec_block_refill_from<F: PascalFile>(
    src: Seq<u8>,
    buf: BlockBufModel<F::Unit>,
) -> (Seq<u8>, BlockBufModel<F::Unit>)
    recommends
        !(buf is Eof),
{
    match buf {
        BlockBufModel::Unknown => {
            let (window, avail, pos) = spec_block_start::<F>();
            spec_block_refill::<F>(src, window, avail, pos)
        },
        BlockBufModel::Loaded { window, avail, pos, .. } => spec_block_refill::<F>(
            src,
            window,
            avail,
            pos,
        ),
        BlockBufModel::Eof => (src, BlockBufModel::Eof),
    }
}

/// The buffer with a pending first refill performed; a loaded or exhausted
/// buffer is already resolved.
pub open spec fn spec_block_resolve<F: PascalFile>(src: Seq<u8>, buf: BlockBufModel<F::Unit>) -> (
    Seq<u8>,
    BlockBufModel<F::Unit>,
) {
    match buf {
        BlockBufModel::Unknown => spec_block_refill_from::<F>(src, buf),
        _ => (src, buf),
    }
}

/// Whether the engine is at end-of-file, refilling first if the first
/// refill is pending.
pub open spec fn spec_block_at_eof<F: PascalFile>(
    src: Seq<u8>,
    buf: BlockBufModel<F::Unit>,
) -> bool {
    spec_block_resolve::<F>(src, buf).1 is Eof
}

/// The unit decoded from the window blob at the cursor, refilling first if
/// the first refill is pending.
pub open spec fn spec_block_peek<F: PascalFile>(
    src: Seq<u8>,
    buf: BlockBufModel<F::Unit>,
) -> F::Unit
    recommends
        !spec_block_at_eof::<F>(src, buf),
{
    let resolved = spec_block_resolve::<F>(src, buf).1;
    F::spec_blob_to_unit(
        resolved->window.subrange(resolved->pos, resolved->pos + F::spec_unit_size()),
    )
}

/// One advance of the cursor: if the window already holds the whole next
/// unit, step over the current one and drop the cached decoding; otherwise
/// refill (which itself discards the current unit). An advance on a pending
/// first refill performs just the refill.
pub open spec fn spec_block_advance<F: PascalFile>(src: Seq<u8>, buf: BlockBufModel<F::Unit>) -> (
    Seq<u8>,
    BlockBufModel<F::Unit>,
) {
    let size = F::spec_unit_size() as int;
    match buf {
        BlockBufModel::Unknown => spec_block_refill_from::<F>(src, buf),
        BlockBufModel::Loaded { window, avail, pos, cache } => {
            if avail - (pos + size) < size {
                spec_block_refill::<F>(src, window, avail, pos)
            } else {
                (
                    src,
                    BlockBufModel::Loaded { window, avail, pos: pos + size, cache: None },
                )
            }
        },
        BlockBufModel::Eof => (src, BlockBufModel::Eof),
    }
}

/// Runs the refill algorithm on the owned source, yielding the next buffer
/// state. A refill is asked for only when the window no longer holds a
/// whole unbroken unit past the current one, never at end-of-file.
#[verifier::loop_isolation(false)]
#[verifier::rlimit(60)]
pub fn refill_block<F: PascalFile>(src: &mut ByteSource, buf: BlockBufferState<F::Unit>) -> (r:
    BlockBufferState<F::Unit>)
    requires
        old(src).wf(),
        block_buf_wf::<F>(buf@),
        !(buf@ is Eof),
    ensures
        final(src).wf(),
        block_buf_wf::<F>(r@),
        final(src)@ == spec_block_refill_from::<F>(old(src)@, buf@).0,
        r@ == spec_block_refill_from::<F>(old(src)@, buf@).1,
{
    let size: usize = F::unit_size();
    proof {
        F::lemma_unit_size_positive();
    }
    let ghost src0 = src@;
    let ghost buf0 = buf@;
    let (mut window, avail0, pos0): (Vec<u8>, usize, usize) = match buf {
        BlockBufferState::UnknownState => {
            let q: usize = IDEAL_BUFSIZE / size;
            proof {
                let s = size as int;
                let qq = IDEAL_BUFSIZE as int / s;
                assert(q == qq);
                vstd::arithmetic::div_mod::lemma_remainder_lower(IDEAL_BUFSIZE as int, s);
                assert(qq * s <= IDEAL_BUFSIZE as int);
                if size > IDEAL_BUFSIZE {
                    vstd::arithmetic::div_mod::lemma_basic_div(IDEAL_BUFSIZE as int, s);
                    assert(qq == 0);
                } else {
                    assert(qq <= qq * s) by (nonlinear_arith)
                        requires
                            s >= 1,
                            qq >= 0,
                    ;
                }
                assert((q + 1) * size == q * size + size) by (nonlinear_arith);
                if size > IDEAL_BUFSIZE {
                    assert((q + 1) * size == size) by (nonlinear_arith)
                        requires
                            q == 0,
                    ;
                } else {
                    assert(q * size <= IDEAL_BUFSIZE);
                    assert((q + 1) * size <= 2 * IDEAL_BUFSIZE);
                }
            }
            let dest: usize = (q + 1) * size;
            let mut w: Vec<u8> = Vec::new();
            while w.len() < dest
                invariant
                    w@.len() <= dest,
                    forall|k: int| 0 <= k < w@.len() ==> w@[k] == 0u8,
                decreases dest - w@.len(),
            {
                w.push(0u8);
            }
            proof {
                assert(w@ =~= spec_block_start::<F>().0);
            }
            (w, dest, dest - size)
        },
        BlockBufferState::AfterReadBlock {
            bytes_block_buffer,
            bytes_avail_length,
            bytes_position,
            ..
        } => (bytes_block_buffer, bytes_avail_length, bytes_position),
        BlockBufferState::Eof => {
            proof {
                assert(false);
            }
            (Vec::new(), 0usize, 0usize)
        },
    };
    let ghost orig = window@;
    let ghost spec_out = spec_block_refill_from::<F>(src0, buf0);
    proof {
        assert(spec_out == spec_block_refill::<F>(src0, orig, avail0 as int, pos0 as int));
    }
    // Slide the bytes after the consumed unit to the front of the window.
    let src_base: usize = pos0 + size;
    let l: usize = avail0 - src_base;
    let ghost leftover = orig.subrange(src_base as int, avail0 as int);
    let cap: usize = window.len();
    proof {
        assert(orig.len() == cap);
    }
    let mut i: usize = 0;
    while i < l
        invariant
            orig.len() <= usize::MAX,
            src_base + l <= orig.len(),
            src_base >= 1,
            window@.len() == orig.len(),
            0 <= i <= l,
            forall|k: int| 0 <= k < i ==> window@[k] == orig[src_base + k],
            forall|k: int| i <= k < orig.len() ==> window@[k] == orig[k],
        decreases l - i,
    {
        let b = window[src_base + i];
        window.set(i, b);
        i = i + 1;
    }
    let ghost compacted = leftover + orig.skip(l as int);
    proof {
        assert(window@ =~= compacted);
        assert(leftover =~= compacted.take(l as int));
    }
    let mut avail: usize = l;
    // Top the window up until it holds at least one whole unit.
    while avail < size
        invariant
            size == F::spec_unit_size(),
            1 <= size <= window@.len(),
            src.wf(),
            window@.len() == compacted.len(),
            compacted.len() == orig.len(),
            orig.len() <= usize::MAX,
            l <= avail <= window@.len(),
            leftover == compacted.take(l as int),
            leftover.len() == l,
            l == avail0 - pos0 - size,
            leftover == orig.subrange(pos0 + size, avail0 as int),
            compacted == leftover + orig.skip(l as int),
            spec_out == spec_block_refill::<F>(src0, orig, avail0 as int, pos0 as int),
            ({
                ||| {
                    &&& avail == l
                    &&& src@ == src0
                    &&& window@ == compacted
                }
                ||| {
                    &&& l < size
                    &&& src0.len() >= 1
                    &&& avail == l + vstd::math::min(compacted.len() - l, src0.len() as int)
                    &&& src@ == src0.skip((avail - l) as int)
                    &&& window@ == leftover + src0.take((avail - l) as int) + compacted.skip(
                        avail as int,
                    )
                }
            }),
        decreases vstd::math::max(size - avail, 0),
    {
        let ghost src_before = src@;
        let ghost window_before = window@;
        let ghost in_start = avail == l && src@ == src0 && window@ == compacted;
        let n = src.read_into(&mut window, avail);
        if n == 0 {
            proof {
                if in_start {
                    assert(src0.len() == 0);
                } else {
                    assert(src_before.len() == 0);
                    assert(avail == l + src0.len());
                }
                assert(l + src0.len() < size);
                assert(src@ =~= Seq::<u8>::empty());
                assert(spec_out.1 is Eof);
            }
            return BlockBufferState::Eof;
        }
        proof {
            if !in_start {
                assert(src_before.len() == 0);
                assert(false);
            }
        }
        avail = avail + n;
        proof {
            assert(window@ =~= leftover + src0.take(n as int) + compacted.skip(l + n));
        }
    }
    proof {
        if avail == l {
            assert(window@ == compacted && src@ == src0);
            assert(spec_out.1 == BlockBufModel::<F::Unit>::Loaded {
                window: compacted,
                avail: l as int,
                pos: 0,
                cache: None,
            });
        } else {
            let n1 = vstd::math::min(orig.len() - l, src0.len() as int);
            assert(avail == l + n1);
            assert(l + src0.len() >= size);
            assert(window@ == leftover + src0.take(n1) + compacted.skip(l + n1));
        }
    }
    let r = BlockBufferState::AfterReadBlock {
        bytes_block_buffer: window,
        bytes_avail_length: avail,
        bytes_position: 0,
        bytes_buffer: None,
    };
    proof {
        assert(r@ =~= spec_out.1);
    }
    r
}

/// A refill yields a well-formed buffer: a loaded window holds a whole
/// unit at the cursor within its valid bytes, with no stale cached unit.
pub proof fn lemma_block_refill_wf<F: PascalFile>(
    src: Seq<u8>,
    window: Seq<u8>,
    avail: int,
    pos: int,
)
    requires
        F::spec_unit_size() >= 1,
        0 <= pos,
        pos + F::spec_unit_size() <= avail <= window.len(),
    ensures
        block_buf_wf::<F>(spec_block_refill::<F>(src, window, avail, pos).1),
{
    let size = F::spec_unit_size() as int;
    let l = avail - pos - size;
    let leftover = window.subrange(pos + size, avail);
    let compacted = leftover + window.skip(l);
    assert(compacted.len() == window.len());
    if l >= size {
    } else if l + src.len() < size {
    } else {
        let n1 = vstd::math::min(window.len() - l, src.len() as int);
        let window2 = leftover + src.take(n1) + compacted.skip(l + n1);
        assert(window2.len() == window.len());
    }
}

/// Resolving a pending first refill yields a well-formed buffer.
pub proof fn lemma_block_resolve_wf<F: PascalFile>(src: Seq<u8>, buf: BlockBufModel<F::Unit>)
    requires
        block_buf_wf::<F>(buf),
    ensures
        block_buf_wf::<F>(spec_block_resolve::<F>(src, buf).1),
{
    F::lemma_unit_size_positive();
    match buf {
        BlockBufModel::Unknown => {
            let size = F::spec_unit_size() as int;
            let q = IDEAL_BUFSIZE as int / size;
            vstd::arithmetic::div_mod::lemma_div_pos_is_pos(IDEAL_BUFSIZE as int, size);
            assert((q + 1) * size >= size) by (nonlinear_arith)
                requires
                    q >= 0,
                    size >= 1,
            ;
            let (window, avail, pos) = spec_block_start::<F>();
            lemma_block_refill_wf::<F>(src, window, avail, pos);
        },
        _ => {},
    }
}

} // verus!

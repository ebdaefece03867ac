//! Partial-flush engine: page-chunked writes of a dirty rectangle.
//!
//! The chip stores pixels as eight-row pages. Given a framebuffer laid out
//! as rows of `stride` bytes, one row per page, and a dirty rectangle named
//! by two corner points, the engine works out which pages and which column
//! range have to be retransmitted and streams exactly those bytes, one data
//! write per page. The transfer cost is proportional to the dirty area, not
//! to the framebuffer; vertically the granularity is whole covering pages.
//!
//! The engine does not program the chip's address window itself: the caller
//! must have set the draw area to the same rectangle first, or the pixels
//! land in the wrong place on the screen.

use vstd::prelude::*;
use vstd::arithmetic::div_mod::lemma_fundamental_div_mod;
use vstd::arithmetic::mul::lemma_mul_increases;
use vstd::arithmetic::mul::lemma_mul_nonnegative;
use vstd::slice::slice_subrange;
use crate::error::TransportError;
use crate::interface::BusSink;

verus! {

/// The first page (eight-row strip) covered by the rectangle.
pub open spec fn page_start(upper_left: (u8, u8)) -> int {
    upper_left.1 as int / 8
}

/// How many pages the rectangle's vertical extent asks for.
pub open spec fn pages_requested(upper_left: (u8, u8), lower_right: (u8, u8)) -> int {
    (lower_right.1 as int - upper_left.1 as int) / 8 + 1
}

/// How many whole or partial rows of `stride` bytes the buffer holds.
pub open spec fn chunk_count(buf_len: int, stride: int) -> int
    recommends
        stride >= 1,
{
    if buf_len % stride == 0 {
        buf_len / stride
    } else {
        buf_len / stride + 1
    }
}

/// Where row `p` of the buffer ends: after `stride` bytes, or at the end of
/// the buffer for a trailing partial row.
pub open spec fn chunk_end(buf_len: int, stride: int, p: int) -> int {
    if (p + 1) * stride <= buf_len {
        (p + 1) * stride
    } else {
        buf_len
    }
}

/// How many page writes the flush issues: the requested pages, cut down to
/// the rows the buffer actually holds.
pub open spec fn pages_written(
    buf_len: int,
    stride: int,
    upper_left: (u8, u8),
    lower_right: (u8, u8),
) -> int {
    let first = page_start(upper_left);
    let wanted = first + pages_requested(upper_left, lower_right);
    let limit = if wanted <= chunk_count(buf_len, stride) {
        wanted
    } else {
        chunk_count(buf_len, stride)
    };
    if limit >= first {
        limit - first
    } else {
        0
    }
}

/// The column sub-range of buffer row `p` that one page write carries.
pub open spec fn page_slice(buf: Seq<u8>, stride: int, p: int, lo: int, hi: int) -> Seq<u8> {
    buf.subrange(p * stride + lo, p * stride + hi)
}

/// Every data payload of the flush, first page first.
pub open spec fn flushed_pages(
    buf: Seq<u8>,
    stride: int,
    upper_left: (u8, u8),
    lower_right: (u8, u8),
) -> Seq<Seq<u8>> {
    Seq::new(
        pages_written(buf.len() as int, stride, upper_left, lower_right) as nat,
        |i: int| page_slice(
            buf,
            stride,
            page_start(upper_left) + i,
            upper_left.0 as int,
            lower_right.0 as int,
        ),
    )
}

/// The column range stays inside every buffer row that the flush touches:
/// past neither the row's `stride` bytes nor the end of the buffer.
pub open spec fn region_in_bounds(
    buf_len: int,
    stride: int,
    upper_left: (u8, u8),
    lower_right: (u8, u8),
) -> bool {
    forall|i: int|
        0 <= i < pages_written(buf_len, stride, upper_left, lower_right)
            ==> (page_start(upper_left) + i) * stride + lower_right.0 as int <= #[trigger] chunk_end(
                buf_len,
                stride,
                page_start(upper_left) + i,
            )
}

/// A flush issues exactly the cut-down page count of writes, and every
/// page write carries the same column width: the horizontal extent of the
/// rectangle.
pub proof fn lemma_flushed_pages_shape(
    buf: Seq<u8>,
    stride: int,
    upper_left: (u8, u8),
    lower_right: (u8, u8),
)
    requires
        stride >= 1,
        upper_left.0 <= lower_right.0,
        region_in_bounds(buf.len() as int, stride, upper_left, lower_right),
    ensures
        flushed_pages(buf, stride, upper_left, lower_right).len() == pages_written(
            buf.len() as int,
            stride,
            upper_left,
            lower_right,
        ),
        forall|i: int|
            0 <= i < flushed_pages(buf, stride, upper_left, lower_right).len()
                ==> #[trigger] flushed_pages(buf, stride, upper_left, lower_right)[i].len()
                    == lower_right.0 - upper_left.0,
{
    let first = page_start(upper_left);
    let lo = upper_left.0 as int;
    let hi = lower_right.0 as int;
    let pages = flushed_pages(buf, stride, upper_left, lower_right);
    assert forall|i: int| 0 <= i < pages.len() implies #[trigger] pages[i].len() == lower_right.0
        - upper_left.0 by {
        let p = first + i;
        assert((first + i) * stride + hi <= chunk_end(buf.len() as int, stride, first + i));
        lemma_mul_nonnegative(p, stride);
        assert(pages[i] == buf.subrange(p * stride + lo, p * stride + hi));
        assert(0 <= p * stride + lo <= p * stride + hi <= buf.len());
    }
}

/// Stream the dirty rectangle of `buffer` to the sink, one data write per
/// covered page, each carrying exactly the bytes of the column range
/// `upper_left.x .. lower_right.x` of that page's row of `stride` bytes.
///
/// The caller supplies corner points that already satisfy
/// `upper_left <= lower_right` per axis; the vertical extent is widened to
/// whole covering pages, and pages past the end of the buffer are not
/// written. The first transport failure aborts the remaining pages and is
/// returned unchanged: nothing is retried, and no more sends are attempted
/// than the flush has pages.
pub fn flush_region<S: BusSink>(
    iface: &mut S,
    buffer: &[u8],
    stride: usize,
    upper_left: (u8, u8),
    lower_right: (u8, u8),
) -> (r: Result<(), TransportError>)
    requires
        stride >= 1,
        upper_left.0 <= lower_right.0,
        upper_left.1 <= lower_right.1,
        region_in_bounds(buffer@.len() as int, stride as int, upper_left, lower_right),
    ensures
        final(iface).attempts() <= old(iface).attempts() + pages_written(
            buffer@.len() as int,
            stride as int,
            upper_left,
            lower_right,
        ),
        r is Ok ==> final(iface).attempts() == old(iface).attempts() + pages_written(
            buffer@.len() as int,
            stride as int,
            upper_left,
            lower_right,
        ),
        final(iface).cmds() == old(iface).cmds(),
        r is Ok ==> final(iface).data() == old(iface).data() + flushed_pages(
            buffer@,
            stride as int,
            upper_left,
            lower_right,
        ),
        r is Err ==> final(iface).data() == old(iface).data() + flushed_pages(
            buffer@,
            stride as int,
            upper_left,
            lower_right,
        ).take(final(iface).attempts() - old(iface).attempts() - 1),
{
    let len: usize = buffer.len();
    let start_page: usize = (upper_left.1 / 8) as usize;
    let req_pages: usize = ((lower_right.1 - upper_left.1) / 8) as usize + 1;
    proof {
        if len % stride != 0 {
            lemma_fundamental_div_mod(len as int, stride as int);
            if len as int / stride as int > 0 {
                lemma_mul_increases(stride as int, len as int / stride as int);
            }
        }
    }
    let n_chunks: usize = if len % stride == 0 {
        len / stride
    } else {
        len / stride + 1
    };
    let n_write: usize = if start_page >= n_chunks {
        0
    } else {
        let avail = n_chunks - start_page;
        if req_pages <= avail {
            req_pages
        } else {
            avail
        }
    };
    let lo: usize = upper_left.0 as usize;
    let hi: usize = lower_right.0 as usize;

    let ghost all_pages = flushed_pages(buffer@, stride as int, upper_left, lower_right);
    let ghost orig_data = iface.data();
    let ghost orig_cmds = iface.cmds();
    let ghost orig_attempts = iface.attempts();
    proof {
        assert(n_write == pages_written(len as int, stride as int, upper_left, lower_right));
        assert(orig_data + all_pages.take(0) =~= orig_data);
    }

    let mut i: usize = 0;
    while i < n_write
        invariant
            i <= n_write,
            n_write == pages_written(buffer@.len() as int, stride as int, upper_left, lower_right),
            stride >= 1,
            len == buffer@.len(),
            start_page == page_start(upper_left),
            lo == upper_left.0 as int,
            hi == lower_right.0 as int,
            lo <= hi,
            region_in_bounds(buffer@.len() as int, stride as int, upper_left, lower_right),
            all_pages == flushed_pages(buffer@, stride as int, upper_left, lower_right),
            iface.data() == orig_data + all_pages.take(i as int),
            iface.cmds() == orig_cmds,
            iface.attempts() == orig_attempts + i,
            orig_attempts == old(iface).attempts(),
            orig_data == old(iface).data(),
            orig_cmds == old(iface).cmds(),
        decreases n_write - i,
    {
        let p: usize = start_page + i;
        proof {
            assert(chunk_end(len as int, stride as int, p as int) <= len as int);
            assert((p as int) * (stride as int) + hi as int <= chunk_end(
                len as int,
                stride as int,
                p as int,
            ));
        }
        let base: usize = p * stride;
        let chunk = slice_subrange(buffer, base + lo, base + hi);
        proof {
            assert(chunk@ == all_pages[i as int]);
        }
        match iface.send_data(chunk) {
            Ok(_) => {},
            Err(e) => {
                return Err(e);
            },
        }
        proof {
            assert(all_pages.take(i as int).push(all_pages[i as int]) =~= all_pages.take(
                i as int + 1,
            ));
            assert(iface.data() =~= orig_data + all_pages.take(i as int + 1));
        }
        i = i + 1;
    }
    proof {
        assert(all_pages.take(n_write as int) =~= all_pages);
    }
    Ok(())
}

} // verus!

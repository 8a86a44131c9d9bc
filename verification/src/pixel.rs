use vstd::prelude::*;

use crate::error::XCapError;

verus! {

/// A raw capture buffer exactly as the native capture primitive handed it
/// over: `height` rows of `bytes_per_row` bytes each, of which only the
/// first `width * 4` bytes of every row are pixel data (4 bytes per pixel,
/// blue-green-red-alpha order on the native side); anything after that in a
/// row is platform padding.
pub struct RawCaptureBuffer {
    pub width: u32,
    pub height: u32,
    pub bytes_per_row: usize,
    pub bytes: Vec<u8>,
}

/// The buffer's declared geometry is consistent with its length: the bytes
/// are exactly `height` full rows, and every row is wide enough to hold
/// `width` 4-byte pixels.
pub open spec fn raw_consistent(raw: RawCaptureBuffer) -> bool {
    &&& raw.bytes@.len() == (raw.height as int) * (raw.bytes_per_row as int)
    &&& (raw.width as int) * 4 <= raw.bytes_per_row as int
}

/// The first `rows` rows of `bytes`, with everything after each row's
/// `width * 4` pixel bytes stripped away.
pub open spec fn stripped_rows(bytes: Seq<u8>, width: int, bpr: int, rows: int) -> Seq<u8>
    decreases rows,
{
    if rows <= 0 {
        Seq::empty()
    } else {
        stripped_rows(bytes, width, bpr, rows - 1)
            + bytes.subrange((rows - 1) * bpr, (rows - 1) * bpr + width * 4)
    }
}

pub proof fn lemma_stripped_rows_len(bytes: Seq<u8>, width: int, bpr: int, rows: int)
    requires
        0 <= width * 4 <= bpr,
        0 <= rows,
        rows * bpr <= bytes.len(),
    ensures
        stripped_rows(bytes, width, bpr, rows).len() == rows * (width * 4),
    decreases rows,
{
    if rows > 0 {
        assert((rows - 1) * bpr <= rows * bpr && 0 <= (rows - 1) * bpr) by (nonlinear_arith)
            requires 0 <= rows - 1 && 0 <= bpr;
        lemma_stripped_rows_len(bytes, width, bpr, rows - 1);
        assert((rows - 1) * bpr + bpr == rows * bpr) by (nonlinear_arith);
        assert((rows - 1) * (width * 4) + width * 4 == rows * (width * 4)) by (nonlinear_arith);
    } else {
        assert(rows * (width * 4) == 0) by (nonlinear_arith)
            requires rows == 0;
    }
}

/// Law: de-striding draws every output byte from the pixel region of its
/// row and none from the padding region. For any buffer whose stride
/// `bpr` exceeds the row's pixel width `width * 4`, the stripped sequence
/// has exactly `rows * width * 4` bytes, and the byte at output offset
/// `r * width * 4 + c` (with `c < width * 4`) is the byte at input offset
/// `r * bpr + c` — an offset that lies strictly before the padding of row
/// `r`, which starts at `r * bpr + width * 4`.
pub proof fn lemma_destride_excludes_padding(
    bytes: Seq<u8>,
    width: int,
    bpr: int,
    rows: int,
    r: int,
    c: int,
)
    requires
        0 <= width * 4 <= bpr,
        0 <= rows,
        rows * bpr <= bytes.len(),
        0 <= r < rows,
        0 <= c < width * 4,
    ensures
        stripped_rows(bytes, width, bpr, rows).len() == rows * (width * 4),
        stripped_rows(bytes, width, bpr, rows)[r * (width * 4) + c] == bytes[r * bpr + c],
        r * bpr + c < r * bpr + width * 4,
    decreases rows,
{
    lemma_stripped_rows_len(bytes, width, bpr, rows);
    assert((rows - 1) * bpr <= rows * bpr && 0 <= (rows - 1) * bpr) by (nonlinear_arith)
        requires 0 <= rows - 1 && 0 <= bpr;
    assert((rows - 1) * bpr + bpr == rows * bpr) by (nonlinear_arith);
    lemma_stripped_rows_len(bytes, width, bpr, rows - 1);
    if r == rows - 1 {
        assert(r * (width * 4) + c - (rows - 1) * (width * 4) == c);
    } else {
        lemma_destride_excludes_padding(bytes, width, bpr, rows - 1, r, c);
        assert(r * (width * 4) + (width * 4) <= (rows - 1) * (width * 4)) by (nonlinear_arith)
            requires r + 1 <= rows - 1 && 0 <= width * 4;
    }
}

/// Red/blue swap: in every 4-byte pixel, bytes 0 and 2 change places and
/// bytes 1 and 3 stay. This turns blue-green-red-alpha byte order into
/// red-green-blue-alpha.
pub open spec fn swap_rb(s: Seq<u8>) -> Seq<u8> {
    Seq::new(
        s.len(),
        |i: int|
            if i % 4 == 0 {
                s[i + 2]
            } else if i % 4 == 2 {
                s[i - 2]
            } else {
                s[i]
            },
    )
}

/// Law: the red/blue channel swap is involutive — applying it twice
/// reproduces the original byte sequence.
pub proof fn lemma_swap_rb_involutive(s: Seq<u8>)
    requires
        s.len() % 4 == 0,
    ensures
        swap_rb(swap_rb(s)) == s,
{
    assert forall|i: int| 0 <= i < s.len() implies swap_rb(swap_rb(s))[i] == s[i] by {
        if i % 4 == 0 {
            assert(i + 2 < s.len());
            assert((i + 2) % 4 == 2);
        } else if i % 4 == 2 {
            assert((i - 2) % 4 == 0);
        }
    }
    assert(swap_rb(swap_rb(s)) =~= s);
}

/// Every fourth byte (the alpha byte) dropped: the byte at output offset
/// `3*p + j` is the byte at input offset `4*p + j`, for `j < 3`.
pub open spec fn drop_alpha_bytes(s: Seq<u8>) -> Seq<u8> {
    Seq::new((s.len() / 4) * 3, |i: int| s[(i / 3) * 4 + i % 3])
}

/// Law: a 3-channel image keeps exactly the first three bytes of every
/// 4-byte pixel: the output has `(len / 4) * 3` bytes, and output offset
/// `3*p + j` holds input byte `4*p + j` — the alpha byte at input offset
/// `4*p + 3` never reaches the output.
pub proof fn lemma_drop_alpha_excludes_alpha(s: Seq<u8>, p: int, j: int)
    requires
        s.len() % 4 == 0,
        0 <= p < s.len() / 4,
        0 <= j < 3,
    ensures
        drop_alpha_bytes(s).len() == (s.len() / 4) * 3,
        drop_alpha_bytes(s)[3 * p + j] == s[4 * p + j],
{
    assert((3 * p + j) / 3 == p && (3 * p + j) % 3 == j);
}

/// Strips the per-row padding out of a raw capture buffer, leaving
/// `width * 4` bytes per row, or reports `DecodeFailed` when the declared
/// geometry does not match the buffer's length.
#[verifier::loop_isolation(false)]
pub fn strip_padding(raw: &RawCaptureBuffer) -> (out: Result<Vec<u8>, XCapError>)
    ensures
        match out {
            Ok(v) => raw_consistent(*raw) && v@ == stripped_rows(
                raw.bytes@,
                raw.width as int,
                raw.bytes_per_row as int,
                raw.height as int,
            ) && v@.len() == (raw.height as int) * ((raw.width as int) * 4),
            Err(e) => !raw_consistent(*raw) && e == XCapError::DecodeFailed,
        },
{
    let n = raw.bytes.len();
    let w4 = match (raw.width as usize).checked_mul(4) {
        Some(w4) => w4,
        None => {
            return Err(XCapError::DecodeFailed);
        },
    };
    if w4 > raw.bytes_per_row {
        return Err(XCapError::DecodeFailed);
    }
    let total = match (raw.height as usize).checked_mul(raw.bytes_per_row) {
        Some(t) => t,
        None => {
            return Err(XCapError::DecodeFailed);
        },
    };
    if total != n {
        return Err(XCapError::DecodeFailed);
    }
    let height = raw.height as usize;
    let bpr = raw.bytes_per_row;
    let mut out: Vec<u8> = Vec::new();
    let mut r: usize = 0;
    while r < height
        invariant
            r <= height,
            out@ == stripped_rows(raw.bytes@, raw.width as int, bpr as int, r as int),
            out@.len() == (r as int) * (w4 as int),
        decreases height - r,
    {
        proof {
            assert((r as int) * (bpr as int) + bpr as int == (r as int + 1) * (bpr as int)
                && (r as int + 1) * (bpr as int) <= (height as int) * (bpr as int)
                && 0 <= (r as int) * (bpr as int)) by (nonlinear_arith)
                requires 0 <= r as int && r as int + 1 <= height as int && 0 <= bpr as int;
        }
        let row_start = r * bpr;
        let mut c: usize = 0;
        while c < w4
            invariant
                c <= w4,
                out@ == stripped_rows(raw.bytes@, raw.width as int, bpr as int, r as int)
                    + raw.bytes@.subrange(row_start as int, row_start as int + c as int),
                out@.len() == (r as int) * (w4 as int) + c as int,
            decreases w4 - c,
        {
            let b = raw.bytes[row_start + c];
            out.push(b);
            proof {
                assert(raw.bytes@.subrange(row_start as int, row_start as int + c as int + 1)
                    =~= raw.bytes@.subrange(row_start as int, row_start as int + c as int).push(b));
            }
            c = c + 1;
        }
        proof {
            assert((r as int) * (w4 as int) + w4 as int == (r as int + 1) * (w4 as int))
                by (nonlinear_arith);
            assert(out@ == stripped_rows(raw.bytes@, raw.width as int, bpr as int, r as int + 1));
        }
        r = r + 1;
    }
    proof {
        lemma_stripped_rows_len(raw.bytes@, raw.width as int, bpr as int, height as int);
    }
    Ok(out)
}

/// Swaps bytes 0 and 2 of every 4-byte pixel in place, turning the native
/// blue-green-red-alpha byte order into red-green-blue-alpha.
#[verifier::loop_isolation(false)]
pub fn swap_channels(buf: &mut Vec<u8>)
    requires
        old(buf)@.len() % 4 == 0,
    ensures
        final(buf)@ == swap_rb(old(buf)@),
{
    let n = buf.len();
    let pixels = n / 4;
    let mut i: usize = 0;
    while i < pixels
        invariant
            i <= pixels,
            buf@.len() == n,
            forall|j: int|
                0 <= j < n ==> #[trigger] buf@[j] == if j < 4 * (i as int) {
                    swap_rb(old(buf)@)[j]
                } else {
                    old(buf)@[j]
                },
        decreases pixels - i,
    {
        let blue = buf[4 * i];
        let red = buf[4 * i + 2];
        buf[4 * i] = red;
        buf[4 * i + 2] = blue;
        i = i + 1;
    }
    proof {
        assert(buf@ =~= swap_rb(old(buf)@));
    }
}

/// Emits the first three bytes of every 4-byte pixel, dropping the alpha
/// byte: 4-channel data becomes tightly packed 3-channel data.
#[verifier::loop_isolation(false)]
pub fn drop_alpha(buf: &Vec<u8>) -> (out: Vec<u8>)
    requires
        buf@.len() % 4 == 0,
    ensures
        out@ == drop_alpha_bytes(buf@),
{
    let n = buf.len();
    let pixels = n / 4;
    let mut out: Vec<u8> = Vec::new();
    let mut i: usize = 0;
    while i < pixels
        invariant
            i <= pixels,
            out@.len() == 3 * (i as int),
            forall|j: int| 0 <= j < 3 * (i as int) ==> #[trigger] out@[j] == drop_alpha_bytes(
                buf@,
            )[j],
        decreases pixels - i,
    {
        let b0 = buf[4 * i];
        let b1 = buf[4 * i + 1];
        let b2 = buf[4 * i + 2];
        out.push(b0);
        out.push(b1);
        out.push(b2);
        i = i + 1;
    }
    proof {
        assert(out@ =~= drop_alpha_bytes(buf@));
    }
    out
}

} // verus!

//! Pictures on their way from the graphics card: row padding, brightness
//! samples, and which pictures are kept for inspection.
use vstd::prelude::*;

verus! {

/// Rows in a copy buffer start at multiples of this many bytes.
pub const COPY_BYTES_PER_ROW_ALIGNMENT: u32 = 256;

/// Bytes of one row of `width` pixels.
pub open spec fn tight_row(width: u32) -> nat {
    (width * 4) as nat
}

/// Bytes of one row in the copy buffer: the next multiple of the alignment.
pub open spec fn padded_row(width: u32) -> nat {
    (((tight_row(width) + COPY_BYTES_PER_ROW_ALIGNMENT - 1) / COPY_BYTES_PER_ROW_ALIGNMENT as int)
        * COPY_BYTES_PER_ROW_ALIGNMENT) as nat
}

/// Bytes of one row in the copy buffer.
pub fn padded_bytes_per_row(width: u32) -> (r: u32)
    requires
        padded_row(width) <= u32::MAX,
    ensures
        r == padded_row(width),
{
    let tight: u64 = width as u64 * 4;
    let align: u64 = COPY_BYTES_PER_ROW_ALIGNMENT as u64;
    let padded: u64 = (tight + (align - 1)) / align * align;
    padded as u32
}

/// Bytes of the whole copy buffer.
pub fn buffer_size(width: u32, height: u32) -> (r: u64)
    requires
        padded_row(width) <= u32::MAX,
    ensures
        r == padded_row(width) * height,
{
    let row: u32 = padded_bytes_per_row(width);
    assert(row * height <= 0xffff_ffff * 0xffff_ffff) by (nonlinear_arith)
        requires
            row <= 0xffff_ffff,
            height <= 0xffff_ffff,
    ;
    assert(row * height >= 0) by (nonlinear_arith);
    row as u64 * height as u64
}

/// The buffer holds `height` rows; the last one may lack its padding.
pub open spec fn holds_rows(len: nat, width: u32, height: u32) -> bool {
    height == 0 || (height - 1) * padded_row(width) + tight_row(width) <= len
}

/// The picture in a copy buffer: the rows without their padding.
pub open spec fn stripped(view: Seq<u8>, width: u32, height: u32) -> Seq<u8>
    decreases height,
{
    if height == 0 {
        Seq::empty()
    } else {
        let start = (height - 1) * padded_row(width);
        stripped(view, width, (height - 1) as u32) + view.subrange(
            start,
            start + tight_row(width),
        )
    }
}

/// Takes the padding out of the rows of a copy buffer.
pub fn strip_row_padding(view: &[u8], width: u32, height: u32) -> (r: Vec<u8>)
    requires
        padded_row(width) <= u32::MAX,
        holds_rows(view@.len(), width, height),
    ensures
        r@ == stripped(view@, width, height),
        r@.len() == tight_row(width) * height,
{
    let len: usize = view.len();
    let tight: usize = width as usize * 4;
    let padded: usize = padded_bytes_per_row(width) as usize;
    let mut out: Vec<u8> = Vec::new();
    let mut row: u32 = 0;
    assert(tight * 0 == 0) by (nonlinear_arith);
    while row < height
        invariant
            row <= height,
            tight == tight_row(width),
            padded == padded_row(width),
            tight <= padded,
            holds_rows(view@.len(), width, height),
            view@.len() == len,
            out@ == stripped(view@, width, row),
            out@.len() == tight * row,
        decreases height - row,
    {
        proof {
            let last = height - 1;
            assert(row * padded <= last * padded) by (nonlinear_arith)
                requires
                    row <= last,
                    padded >= 0,
            ;
            assert(row * padded >= 0) by (nonlinear_arith)
                requires
                    row >= 0,
                    padded >= 0,
            ;
            assert(tight * (row + 1) == tight * row + tight) by (nonlinear_arith);
        }
        let start: usize = row as usize * padded;
        let line: &[u8] = vstd::slice::slice_subrange(view, start, start + tight);
        let ghost before = out@;
        out.extend_from_slice(line);
        assert(out@ =~= before + view@.subrange(start as int, start + tight));
        row = row + 1;
    }
    out
}

/// Row `row` of a picture of `width` pixels per row.
pub open spec fn row_of(picture: Seq<u8>, width: u32, row: int) -> Seq<u8> {
    picture.subrange(row * tight_row(width), row * tight_row(width) + tight_row(width))
}

/// Padding is nothing but padding: whatever bytes fill it, stripping a buffer
/// whose rows hold a picture gives back the picture.
pub proof fn law_padding_is_lost(view: Seq<u8>, picture: Seq<u8>, width: u32, height: u32)
    requires
        picture.len() == tight_row(width) * height,
        forall|row: int|
            0 <= row < height ==> view.subrange(
                row * padded_row(width),
                row * padded_row(width) + tight_row(width),
            ) == #[trigger] row_of(picture, width, row),
    ensures
        stripped(view, width, height) == picture,
    decreases height,
{
    let w = tight_row(width) as int;
    if height == 0 {
        assert(w * 0 == 0) by (nonlinear_arith);
        assert(picture =~= Seq::empty());
    } else {
        let h = height - 1;
        assert(w * height == w * h + w) by (nonlinear_arith)
            requires
                h == height - 1,
        ;
        assert(h * w == w * h) by (nonlinear_arith);
        assert(w * h >= 0) by (nonlinear_arith)
            requires
                w >= 0,
                h >= 0,
        ;
        let upper = picture.subrange(0, w * h);
        assert forall|row: int| 0 <= row < h implies view.subrange(
            row * padded_row(width),
            row * padded_row(width) + tight_row(width),
        ) == #[trigger] row_of(upper, width, row) by {
            assert(row * w + w <= w * h) by (nonlinear_arith)
                requires
                    row + 1 <= h,
                    w >= 0,
            ;
            assert(row * w >= 0) by (nonlinear_arith)
                requires
                    row >= 0,
                    w >= 0,
            ;
            assert(row_of(upper, width, row) =~= row_of(picture, width, row));
        }
        law_padding_is_lost(view, upper, width, h as u32);
        assert(row_of(picture, width, h) =~= picture.subrange(w * h, w * h + w));
        assert(picture =~= upper + picture.subrange(w * h, w * h + w));
    }
}

/// Total of one colour channel over the first `n` pixels.
pub open spec fn channel_sum(pixels: Seq<u8>, channel: int, n: nat) -> nat
    decreases n,
{
    if n == 0 {
        0
    } else {
        channel_sum(pixels, channel, (n - 1) as nat) + pixels[(n - 1) * 4 + channel] as nat
    }
}

/// Pixels that a brightness sample looks at: the first 64, or all.
pub open spec fn sampled(len: nat) -> nat {
    if len / 4 < 64 {
        len / 4
    } else {
        64
    }
}

/// Mean of one channel over the sampled pixels; zero where there is none.
pub open spec fn channel_mean(pixels: Seq<u8>, channel: int) -> nat {
    let n = sampled(pixels.len());
    if n == 0 {
        0
    } else {
        channel_sum(pixels, channel, n) / n
    }
}

/// Mean red, green and blue of the first pixels of a picture.
pub fn average_rgb(pixels: &Vec<u8>) -> (r: (u64, u64, u64))
    ensures
        r.0 == channel_mean(pixels@, 0),
        r.1 == channel_mean(pixels@, 1),
        r.2 == channel_mean(pixels@, 2),
{
    let count: usize = pixels.len() / 4;
    let n: usize = if count < 64 {
        count
    } else {
        64
    };
    let mut red: u64 = 0;
    let mut green: u64 = 0;
    let mut blue: u64 = 0;
    let mut i: usize = 0;
    while i < n
        invariant
            i <= n,
            n == sampled(pixels@.len()),
            n <= 64,
            n * 4 <= pixels@.len(),
            red == channel_sum(pixels@, 0, i as nat),
            green == channel_sum(pixels@, 1, i as nat),
            blue == channel_sum(pixels@, 2, i as nat),
            red <= i * 255,
            green <= i * 255,
            blue <= i * 255,
        decreases n - i,
    {
        red = red + pixels[i * 4] as u64;
        green = green + pixels[i * 4 + 1] as u64;
        blue = blue + pixels[i * 4 + 2] as u64;
        i = i + 1;
    }
    if n == 0 {
        return (0, 0, 0);
    }
    let d: u64 = n as u64;
    (red / d, green / d, blue / d)
}

/// A mean is a byte.
pub proof fn law_mean_is_a_byte(pixels: Seq<u8>, channel: int)
    requires
        0 <= channel < 4,
    ensures
        channel_mean(pixels, channel) <= 255,
{
    let n = sampled(pixels.len());
    lemma_sum_bound(pixels, channel, n);
    if n > 0 {
        let s = channel_sum(pixels, channel, n);
        assert(s / n <= 255) by (nonlinear_arith)
            requires
                s <= n * 255,
                n > 0,
        ;
    }
}

proof fn lemma_sum_bound(pixels: Seq<u8>, channel: int, n: nat)
    ensures
        channel_sum(pixels, channel, n) <= n * 255,
    decreases n,
{
    if n > 0 {
        lemma_sum_bound(pixels, channel, (n - 1) as nat);
    }
}

/// Whether picture number `count` is one of those kept for inspection.
pub fn is_snapshot_milestone(count: u64) -> (r: bool)
    ensures
        r == seq![1u64, 30, 120, 300, 600, 900, 1200, 1800, 2400, 3000].contains(count),
{
    let r: bool = count == 1 || count == 30 || count == 120 || count == 300 || count == 600 || count
        == 900 || count == 1200 || count == 1800 || count == 2400 || count == 3000;
    proof {
        let s = seq![1u64, 30, 120, 300, 600, 900, 1200, 1800, 2400, 3000];
        assert(s[0] == 1 && s[1] == 30 && s[2] == 120 && s[3] == 300 && s[4] == 600);
        assert(s[5] == 900 && s[6] == 1200 && s[7] == 1800 && s[8] == 2400 && s[9] == 3000);
    }
    r
}

} // verus!

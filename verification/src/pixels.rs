//! Row order of RGBA buffers: OpenGL reads pixels back bottom row first.

use vstd::prelude::*;

verus! {

proof fn lemma_cell_in_rows(rl: int, h: int, r: int, k: int)
    requires
        0 <= r < h,
        0 <= k < rl,
    ensures
        0 <= r * rl,
        r * rl + k < h * rl,
        (h - 1 - r) * rl + k < h * rl,
        0 <= (h - 1 - r) * rl,
{
    assert(0 <= r * rl) by (nonlinear_arith)
        requires
            0 <= r,
            0 <= rl,
    ;
    assert(r * rl + k < h * rl) by (nonlinear_arith)
        requires
            0 <= r < h,
            0 <= k < rl,
    ;
    assert((h - 1 - r) * rl + k < h * rl) by (nonlinear_arith)
        requires
            0 <= r < h,
            0 <= k < rl,
    ;
    assert(0 <= (h - 1 - r) * rl) by (nonlinear_arith)
        requires
            0 <= r < h,
            0 <= rl,
    ;
}

proof fn lemma_cell_unique(rl: int, r1: int, k1: int, r2: int, k2: int)
    requires
        0 <= r1,
        0 <= r2,
        0 <= k1 < rl,
        0 <= k2 < rl,
        r1 * rl + k1 == r2 * rl + k2,
    ensures
        r1 == r2,
        k1 == k2,
{
    assert(r1 == r2) by (nonlinear_arith)
        requires
            0 <= r1,
            0 <= r2,
            0 <= k1 < rl,
            0 <= k2 < rl,
            r1 * rl + k1 == r2 * rl + k2,
    ;
}

/// Byte `k` of row `r` in a buffer whose rows are `rl` bytes long.
pub open spec fn row_byte(s: Seq<u8>, rl: int, r: int, k: int) -> u8 {
    s[r * rl + k]
}

/// Whether `new` is `old` with its first `h` rows of `rl` bytes in reverse
/// order, and every byte after them kept.
pub open spec fn rows_flipped(old: Seq<u8>, new: Seq<u8>, rl: int, h: int) -> bool {
    &&& new.len() == old.len()
    &&& forall|r: int, k: int|
        0 <= r < h && 0 <= k < rl ==> #[trigger] row_byte(new, rl, r, k) == row_byte(
            old,
            rl,
            h - 1 - r,
            k,
        )
    &&& forall|i: int| h * rl <= i < old.len() ==> #[trigger] new[i] == old[i]
}

/// Reverses the order of the first `height` rows of an RGBA buffer whose rows
/// are `width` pixels long, turning a bottom-up readback right side up. With
/// fewer than two rows there is nothing to move.
pub fn flip_rgba_rows(buffer: &mut [u8], width: usize, height: usize)
    requires
        width * 4 <= usize::MAX,
        height < 2 || height * (width * 4) <= old(buffer)@.len(),
    ensures
        height < 2 ==> final(buffer)@ == old(buffer)@,
        height * (width * 4) <= old(buffer)@.len() ==> rows_flipped(
            old(buffer)@,
            final(buffer)@,
            (width * 4) as int,
            height as int,
        ),
{
    let row_len = width * 4;
    let total = buffer.len();
    if row_len == 0 || height < 2 {
        proof {
            if height == 1 && height * (width * 4) <= old(buffer)@.len() {
                assert forall|r: int, k: int|
                    0 <= r < height && 0 <= k < row_len implies #[trigger] row_byte(
                    buffer@,
                    row_len as int,
                    r,
                    k,
                ) == row_byte(old(buffer)@, row_len as int, height - 1 - r, k) by {
                    assert(r == 0);
                }
            }
        }
        return;
    }
    let ghost rl = row_len as int;
    let ghost h = height as int;
    let ghost orig = buffer@;
    let half = height / 2;
    let mut y: usize = 0;
    while y < half
        invariant
            rl == row_len,
            h == height,
            half == height / 2,
            y <= half,
            h * rl <= orig.len(),
            total == orig.len(),
            rl > 0,
            buffer@.len() == orig.len(),
            forall|r: int, k: int|
                0 <= r < h && 0 <= k < rl && (r < y || r > h - 1 - y) ==> #[trigger] buffer@[r * rl
                    + k] == orig[(h - 1 - r) * rl + k],
            forall|r: int, k: int|
                0 <= r < h && 0 <= k < rl && y <= r <= h - 1 - y ==> #[trigger] buffer@[r * rl + k]
                    == orig[r * rl + k],
            forall|i: int| h * rl <= i < orig.len() ==> #[trigger] buffer@[i] == orig[i],
        decreases half - y,
    {
        let bottom_row = height - 1 - y;
        proof {
            lemma_cell_in_rows(rl, h, y as int, 0);
            lemma_cell_in_rows(rl, h, bottom_row as int, 0);
            assert(y * rl + rl <= h * rl) by (nonlinear_arith)
                requires
                    y < h,
                    0 <= rl,
            ;
            assert(bottom_row * rl + rl <= h * rl) by (nonlinear_arith)
                requires
                    bottom_row < h,
                    0 <= rl,
            ;
            assert(y * rl + rl <= bottom_row * rl) by (nonlinear_arith)
                requires
                    y < bottom_row,
                    0 <= rl,
            ;
        }
        let top = y * row_len;
        let bottom = bottom_row * row_len;
        let ghost before = buffer@;
        let mut j: usize = 0;
        while j < row_len
            invariant
                rl == row_len,
                h == height,
                y < half,
                half == height / 2,
                bottom_row == height - 1 - y,
                top == y * rl,
                bottom == bottom_row * rl,
                top + rl <= bottom,
                bottom + rl <= h * rl,
                h * rl <= orig.len(),
                j <= row_len,
                buffer@.len() == orig.len(),
                forall|k: int| 0 <= k < j ==> #[trigger] buffer@[top + k] == before[bottom + k],
                forall|k: int| 0 <= k < j ==> #[trigger] buffer@[bottom + k] == before[top + k],
                forall|i: int|
                    0 <= i < orig.len() && !(top <= i < top + j) && !(bottom <= i < bottom + j)
                        ==> #[trigger] buffer@[i] == before[i],
            decreases row_len - j,
        {
            let a = buffer[top + j];
            let b = buffer[bottom + j];
            buffer[top + j] = b;
            buffer[bottom + j] = a;
            j = j + 1;
        }
        proof {
            assert forall|r: int, k: int|
                0 <= r < h && 0 <= k < rl && (r < y + 1 || r > h - 1 - (y + 1)) implies #[trigger] buffer@[r
                * rl + k] == orig[(h - 1 - r) * rl + k] by {
                lemma_cell_in_rows(rl, h, r, k);
                if r == y {
                    assert(buffer@[top + k] == before[bottom + k]);
                    assert(before[bottom_row * rl + k] == orig[bottom_row * rl + k]);
                } else if r == bottom_row {
                    assert(buffer@[bottom + k] == before[top + k]);
                    assert(before[y * rl + k] == orig[y * rl + k]);
                } else {
                    if top <= r * rl + k < top + rl {
                        lemma_cell_unique(rl, r, k, y as int, r * rl + k - top);
                    }
                    if bottom <= r * rl + k < bottom + rl {
                        lemma_cell_unique(rl, r, k, bottom_row as int, r * rl + k - bottom);
                    }
                    assert(buffer@[r * rl + k] == before[r * rl + k]);
                }
            }
            assert forall|r: int, k: int|
                0 <= r < h && 0 <= k < rl && y + 1 <= r <= h - 1 - (y + 1) implies #[trigger] buffer@[r
                * rl + k] == orig[r * rl + k] by {
                lemma_cell_in_rows(rl, h, r, k);
                if top <= r * rl + k < top + rl {
                    lemma_cell_unique(rl, r, k, y as int, r * rl + k - top);
                }
                if bottom <= r * rl + k < bottom + rl {
                    lemma_cell_unique(rl, r, k, bottom_row as int, r * rl + k - bottom);
                }
                assert(buffer@[r * rl + k] == before[r * rl + k]);
            }
        }
        y = y + 1;
    }
    proof {
        assert forall|r: int, k: int| 0 <= r < h && 0 <= k < rl implies #[trigger] row_byte(
            buffer@,
            rl,
            r,
            k,
        ) == row_byte(orig, rl, h - 1 - r, k) by {
            if y <= r <= h - 1 - y {
                assert(r == h - 1 - r);
            }
            assert(buffer@[r * rl + k] == orig[(h - 1 - r) * rl + k]);
        }
    }
}

/// Flipping the rows twice gives back the buffer it started from.
pub proof fn lemma_flip_twice_restores(a: Seq<u8>, b: Seq<u8>, c: Seq<u8>, rl: int, h: int)
    requires
        rl > 0,
        h >= 0,
        h * rl <= a.len(),
        rows_flipped(a, b, rl, h),
        rows_flipped(b, c, rl, h),
    ensures
        c == a,
{
    assert forall|i: int| 0 <= i < a.len() implies c[i] == a[i] by {
        if i < h * rl {
            let r = i / rl;
            let k = i % rl;
            assert(i == r * rl + k && 0 <= k < rl && 0 <= r) by (nonlinear_arith)
                requires
                    rl > 0,
                    0 <= i,
                    r == i / rl,
                    k == i % rl,
            ;
            assert(r < h) by (nonlinear_arith)
                requires
                    i == r * rl + k,
                    0 <= k,
                    i < h * rl,
                    rl > 0,
            ;
            assert(row_byte(c, rl, r, k) == row_byte(b, rl, h - 1 - r, k));
            assert(row_byte(b, rl, h - 1 - r, k) == row_byte(a, rl, h - 1 - (h - 1 - r), k));
        }
    }
    assert(c =~= a);
}

} // verus!

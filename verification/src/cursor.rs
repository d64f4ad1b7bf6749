//! The bitmap of a colour cursor: a mask of one bit for each pixel and four
//! bytes of colour for each pixel, made fit to be sent.

use vstd::prelude::*;

verus! {

/// The number of bytes that hold one row of a mask, eight pixels to the byte.
pub open spec fn packed_width(width: int) -> int {
    (width + 7) / 8
}

/// The index of the `b`th cell of row `y` where a row has `n` cells.
pub open spec fn cell(n: int, y: int, b: int) -> int {
    y * n + b
}

/// Cells of different rows, or different cells of one row, have different
/// indices, and the cells of an earlier row come before those of a later one.
pub proof fn cells_are_ordered(n: int, y1: int, b1: int, y2: int, b2: int)
    requires
        0 <= b1 < n,
        0 <= b2 < n,
        0 <= y1 < y2,
    ensures
        cell(n, y1, b1) < cell(n, y2, b2),
        cell(n, y1, b1) < cell(n, y2, 0),
{
    assert(y1 * n + n <= y2 * n) by (nonlinear_arith)
        requires
            y1 + 1 <= y2,
            n > 0,
    ;
}

/// Whether every one of the first `pixels` pixels has an alpha of zero.
pub open spec fn all_transparent(colors: Seq<u8>, pixels: int) -> bool {
    forall|p: int| 0 <= p < pixels ==> #[trigger] colors[4 * p + 3] == 0
}

/// The mask after the first `y` rows and the first `x` bytes of row `y` were
/// packed: byte by byte, each byte of a row of `packed` bytes takes the
/// complement of the byte at the same place in the row of `stride` bytes, as
/// far as both lie in the mask. The bytes are taken in order, from the mask
/// as it is by then.
pub open spec fn pack_cells(mask: Seq<u8>, packed: int, stride: int, y: nat, x: nat) -> Seq<u8>
    decreases y, x,
{
    if x == 0 {
        if y == 0 {
            mask
        } else if packed >= 0 {
            pack_cells(mask, packed, stride, (y - 1) as nat, packed as nat)
        } else {
            mask
        }
    } else {
        let before = pack_cells(mask, packed, stride, y, (x - 1) as nat);
        let to = cell(packed, y as int, x - 1);
        let from = cell(stride, y as int, x - 1);
        if 0 <= to < before.len() && 0 <= from < before.len() {
            before.update(to, !before[from])
        } else {
            before
        }
    }
}

/// The mask with its rows packed and inverted.
pub open spec fn packed_mask(mask: Seq<u8>, width: int, height: int, stride: int) -> Seq<u8> {
    pack_cells(mask, packed_width(width), stride, height as nat, 0)
}

fn is_transparent(cbits: &Vec<u8>, pixels: usize) -> (r: bool)
    requires
        pixels * 4 <= cbits.len(),
    ensures
        r == all_transparent(cbits@, pixels as int),
{
    let mut p: usize = 0;
    while p < pixels
        invariant
            p <= pixels,
            pixels * 4 <= cbits.len(),
            all_transparent(cbits@, p as int),
        decreases pixels - p,
    {
        if cbits[4 * p + 3] != 0 {
            return false;
        }
        p += 1;
    }
    true
}

fn pack_mask(mbits: &mut Vec<u8>, height: usize, packed: usize, stride: usize)
    requires
        height * packed <= usize::MAX,
        height * stride + packed <= usize::MAX,
    ensures
        final(mbits)@ == pack_cells(old(mbits)@, packed as int, stride as int, height as nat, 0),
        final(mbits)@.len() == old(mbits)@.len(),
{
    let size = mbits.len();
    let mut y: usize = 0;
    let mut to_row: usize = 0;
    let mut from_row: usize = 0;
    proof {
        assert(height * packed >= 0 && height * stride >= 0) by (nonlinear_arith)
            requires
                height >= 0,
                packed >= 0,
                stride >= 0,
        ;
    }
    while y < height
        invariant
            y <= height,
            size == mbits@.len(),
            size == old(mbits)@.len(),
            height * packed <= usize::MAX,
            height * stride + packed <= usize::MAX,
            to_row == cell(packed as int, y as int, 0),
            from_row == cell(stride as int, y as int, 0),
            mbits@ == pack_cells(old(mbits)@, packed as int, stride as int, y as nat, 0),
        decreases height - y,
    {
        proof {
            assert((y + 1) * packed <= height * packed && (y + 1) * stride <= height * stride
                && (y + 1) * packed == y * packed + packed && (y + 1) * stride == y * stride
                + stride) by (nonlinear_arith)
                requires
                    y + 1 <= height,
                    packed >= 0,
                    stride >= 0,
            ;
        }
        let mut x: usize = 0;
        while x < packed
            invariant
                x <= packed,
                y < height,
                size == mbits@.len(),
                size == old(mbits)@.len(),
                to_row == cell(packed as int, y as int, 0),
                from_row == cell(stride as int, y as int, 0),
                to_row + packed <= usize::MAX,
                from_row + packed <= usize::MAX,
                mbits@ == pack_cells(old(mbits)@, packed as int, stride as int, y as nat, x as nat),
            decreases packed - x,
        {
            let a: usize = to_row + x;
            let b: usize = from_row + x;
            if a < size && b < size {
                let inverted: u8 = !mbits[b];
                mbits.set(a, inverted);
            }
            x += 1;
        }
        to_row = to_row + packed;
        from_row = from_row + stride;
        y += 1;
    }
}

/// The bit of a mask byte that stands for the pixel in column `x`: the
/// highest bit for the first of eight pixels.
pub open spec fn bit_of(x: int) -> u8 {
    0x80u8 >> ((x % 8) as u8)
}

/// The four bytes of pixel `p`.
pub open spec fn pixel_at(colors: Seq<u8>, p: int) -> (u8, u8, u8, u8) {
    (colors[4 * p], colors[4 * p + 1], colors[4 * p + 2], colors[4 * p + 3])
}

/// Whether any byte of pixel `p` is set.
pub open spec fn is_colored(colors: Seq<u8>, p: int) -> bool {
    pixel_at(colors, p) != (0u8, 0u8, 0u8, 0u8)
}

/// Whether the pixel in column `x` of row `y` is drawn by inverting what is
/// under it: its bit of the packed mask lies in the mask and is clear, and the
/// pixel has a colour.
pub open spec fn is_inverting(mask: Seq<u8>, colors: Seq<u8>, width: int, x: int, y: int) -> bool {
    let i = cell(packed_width(width), y, x / 8);
    &&& i < mask.len()
    &&& mask[i] & bit_of(x) == 0
    &&& is_colored(colors, cell(width, y, x))
}

/// Byte `b` of row `y` of the mask once the first `bits` of its pixels were
/// looked at: the bit of every inverting pixel is set.
pub open spec fn lifted(byte: u8, colors: Seq<u8>, width: int, y: int, b: int, bits: nat) -> u8
    decreases bits,
{
    if bits == 0 {
        byte
    } else {
        let before = lifted(byte, colors, width, y, b, (bits - 1) as nat);
        let x = 8 * b + bits - 1;
        if x < width && byte & bit_of(x) == 0 && is_colored(colors, cell(width, y, x)) {
            before | bit_of(x)
        } else {
            before
        }
    }
}

/// The pixel in column `x` of row `y` once the inverting pixels were made
/// black: an inverting pixel has all its bytes cleared, any other is as it was.
pub open spec fn blackened(mask: Seq<u8>, colors: Seq<u8>, width: int, x: int, y: int) -> (
    u8,
    u8,
    u8,
    u8,
) {
    if is_inverting(mask, colors, width, x, y) {
        (0u8, 0u8, 0u8, 0u8)
    } else {
        pixel_at(colors, cell(width, y, x))
    }
}

/// The alpha of the pixel in column `x` of row `y`: opaque unless its bit
/// lies in the mask and is clear.
pub open spec fn alpha_of(mask: Seq<u8>, width: int, x: int, y: int) -> u8 {
    let i = cell(packed_width(width), y, x / 8);
    if i < mask.len() && (mask[i] << ((x % 8) as u8)) & 0x80 == 0 {
        0u8
    } else {
        255u8
    }
}

/// Whether `mask` is `packed` with the bits of the inverting pixels set.
pub open spec fn is_lifted_mask(
    mask: Seq<u8>,
    packed: Seq<u8>,
    colors: Seq<u8>,
    width: int,
    height: int,
) -> bool {
    &&& mask.len() == packed.len()
    &&& forall|y: int, b: int|
        0 <= y < height && 0 <= b < packed_width(width) && cell(packed_width(width), y, b)
            < mask.len() ==> mask[#[trigger] cell(packed_width(width), y, b)] == lifted(
            packed[cell(packed_width(width), y, b)],
            colors,
            width,
            y,
            b,
            8,
        )
    &&& forall|i: int|
        cell(packed_width(width), height, 0) <= i < mask.len() ==> #[trigger] mask[i] == packed[i]
}

/// Whether the pixels of `after` are those of `colors` with the inverting
/// ones made black.
pub open spec fn is_blackened(
    after: Seq<u8>,
    packed: Seq<u8>,
    colors: Seq<u8>,
    width: int,
    height: int,
) -> bool {
    &&& after.len() == colors.len()
    &&& forall|y: int, x: int|
        0 <= y < height && 0 <= x < width ==> pixel_at(after, #[trigger] cell(width, y, x))
            == blackened(packed, colors, width, x, y)
    &&& forall|i: int| 4 * cell(width, height, 0) <= i < after.len() ==> #[trigger] after[i]
        == colors[i]
}

/// Whether the pixels of `after` are those of `before` with the first and
/// the third byte exchanged and the alpha taken from `mask`.
pub open spec fn is_finished(
    after: Seq<u8>,
    before: Seq<u8>,
    mask: Seq<u8>,
    width: int,
    height: int,
) -> bool {
    &&& after.len() == before.len()
    &&& forall|y: int, x: int|
        0 <= y < height && 0 <= x < width ==> pixel_at(after, #[trigger] cell(width, y, x)) == (
            pixel_at(before, cell(width, y, x)).2,
            pixel_at(before, cell(width, y, x)).1,
            pixel_at(before, cell(width, y, x)).0,
            alpha_of(mask, width, x, y),
        )
    &&& forall|i: int| 4 * cell(width, height, 0) <= i < after.len() ==> #[trigger] after[i]
        == before[i]
}

/// Setting the bit of one pixel leaves the bits of the others as they are.
proof fn other_bits_stay(v: u8, j1: u8, j2: u8)
    requires
        j1 < 8,
        j2 < 8,
        j1 != j2,
    ensures
        (v | (0x80u8 >> j1)) & (0x80u8 >> j2) == v & (0x80u8 >> j2),
{
    assert((v | (0x80u8 >> j1)) & (0x80u8 >> j2) == v & (0x80u8 >> j2)) by (bit_vector)
        requires
            j1 < 8,
            j2 < 8,
            j1 != j2,
    ;
}

/// A bit that is clear is set by flipping it.
proof fn flipping_sets(v: u8, j: u8)
    requires
        j < 8,
        v & (0x80u8 >> j) == 0,
    ensures
        v ^ (0x80u8 >> j) == v | (0x80u8 >> j),
{
    assert(v ^ (0x80u8 >> j) == v | (0x80u8 >> j)) by (bit_vector)
        requires
            v & (0x80u8 >> j) == 0,
    ;
}

/// The bit of the `k`th pixel of byte `b`.
proof fn bit_of_column(b: int, k: int)
    requires
        0 <= b,
        0 <= k < 8,
    ensures
        bit_of(8 * b + k) == 0x80u8 >> (k as u8),
        (8 * b + k) % 8 == k,
        (8 * b + k) / 8 == b,
{
}

/// Looking at the first pixels of a byte leaves the bits of the later ones
/// as they were.
proof fn later_bits_stay(byte: u8, colors: Seq<u8>, width: int, y: int, b: int, bits: nat, t: int)
    requires
        0 <= b,
        bits <= t < 8,
    ensures
        lifted(byte, colors, width, y, b, bits) & bit_of(8 * b + t) == byte & bit_of(8 * b + t),
    decreases bits,
{
    if bits > 0 {
        later_bits_stay(byte, colors, width, y, b, (bits - 1) as nat, t);
        let before = lifted(byte, colors, width, y, b, (bits - 1) as nat);
        bit_of_column(b, bits - 1);
        bit_of_column(b, t);
        other_bits_stay(before, (bits - 1) as u8, t as u8);
    }
}

/// Pixels beyond the width of the bitmap leave a mask byte as it is.
proof fn beyond_the_width(byte: u8, colors: Seq<u8>, width: int, y: int, b: int, bits: nat)
    requires
        bits <= 8,
        8 * b + bits >= width,
    ensures
        lifted(byte, colors, width, y, b, 8) == lifted(byte, colors, width, y, b, bits),
    decreases 8 - bits,
{
    if bits < 8 {
        beyond_the_width(byte, colors, width, y, b, bits + 1);
    }
}

/// How many pixels of byte `b` lie before column `x`.
spec fn seen(x: int, b: int) -> nat {
    if x <= 8 * b {
        0
    } else if x >= 8 * b + 8 {
        8
    } else {
        (x - 8 * b) as nat
    }
}

fn lift_mask(mbits: &mut Vec<u8>, cbits: &mut Vec<u8>, width: usize, height: usize)
    requires
        width * height * 4 <= old(cbits).len(),
        width + 7 <= usize::MAX,
    ensures
        is_lifted_mask(final(mbits)@, old(mbits)@, old(cbits)@, width as int, height as int),
        is_blackened(final(cbits)@, old(mbits)@, old(cbits)@, width as int, height as int),
{
    let size = mbits.len();
    let packed: usize = (width + 7) / 8;
    let ghost m2 = mbits@;
    let ghost c0 = cbits@;
    let ghost w = width as int;
    let ghost n = packed as int;
    let mut y: usize = 0;
    let mut row: usize = 0;
    let mut first: usize = 0;
    proof {
        assert(width * height >= 0) by (nonlinear_arith)
            requires
                width >= 0,
                height >= 0,
        ;
    }
    while y < height
        invariant
            y <= height,
            packed == packed_width(w),
            n == packed,
            w == width,
            size == mbits@.len(),
            size == m2.len(),
            cbits@.len() == c0.len(),
            c0.len() <= usize::MAX,
            width * height * 4 <= c0.len(),
            row == cell(n, y as int, 0) || (row == size && cell(n, y as int, 0) >= size),
            row <= size,
            first == cell(w, y as int, 0),
            forall|y1: int, b1: int|
                0 <= y1 < y && 0 <= b1 < n && cell(n, y1, b1) < size ==> mbits@[#[trigger] cell(
                    n,
                    y1,
                    b1,
                )] == lifted(m2[cell(n, y1, b1)], c0, w, y1, b1, 8),
            forall|i: int| cell(n, y as int, 0) <= i < size ==> #[trigger] mbits@[i] == m2[i],
            forall|y1: int, x1: int|
                0 <= y1 < y && 0 <= x1 < w ==> pixel_at(cbits@, #[trigger] cell(w, y1, x1))
                    == blackened(m2, c0, w, x1, y1),
            forall|i: int| 4 * first <= i < c0.len() ==> #[trigger] cbits@[i] == c0[i],
        decreases height - y,
    {
        proof {
            assert((y + 1) * w <= height * w && (y + 1) * w == y * w + w && y * w >= 0)
                by (nonlinear_arith)
                requires
                    0 <= y,
                    y + 1 <= height,
                    w >= 0,
            ;
            assert((y + 1) * n == y * n + n && y * n >= 0) by (nonlinear_arith)
                requires
                    0 <= y,
                    n >= 0,
            ;
            assert(height * w == width * height) by (nonlinear_arith)
                requires
                    w == width,
            ;
        }
        let mut x: usize = 0;
        while x < width
            invariant
                x <= width,
                y < height,
                packed == packed_width(w),
                n == packed,
                w == width,
                size == mbits@.len(),
                size == m2.len(),
                cbits@.len() == c0.len(),
                c0.len() <= usize::MAX,
                width * height * 4 <= c0.len(),
                row == cell(n, y as int, 0) || (row == size && cell(n, y as int, 0) >= size),
                row <= size,
                first == cell(w, y as int, 0),
                first + width <= width * height,
                cell(n, y as int, 0) >= 0,
                forall|y1: int, b1: int|
                    0 <= y1 < y && 0 <= b1 < n && cell(n, y1, b1) < size ==> mbits@[#[trigger] cell(
                        n,
                        y1,
                        b1,
                    )] == lifted(m2[cell(n, y1, b1)], c0, w, y1, b1, 8),
                forall|b1: int|
                    0 <= b1 < n && cell(n, y as int, 0) + b1 < size ==> #[trigger] mbits@[cell(
                        n,
                        y as int,
                        0,
                    ) + b1] == lifted(
                        m2[cell(n, y as int, 0) + b1],
                        c0,
                        w,
                        y as int,
                        b1,
                        seen(x as int, b1),
                    ),
                forall|i: int|
                    cell(n, y as int, 0) + n <= i < size ==> #[trigger] mbits@[i] == m2[i],
                forall|y1: int, x1: int|
                    0 <= y1 < y && 0 <= x1 < w ==> pixel_at(cbits@, #[trigger] cell(w, y1, x1))
                        == blackened(m2, c0, w, x1, y1),
                forall|x1: int|
                    0 <= x1 < x ==> pixel_at(cbits@, #[trigger] cell(w, y as int, x1))
                        == blackened(m2, c0, w, x1, y as int),
                forall|i: int| 4 * (first + x) <= i < c0.len() ==> #[trigger] cbits@[i] == c0[i],
            decreases width - x,
        {
            let b: usize = x / 8;
            let j: u8 = (x % 8) as u8;
            let bit: u8 = 0x80u8 >> j;
            let p: usize = first + x;
            let ghost here = cell(n, y as int, 0) + b;
            let ghost mask_before = mbits@;
            let ghost colors_before = cbits@;
            assert(pixel_at(cbits@, p as int) == pixel_at(c0, p as int));
            assert(p == cell(w, y as int, x as int));
            assert(here == cell(n, y as int, b as int));
            let mut inverting = false;
            if b < size - row && row < size {
                let index: usize = row + b;
                assert(index == here);
                let current: u8 = mbits[index];
                proof {
                    assert(seen(x as int, b as int) == j);
                    later_bits_stay(m2[here], c0, w, y as int, b as int, j as nat, j as int);
                    assert(bit_of(x as int) == bit);
                    assert(bit_of(8 * b + j) == bit);
                }
                if current & bit == 0 {
                    if cbits[4 * p] != 0 || cbits[4 * p + 1] != 0 || cbits[4 * p + 2] != 0
                        || cbits[4 * p + 3] != 0 {
                        proof {
                            flipping_sets(current, j);
                        }
                        mbits.set(index, current ^ bit);
                        cbits.set(4 * p, 0);
                        cbits.set(4 * p + 1, 0);
                        cbits.set(4 * p + 2, 0);
                        cbits.set(4 * p + 3, 0);
                        inverting = true;
                    }
                }
            }
            proof {
                assert(inverting == is_inverting(m2, c0, w, x as int, y as int));
                assert(pixel_at(cbits@, p as int) == blackened(m2, c0, w, x as int, y as int));
                assert forall|y1: int, x1: int| 0 <= y1 < y && 0 <= x1 < w implies pixel_at(
                    cbits@,
                    #[trigger] cell(w, y1, x1),
                ) == blackened(m2, c0, w, x1, y1) by {
                    cells_are_ordered(w, y1, x1, y as int, x as int);
                    assert(pixel_at(colors_before, cell(w, y1, x1)) == blackened(
                        m2,
                        c0,
                        w,
                        x1,
                        y1,
                    ));
                }
                assert forall|x1: int| 0 <= x1 < x + 1 implies pixel_at(
                    cbits@,
                    #[trigger] cell(w, y as int, x1),
                ) == blackened(m2, c0, w, x1, y as int) by {
                    if x1 < x {
                        assert(pixel_at(colors_before, cell(w, y as int, x1)) == blackened(
                            m2,
                            c0,
                            w,
                            x1,
                            y as int,
                        ));
                    }
                }
                assert forall|y1: int, b1: int|
                    0 <= y1 < y && 0 <= b1 < n && cell(n, y1, b1) < size implies mbits@[#[trigger] cell(
                    n,
                    y1,
                    b1,
                )] == lifted(m2[cell(n, y1, b1)], c0, w, y1, b1, 8) by {
                    cells_are_ordered(n, y1, b1, y as int, b as int);
                    assert(mask_before[cell(n, y1, b1)] == lifted(
                        m2[cell(n, y1, b1)],
                        c0,
                        w,
                        y1,
                        b1,
                        8,
                    ));
                }
                assert forall|b1: int|
                    0 <= b1 < n && cell(n, y as int, 0) + b1 < size implies #[trigger] mbits@[cell(
                    n,
                    y as int,
                    0,
                ) + b1] == lifted(
                    m2[cell(n, y as int, 0) + b1],
                    c0,
                    w,
                    y as int,
                    b1,
                    seen(x + 1, b1),
                ) by {
                    assert(mask_before[cell(n, y as int, 0) + b1] == lifted(
                        m2[cell(n, y as int, 0) + b1],
                        c0,
                        w,
                        y as int,
                        b1,
                        seen(x as int, b1),
                    ));
                    if b1 == b {
                        assert(seen(x + 1, b1) == j + 1);
                        assert(8 * b1 + (j + 1) - 1 == x);
                    } else {
                        assert(seen(x + 1, b1) == seen(x as int, b1));
                    }
                }
            }
            x += 1;
        }
        proof {
            assert forall|y1: int, b1: int|
                0 <= y1 < y + 1 && 0 <= b1 < n && cell(n, y1, b1) < size implies mbits@[#[trigger] cell(
                n,
                y1,
                b1,
            )] == lifted(m2[cell(n, y1, b1)], c0, w, y1, b1, 8) by {
                if y1 == y {
                    assert(cell(n, y1, b1) == cell(n, y as int, 0) + b1);
                    assert(mbits@[cell(n, y as int, 0) + b1] == lifted(
                        m2[cell(n, y as int, 0) + b1],
                        c0,
                        w,
                        y as int,
                        b1,
                        seen(w, b1),
                    ));
                    if seen(w, b1) < 8 {
                        beyond_the_width(m2[cell(n, y1, b1)], c0, w, y1, b1, seen(w, b1));
                    }
                }
            }
            assert(cell(n, y + 1, 0) == cell(n, y as int, 0) + n);
            assert(cell(w, y + 1, 0) == first + width);
        }
        row = if packed < size - row {
            row + packed
        } else {
            size
        };
        first = first + width;
        y += 1;
    }
    proof {
        assert(cell(w, height as int, 0) == first);
    }
}

fn finish_colors(mbits: &Vec<u8>, cbits: &mut Vec<u8>, width: usize, height: usize)
    requires
        width * height * 4 <= old(cbits).len(),
        width + 7 <= usize::MAX,
    ensures
        is_finished(final(cbits)@, old(cbits)@, mbits@, width as int, height as int),
{
    let size = mbits.len();
    let packed: usize = (width + 7) / 8;
    let ghost c0 = cbits@;
    let ghost w = width as int;
    let ghost n = packed as int;
    let mut y: usize = 0;
    let mut row: usize = 0;
    let mut first: usize = 0;
    proof {
        assert(width * height >= 0) by (nonlinear_arith)
            requires
                width >= 0,
                height >= 0,
        ;
    }
    while y < height
        invariant
            y <= height,
            packed == packed_width(w),
            n == packed,
            w == width,
            size == mbits@.len(),
            cbits@.len() == c0.len(),
            c0.len() <= usize::MAX,
            width * height * 4 <= c0.len(),
            row == cell(n, y as int, 0) || (row == size && cell(n, y as int, 0) >= size),
            row <= size,
            first == cell(w, y as int, 0),
            forall|y1: int, x1: int|
                0 <= y1 < y && 0 <= x1 < w ==> pixel_at(cbits@, #[trigger] cell(w, y1, x1)) == (
                    pixel_at(c0, cell(w, y1, x1)).2,
                    pixel_at(c0, cell(w, y1, x1)).1,
                    pixel_at(c0, cell(w, y1, x1)).0,
                    alpha_of(mbits@, w, x1, y1),
                ),
            forall|i: int| 4 * first <= i < c0.len() ==> #[trigger] cbits@[i] == c0[i],
        decreases height - y,
    {
        proof {
            assert((y + 1) * w <= height * w && (y + 1) * w == y * w + w && y * w >= 0)
                by (nonlinear_arith)
                requires
                    0 <= y,
                    y + 1 <= height,
                    w >= 0,
            ;
            assert((y + 1) * n == y * n + n && y * n >= 0) by (nonlinear_arith)
                requires
                    0 <= y,
                    n >= 0,
            ;
            assert(height * w == width * height) by (nonlinear_arith)
                requires
                    w == width,
            ;
        }
        let mut x: usize = 0;
        while x < width
            invariant
                x <= width,
                y < height,
                packed == packed_width(w),
                n == packed,
                w == width,
                size == mbits@.len(),
                cbits@.len() == c0.len(),
                c0.len() <= usize::MAX,
                width * height * 4 <= c0.len(),
                row == cell(n, y as int, 0) || (row == size && cell(n, y as int, 0) >= size),
                row <= size,
                first == cell(w, y as int, 0),
                first + width <= width * height,
                cell(n, y as int, 0) >= 0,
                forall|y1: int, x1: int|
                    0 <= y1 < y && 0 <= x1 < w ==> pixel_at(cbits@, #[trigger] cell(w, y1, x1))
                        == (
                        pixel_at(c0, cell(w, y1, x1)).2,
                        pixel_at(c0, cell(w, y1, x1)).1,
                        pixel_at(c0, cell(w, y1, x1)).0,
                        alpha_of(mbits@, w, x1, y1),
                    ),
                forall|x1: int|
                    0 <= x1 < x ==> pixel_at(cbits@, #[trigger] cell(w, y as int, x1)) == (
                        pixel_at(c0, cell(w, y as int, x1)).2,
                        pixel_at(c0, cell(w, y as int, x1)).1,
                        pixel_at(c0, cell(w, y as int, x1)).0,
                        alpha_of(mbits@, w, x1, y as int),
                    ),
                forall|i: int| 4 * (first + x) <= i < c0.len() ==> #[trigger] cbits@[i] == c0[i],
            decreases width - x,
        {
            let b: usize = x / 8;
            let j: u8 = (x % 8) as u8;
            let p: usize = first + x;
            let ghost colors_before = cbits@;
            assert(pixel_at(cbits@, p as int) == pixel_at(c0, p as int));
            assert(p == cell(w, y as int, x as int));
            assert(cell(n, y as int, b as int) == cell(n, y as int, 0) + b);
            let mut alpha: u8 = 255;
            if b < size - row && row < size {
                let shifted: u8 = mbits[row + b] << j;
                if shifted & 0x80 == 0 {
                    alpha = 0;
                }
            }
            assert(alpha == alpha_of(mbits@, w, x as int, y as int));
            let blue: u8 = cbits[4 * p];
            let red: u8 = cbits[4 * p + 2];
            cbits.set(4 * p, red);
            cbits.set(4 * p + 2, blue);
            cbits.set(4 * p + 3, alpha);
            proof {
                assert forall|y1: int, x1: int| 0 <= y1 < y && 0 <= x1 < w implies pixel_at(
                    cbits@,
                    #[trigger] cell(w, y1, x1),
                ) == (
                    pixel_at(c0, cell(w, y1, x1)).2,
                    pixel_at(c0, cell(w, y1, x1)).1,
                    pixel_at(c0, cell(w, y1, x1)).0,
                    alpha_of(mbits@, w, x1, y1),
                ) by {
                    cells_are_ordered(w, y1, x1, y as int, x as int);
                    assert(pixel_at(cbits@, cell(w, y1, x1)) == pixel_at(
                        colors_before,
                        cell(w, y1, x1),
                    ));
                }
                assert forall|x1: int| 0 <= x1 < x + 1 implies pixel_at(
                    cbits@,
                    #[trigger] cell(w, y as int, x1),
                ) == (
                    pixel_at(c0, cell(w, y as int, x1)).2,
                    pixel_at(c0, cell(w, y as int, x1)).1,
                    pixel_at(c0, cell(w, y as int, x1)).0,
                    alpha_of(mbits@, w, x1, y as int),
                ) by {
                    if x1 < x {
                        assert(pixel_at(cbits@, cell(w, y as int, x1)) == pixel_at(
                            colors_before,
                            cell(w, y as int, x1),
                        ));
                    }
                }
            }
            x += 1;
        }
        proof {
            assert(cell(n, y + 1, 0) == cell(n, y as int, 0) + n);
            assert(cell(w, y + 1, 0) == first + width);
        }
        row = if packed < size - row {
            row + packed
        } else {
            size
        };
        first = first + width;
        y += 1;
    }
    proof {
        assert(cell(w, height as int, 0) == first);
    }
}

/// The pixel in column `x` of row `y` of a fixed cursor: the pixel with its
/// inverting made black, its first and third byte exchanged, and the alpha
/// that the lifted mask gives it.
pub open spec fn fixed_pixel(
    packed: Seq<u8>,
    lifted_mask: Seq<u8>,
    colors: Seq<u8>,
    width: int,
    x: int,
    y: int,
) -> (u8, u8, u8, u8) {
    (
        blackened(packed, colors, width, x, y).2,
        blackened(packed, colors, width, x, y).1,
        blackened(packed, colors, width, x, y).0,
        alpha_of(lifted_mask, width, x, y),
    )
}

/// Whether `after` holds the fixed pixels of a cursor of `width` by `height`
/// pixels, and behind them what `colors` holds there.
pub open spec fn is_fixed_colors(
    after: Seq<u8>,
    packed: Seq<u8>,
    lifted_mask: Seq<u8>,
    colors: Seq<u8>,
    width: int,
    height: int,
) -> bool {
    &&& after.len() == colors.len()
    &&& forall|y: int, x: int|
        0 <= y < height && 0 <= x < width ==> pixel_at(after, #[trigger] cell(width, y, x))
            == fixed_pixel(packed, lifted_mask, colors, width, x, y)
    &&& forall|i: int| 4 * cell(width, height, 0) <= i < after.len() ==> #[trigger] after[i]
        == colors[i]
}

/// Makes the mask and the colours of a colour cursor fit to be sent.
///
/// A cursor that has a pixel with an alpha other than zero needs no fixing:
/// the answer is `false` and nothing is changed. For any other cursor the
/// answer is `true`; the rows of the mask are packed to `(width + 7) / 8`
/// bytes and inverted, every pixel that would be drawn by inverting the
/// screen is made black and its bit set in the mask, and every pixel gets its
/// first and third byte exchanged and an alpha from the mask.
///
/// `cbits` has to hold four bytes for each of `width` times `height` pixels.
pub fn fix_cursor_mask(
    mbits: &mut Vec<u8>,
    cbits: &mut Vec<u8>,
    width: usize,
    height: usize,
    bm_width_bytes: usize,
) -> (r: bool)
    requires
        width * height * 4 <= old(cbits).len(),
        width + 7 <= usize::MAX,
        height * bm_width_bytes + packed_width(width as int) <= usize::MAX,
    ensures
        r == all_transparent(old(cbits)@, width * height),
        !r ==> final(mbits)@ == old(mbits)@ && final(cbits)@ == old(cbits)@,
        r ==> is_lifted_mask(
            final(mbits)@,
            packed_mask(old(mbits)@, width as int, height as int, bm_width_bytes as int),
            old(cbits)@,
            width as int,
            height as int,
        ),
        r ==> is_fixed_colors(
            final(cbits)@,
            packed_mask(old(mbits)@, width as int, height as int, bm_width_bytes as int),
            final(mbits)@,
            old(cbits)@,
            width as int,
            height as int,
        ),
{
    proof {
        assert(0 <= width * height <= width * height * 4) by (nonlinear_arith)
            requires
                width >= 0,
                height >= 0,
        ;
    }
    let pixels: usize = width * height;
    if !is_transparent(cbits, pixels) {
        return false;
    }
    let packed: usize = (width + 7) / 8;
    proof {
        if width == 0 {
            assert(height * packed == 0) by (nonlinear_arith)
                requires
                    packed == 0,
            ;
        } else {
            assert(height * packed <= width * height) by (nonlinear_arith)
                requires
                    packed <= width,
                    height >= 0,
            ;
        }
    }
    pack_mask(mbits, height, packed, bm_width_bytes);
    let ghost m2 = mbits@;
    let ghost c0 = cbits@;
    lift_mask(mbits, cbits, width, height);
    let ghost c3 = cbits@;
    finish_colors(mbits, cbits, width, height);
    proof {
        assert forall|y: int, x: int| 0 <= y < height && 0 <= x < width implies pixel_at(
            cbits@,
            #[trigger] cell(width as int, y, x),
        ) == fixed_pixel(m2, mbits@, c0, width as int, x, y) by {
            assert(pixel_at(c3, cell(width as int, y, x)) == blackened(
                m2,
                c0,
                width as int,
                x,
                y,
            ));
        }
    }
    true
}

/// The alpha is read from the bit of the pixel: a pixel is transparent exactly
/// when its bit lies in the mask and is clear.
pub proof fn alpha_reads_the_bit(mask: Seq<u8>, width: int, x: int, y: int)
    requires
        0 <= x,
    ensures
        alpha_of(mask, width, x, y) == (if cell(packed_width(width), y, x / 8) < mask.len()
            && mask[cell(packed_width(width), y, x / 8)] & bit_of(x) == 0 {
            0u8
        } else {
            255u8
        }),
{
    let i = cell(packed_width(width), y, x / 8);
    if i < mask.len() {
        let v = mask[i];
        let j = (x % 8) as u8;
        assert(((v << j) & 0x80 == 0) == (v & (0x80u8 >> j) == 0)) by (bit_vector)
            requires
                j < 8,
        ;
    }
}

/// In a lifted byte, the bit of a pixel is set exactly when it was set
/// before or the pixel lies in the bitmap and has a colour.
pub proof fn lifted_sets_the_bits_of_colour(
    byte: u8,
    colors: Seq<u8>,
    width: int,
    y: int,
    b: int,
    bits: nat,
    t: int,
)
    requires
        0 <= b,
        0 <= t < bits <= 8,
    ensures
        (lifted(byte, colors, width, y, b, bits) & bit_of(8 * b + t) != 0) == (byte & bit_of(
            8 * b + t,
        ) != 0 || (8 * b + t < width && is_colored(colors, cell(width, y, 8 * b + t)))),
    decreases bits,
{
    let before = lifted(byte, colors, width, y, b, (bits - 1) as nat);
    let j = (bits - 1) as u8;
    let k = t as u8;
    bit_of_column(b, bits - 1);
    bit_of_column(b, t);
    if t == bits - 1 {
        later_bits_stay(byte, colors, width, y, b, (bits - 1) as nat, t);
        assert((before | (0x80u8 >> j)) & (0x80u8 >> j) != 0) by (bit_vector)
            requires
                j < 8,
        ;
    } else {
        lifted_sets_the_bits_of_colour(byte, colors, width, y, b, (bits - 1) as nat, t);
        other_bits_stay(before, j, k);
    }
}

/// Why the bitmap of a cursor cannot be used.
#[derive(Clone, Copy, Debug, PartialEq, Eq, Structural)]
pub enum CursorError {
    /// The bitmap has a negative width, height or row length.
    Malformed,
    /// The cursor has fewer than four pixels.
    TooSmall,
    /// The colours or the mask would not fit a buffer.
    TooLarge,
    /// The state of the cursor could not be read.
    Unreadable,
    /// The mask has more than one plane.
    MultiPlane,
    /// The mask has more than one bit for a pixel.
    NotAMask,
}

/// The flag of a cursor that is shown.
pub const CURSOR_SHOWING: u32 = 1;

/// Tells which cursor is shown: none where the cursor is hidden. `info` is
/// the flags and the handle of the cursor, where they could be read.
pub fn get_cursor(info: Option<(u32, u64)>) -> (r: Result<Option<u64>, CursorError>)
    ensures
        r == (match info {
            None => Err::<Option<u64>, CursorError>(CursorError::Unreadable),
            Some((flags, handle)) => if flags & CURSOR_SHOWING == 0 {
                Ok::<Option<u64>, CursorError>(None)
            } else {
                Ok::<Option<u64>, CursorError>(Some(handle))
            },
        }),
{
    match info {
        None => Err(CursorError::Unreadable),
        Some((flags, handle)) => {
            if flags & CURSOR_SHOWING == 0 {
                Ok(None)
            } else {
                Ok(Some(handle))
            }
        },
    }
}

/// Tells whether a bitmap can serve as the mask of a cursor: it has one
/// plane and one bit for a pixel.
pub fn get_bitmap(planes: u16, bits_pixel: u16) -> (r: Result<(), CursorError>)
    ensures
        r == (if planes != 1 {
            Err::<(), CursorError>(CursorError::MultiPlane)
        } else if bits_pixel != 1 {
            Err::<(), CursorError>(CursorError::NotAMask)
        } else {
            Ok::<(), CursorError>(())
        }),
{
    if planes != 1 {
        Err(CursorError::MultiPlane)
    } else if bits_pixel != 1 {
        Err(CursorError::NotAMask)
    } else {
        Ok(())
    }
}

/// The size of a cursor and of the buffers that hold it.
#[derive(Clone, Copy, Debug, PartialEq, Eq, Structural)]
pub struct CursorShape {
    pub width: i32,
    pub height: i32,
    /// The number of bytes of colour: four for each pixel.
    pub colors_len: usize,
    /// The number of bytes of the mask: the rows of the mask bitmap.
    pub mask_len: usize,
}

/// The largest size of a buffer that is asked for.
pub const MAX_BUFFER: i64 = 0x7FFF_FFFF;

/// The height of a cursor: that of its mask bitmap for a colour cursor, and
/// half of it for a cursor whose mask bitmap holds two masks.
pub open spec fn cursor_height(is_color: bool, bm_height: int) -> int {
    if is_color {
        bm_height
    } else {
        bm_height / 2
    }
}

/// The shape of the cursor that a mask bitmap belongs to.
pub open spec fn shape_of(is_color: bool, bm_width: i32, bm_height: i32, bm_width_bytes: i32) -> Result<
    CursorShape,
    CursorError,
> {
    let height = cursor_height(is_color, bm_height as int);
    if bm_width < 0 || bm_height < 0 || bm_width_bytes < 0 {
        Err(CursorError::Malformed)
    } else if bm_width * height * 4 < 16 {
        Err(CursorError::TooSmall)
    } else if bm_width * height * 4 > MAX_BUFFER || bm_width_bytes * bm_height > MAX_BUFFER {
        Err(CursorError::TooLarge)
    } else {
        Ok(
            CursorShape {
                width: bm_width,
                height: height as i32,
                colors_len: (bm_width * height * 4) as usize,
                mask_len: (bm_width_bytes * bm_height) as usize,
            },
        )
    }
}

/// Works out the shape of a cursor from its mask bitmap.
pub fn cursor_shape(is_color: bool, bm_width: i32, bm_height: i32, bm_width_bytes: i32) -> (r:
    Result<CursorShape, CursorError>)
    ensures
        r == shape_of(is_color, bm_width, bm_height, bm_width_bytes),
{
    if bm_width < 0 || bm_height < 0 || bm_width_bytes < 0 {
        return Err(CursorError::Malformed);
    }
    let height: i32 = if is_color {
        bm_height
    } else {
        bm_height / 2
    };
    assert(0 <= bm_width * height <= 0x7FFF_FFFF * 0x7FFF_FFFF) by (nonlinear_arith)
        requires
            0 <= bm_width <= 0x7FFF_FFFF,
            0 <= height <= 0x7FFF_FFFF,
    ;
    assert(0 <= bm_width_bytes * bm_height <= 0x7FFF_FFFF * 0x7FFF_FFFF) by (nonlinear_arith)
        requires
            0 <= bm_width_bytes <= 0x7FFF_FFFF,
            0 <= bm_height <= 0x7FFF_FFFF,
    ;
    let pixels: i64 = (bm_width as i64) * (height as i64);
    let mask: i64 = (bm_width_bytes as i64) * (bm_height as i64);
    if pixels < 4 {
        Err(CursorError::TooSmall)
    } else if pixels > MAX_BUFFER / 4 || mask > MAX_BUFFER {
        Err(CursorError::TooLarge)
    } else {
        Ok(
            CursorShape {
                width: bm_width,
                height,
                colors_len: (pixels * 4) as usize,
                mask_len: mask as usize,
            },
        )
    }
}

/// A cursor as it is sent.
#[derive(Debug, PartialEq, Eq)]
pub struct CursorData {
    pub id: u64,
    pub colors: Vec<u8>,
    pub hotx: i32,
    pub hoty: i32,
    pub width: i32,
    pub height: i32,
}

/// Puts a cursor together. Where an outline was drawn, the cursor is its
/// outlined picture: a pixel wider at every edge, with the hot spot moved by
/// one pixel in both directions.
pub fn get_cursor_data(
    hcursor: u64,
    shape: CursorShape,
    colors: Vec<u8>,
    hotx: i32,
    hoty: i32,
    outline: Option<Vec<u8>>,
) -> (r: CursorData)
    requires
        outline is Some ==> shape.width <= i32::MAX - 2 && shape.height <= i32::MAX - 2 && hotx
            < i32::MAX && hoty < i32::MAX,
    ensures
        r.id == hcursor,
        match outline {
            Some(picture) => {
                &&& r.colors == picture
                &&& r.width == shape.width + 2
                &&& r.height == shape.height + 2
                &&& r.hotx == hotx + 1
                &&& r.hoty == hoty + 1
            },
            None => {
                &&& r.colors == colors
                &&& r.width == shape.width
                &&& r.height == shape.height
                &&& r.hotx == hotx
                &&& r.hoty == hoty
            },
        },
{
    match outline {
        Some(picture) => CursorData {
            id: hcursor,
            colors: picture,
            hotx: hotx + 1,
            hoty: hoty + 1,
            width: shape.width + 2,
            height: shape.height + 2,
        },
        None => CursorData {
            id: hcursor,
            colors,
            hotx,
            hoty,
            width: shape.width,
            height: shape.height,
        },
    }
}

/// The number of bytes of the outlined picture of a cursor.
pub fn outline_len(shape: CursorShape) -> (r: Option<usize>)
    ensures
        r == (if 0 <= shape.width && 0 <= shape.height && (shape.width + 2) * (shape.height + 2)
            * 4 <= MAX_BUFFER {
            Some(((shape.width + 2) * (shape.height + 2) * 4) as usize)
        } else {
            None::<usize>
        }),
{
    if shape.width < 0 || shape.height < 0 {
        return None;
    }
    let w: i64 = shape.width as i64 + 2;
    let h: i64 = shape.height as i64 + 2;
    assert(0 <= w * h <= 0x8000_0001 * 0x8000_0001) by (nonlinear_arith)
        requires
            0 <= w <= 0x8000_0001,
            0 <= h <= 0x8000_0001,
    ;
    let pixels: i64 = w * h;
    if pixels > MAX_BUFFER / 4 {
        None
    } else {
        Some((pixels * 4) as usize)
    }
}

} // verus!

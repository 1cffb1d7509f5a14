//! Moving pixels between an OpenVX image patch and a packed buffer.
use vstd::prelude::*;

use crate::call::Addressing;
use crate::consts::VX_SCALE_UNITY;

verus! {

/// The copied length of one row can be computed in 32-bit integers as
/// `stride_x * (dim_x * scale_x) / VX_SCALE_UNITY`
/// without overflow, and is not negative.
pub open spec fn row_len_ok(a: Addressing) -> bool {
    &&& a.dim_x * a.scale_x <= u32::MAX
    &&& 0 <= a.stride_x * (((a.dim_x * a.scale_x) as u32) as i32) <= i32::MAX
}

/// How many bytes of each row are copied.
pub open spec fn row_len(a: Addressing) -> nat {
    ((a.stride_x * (((a.dim_x * a.scale_x) as u32) as i32)) / (VX_SCALE_UNITY as int)) as nat
}

/// The byte offset of pixel (x, y) in a patch, as OpenVX's
/// `vxFormatImagePatchAddress2d` computes it.
pub open spec fn pixel_offset(a: Addressing, x: nat, y: nat) -> int {
    a.stride_y * ((a.scale_y * y) / (VX_SCALE_UNITY as int)) + a.stride_x * ((a.scale_x * x) / (
    VX_SCALE_UNITY as int))
}

/// Row `y` is copied from inside a patch of `patch_len` bytes to inside a
/// buffer of `width * height` bytes, with every address computed without
/// wrapping around.
pub open spec fn row_fits(a: Addressing, width: nat, height: nat, patch_len: nat, y: nat) -> bool {
    &&& y < a.dim_y
    &&& a.scale_y * y <= u32::MAX
    &&& a.stride_y >= 0
    &&& pixel_offset(a, 0, y) <= u32::MAX
    &&& pixel_offset(a, 0, y) + row_len(a) <= patch_len
    &&& y * width + row_len(a) <= width * height
}

/// The patch can be packed into a `width` by `height` buffer: the image has
/// at least one pixel, the buffer size fits in 32 bits, rows are stepped
/// through by a positive `step_y`, and every copied row fits.
pub open spec fn pack_fits(a: Addressing, width: nat, height: nat, patch_len: nat) -> bool {
    &&& width >= 1
    &&& height >= 1
    &&& width * height <= u32::MAX
    &&& a.step_y > 0
    &&& row_len_ok(a)
    &&& forall|y: nat| y < height && #[trigger] (y % (a.step_y as nat)) == 0 ==> row_fits(
        a,
        width,
        height,
        patch_len,
        y,
    )
}

/// `buf` with row `y` of the patch copied to `y * width`.
pub open spec fn write_row(buf: Seq<u8>, patch: Seq<u8>, a: Addressing, width: nat, y: nat) -> Seq<
    u8,
> {
    let start = y * width;
    let off = pixel_offset(a, 0, y);
    Seq::new(
        buf.len(),
        |i: int|
            if start <= i < start + row_len(a) {
                patch[off + (i - start)]
            } else {
                buf[i]
            },
    )
}

/// A zeroed buffer of `size` bytes after the rows above `k` (the ones
/// divisible by `step_y`) have been copied, in increasing order.
pub open spec fn packed(patch: Seq<u8>, a: Addressing, width: nat, size: nat, k: nat) -> Seq<u8>
    decreases k,
{
    if k == 0 {
        Seq::new(size, |i: int| 0u8)
    } else {
        let prev = packed(patch, a, width, size, (k - 1) as nat);
        if ((k - 1) as nat) % (a.step_y as nat) == 0 {
            write_row(prev, patch, a, width, (k - 1) as nat)
        } else {
            prev
        }
    }
}

proof fn lemma_mul_le(x: nat, y: nat, z: nat)
    requires
        x <= y,
    ensures
        x * z <= y * z,
        z * x <= z * y,
{
    assert(x * z <= y * z && z * x <= z * y) by (nonlinear_arith)
        requires
            x <= y,
    ;
}

proof fn lemma_mul_nonneg_bound(x: int, y: int, bx: int, by_: int)
    requires
        0 <= x <= bx,
        0 <= y <= by_,
    ensures
        0 <= x * y <= bx * by_,
{
    assert(0 <= x * y <= bx * by_) by (nonlinear_arith)
        requires
            0 <= x <= bx,
            0 <= y <= by_,
    ;
}

proof fn lemma_mul_signed_bound(x: int, y: int)
    requires
        -0x8000_0000 <= x <= 0x8000_0000,
        -0x8000_0000 <= y <= 0x8000_0000,
    ensures
        -0x4000_0000_0000_0000 <= x * y <= 0x4000_0000_0000_0000,
{
    assert(-0x4000_0000_0000_0000 <= x * y <= 0x4000_0000_0000_0000) by (nonlinear_arith)
        requires
            -0x8000_0000 <= x <= 0x8000_0000,
            -0x8000_0000 <= y <= 0x8000_0000,
    ;
}

proof fn lemma_pixel_offset_row(a: Addressing, y: nat)
    ensures
        pixel_offset(a, 0, y) == a.stride_y * ((a.scale_y * y) / (VX_SCALE_UNITY as int)),
{
    let s = a.scale_x as int;
    assert(s * 0 == 0) by (nonlinear_arith);
    let z = (s * 0) / (VX_SCALE_UNITY as int);
    assert(z == 0);
    let sx = a.stride_x as int;
    assert(sx * z == 0) by (nonlinear_arith)
        requires
            z == 0,
    ;
}

proof fn lemma_packed_len(patch: Seq<u8>, a: Addressing, width: nat, size: nat, k: nat)
    ensures
        packed(patch, a, width, size, k).len() == size,
    decreases k,
{
    if k > 0 {
        lemma_packed_len(patch, a, width, size, (k - 1) as nat);
    }
}

/// The number of bytes each row contributes, computed in 32-bit integers.
pub fn packed_row_len(a: &Addressing) -> (len: u32)
    requires
        row_len_ok(*a),
    ensures
        len == row_len(*a),
{
    let w: u32 = a.dim_x * a.scale_x;
    let x: i32 = w as i32;
    let p: i32 = a.stride_x * x;
    (p as u32) / VX_SCALE_UNITY
}

/// Whether `pack_fits` holds.
pub fn patch_fits(a: &Addressing, width: u32, height: u32, patch_len: usize) -> (ok: bool)
    ensures
        ok == pack_fits(*a, width as nat, height as nat, patch_len as nat),
{
    proof {
        lemma_mul_nonneg_bound(width as int, height as int, u32::MAX as int, u32::MAX as int);
        lemma_mul_nonneg_bound(a.dim_x as int, a.scale_x as int, u32::MAX as int, u32::MAX as int);
    }
    let size: u64 = (width as u64) * (height as u64);
    if width == 0 || height == 0 || size > u32::MAX as u64 || a.step_y == 0 {
        return false;
    }
    let w: u64 = (a.dim_x as u64) * (a.scale_x as u64);
    if w > u32::MAX as u64 {
        return false;
    }
    let x: i64 = (w as u32) as i32 as i64;
    proof {
        lemma_mul_signed_bound(a.stride_x as int, x as int);
    }
    let p: i64 = (a.stride_x as i64) * x;
    if p < 0 || p > i32::MAX as i64 {
        return false;
    }
    let len: u64 = (p as u64) / (VX_SCALE_UNITY as u64);
    let mut y: u32 = 0;
    while y < height
        invariant
            0 <= y <= height,
            width >= 1,
            height >= 1,
            size == width * height,
            size <= u32::MAX,
            a.step_y > 0,
            row_len_ok(*a),
            len == row_len(*a),
            forall|r: nat|
                r < y && #[trigger] (r % (a.step_y as nat)) == 0 ==> row_fits(
                    *a,
                    width as nat,
                    height as nat,
                    patch_len as nat,
                    r,
                ),
        decreases height - y,
    {
        let is_row = y % a.step_y == 0;
        assert(is_row == ((y as nat) % (a.step_y as nat) == 0));
        if is_row {
            proof {
                lemma_mul_nonneg_bound(a.scale_y as int, y as int, u32::MAX as int, u32::MAX as int);
            }
            let sy: u64 = (a.scale_y as u64) * (y as u64);
            if y >= a.dim_y || sy > u32::MAX as u64 || a.stride_y < 0 {
                return false;
            }
            proof {
                lemma_mul_nonneg_bound(
                    a.stride_y as int,
                    (sy / 1024) as int,
                    i32::MAX as int,
                    u32::MAX as int,
                );
            }
            let off: u64 = (a.stride_y as u64) * (sy / (VX_SCALE_UNITY as u64));
            proof {
                lemma_pixel_offset_row(*a, y as nat);
            }
            assert(off == pixel_offset(*a, 0, y as nat));
            if off > u32::MAX as u64 || off + len > patch_len as u64 {
                return false;
            }
            proof {
                lemma_mul_le(y as nat, height as nat, width as nat);
            }
            let start: u64 = (y as u64) * (width as u64);
            if start + len > size {
                return false;
            }
        }
        y = y + 1;
    }
    true
}

/// The buffer `write_row` leaves after the first `t` bytes of row `y` were copied.
pub open spec fn partly_written(
    buf: Seq<u8>,
    patch: Seq<u8>,
    a: Addressing,
    width: nat,
    y: nat,
    t: nat,
) -> Seq<u8> {
    let start = y * width;
    let off = pixel_offset(a, 0, y);
    Seq::new(
        buf.len(),
        |i: int|
            if start <= i < start + t {
                patch[off + (i - start)]
            } else {
                buf[i]
            },
    )
}

/// Copies the rows of `patch` that `step_y` selects into a zeroed buffer of
/// `width * height` bytes, row `y` starting at `y * width`, as
/// `create_mat_from_image` does with the mapped patch of an image.
pub fn pack_image_patch(patch: &Vec<u8>, a: &Addressing, width: u32, height: u32) -> (buffer: Vec<
    u8,
>)
    requires
        pack_fits(*a, width as nat, height as nat, patch.len() as nat),
    ensures
        buffer@ == packed(patch@, *a, width as nat, (width * height) as nat, height as nat),
{
    let size = (width * height) as usize;
    let ghost sz = (width * height) as nat;
    let mut buffer: Vec<u8> = vec![0u8; size];
    assert(buffer@ =~= packed(patch@, *a, width as nat, sz, 0));
    let len = packed_row_len(a) as usize;
    let mut y: u32 = 0;
    while y < height
        invariant
            0 <= y <= height,
            size == sz,
            sz == width * height,
            len == row_len(*a),
            pack_fits(*a, width as nat, height as nat, patch.len() as nat),
            buffer@ == packed(patch@, *a, width as nat, sz, y as nat),
        decreases height - y,
    {
        let ghost prev = buffer@;
        proof {
            lemma_packed_len(patch@, *a, width as nat, sz, y as nat);
        }
        let is_row = y % a.step_y == 0;
        assert(is_row == ((y as nat) % (a.step_y as nat) == 0));
        if is_row {
            assert(row_fits(*a, width as nat, height as nat, patch.len() as nat, y as nat));
            proof {
                lemma_mul_nonneg_bound(a.scale_y as int, y as int, u32::MAX as int, u32::MAX as int);
            }
            let sy: u64 = (a.scale_y as u64) * (y as u64);
            proof {
                lemma_mul_nonneg_bound(
                    a.stride_y as int,
                    (sy / 1024) as int,
                    i32::MAX as int,
                    u32::MAX as int,
                );
            }
            let off64: u64 = (a.stride_y as u64) * (sy / (VX_SCALE_UNITY as u64));
            proof {
                lemma_pixel_offset_row(*a, y as nat);
            }
            assert(off64 == pixel_offset(*a, 0, y as nat));
            let off = off64 as usize;
            proof {
                lemma_mul_le(y as nat, height as nat, width as nat);
            }
            let start = (y * width) as usize;
            let mut t: usize = 0;
            while t < len
                invariant
                    0 <= t <= len,
                    len == row_len(*a),
                    off == pixel_offset(*a, 0, y as nat),
                    start == y * width,
                    off + len <= patch.len(),
                    start + len <= sz,
                    sz <= u32::MAX,
                    buffer@.len() == sz,
                    prev.len() == sz,
                    buffer@ == partly_written(prev, patch@, *a, width as nat, y as nat, t as nat),
                decreases len - t,
            {
                buffer.set(start + t, patch[off + t]);
                t = t + 1;
                assert(buffer@ =~= partly_written(
                    prev,
                    patch@,
                    *a,
                    width as nat,
                    y as nat,
                    t as nat,
                ));
            }
            assert(buffer@ =~= write_row(prev, patch@, *a, width as nat, y as nat));
        }
        y = y + 1;
    }
    buffer
}

/// The byte of `buf` that holds pixel (x, y) of a row-major image `width` pixels wide.
pub open spec fn pixel_at(buf: Seq<u8>, width: nat, x: nat, y: nat) -> u8 {
    buf[(y * width + x) as int]
}

proof fn lemma_row_index(x: nat, y: nat, k: nat, width: nat)
    requires
        x < width,
        y < k,
    ensures
        y * width + x < k * width,
        y * width <= y * width + x,
{
    assert(y * width + x < k * width) by (nonlinear_arith)
        requires
            x < width,
            y < k,
    ;
}

proof fn lemma_standard_rows(patch: Seq<u8>, a: Addressing, width: nat, height: nat, k: nat)
    requires
        pack_fits(a, width, height, patch.len()),
        a.step_y == 1,
        a.scale_y == VX_SCALE_UNITY,
        row_len(a) == width,
        k <= height,
    ensures
        packed(patch, a, width, width * height, k).len() == width * height,
        forall|x: nat, y: nat|
            x < width && y < k ==> #[trigger] pixel_at(
                packed(patch, a, width, width * height, k),
                width,
                x,
                y,
            ) == patch[a.stride_y * y + x],
    decreases k,
{
    lemma_packed_len(patch, a, width, width * height, k);
    if k > 0 {
        let r = (k - 1) as nat;
        lemma_standard_rows(patch, a, width, height, r);
        let prev = packed(patch, a, width, width * height, r);
        assert(r % 1 == 0);
        assert(r % (a.step_y as nat) == 0);
        let cur = packed(patch, a, width, width * height, k);
        assert(cur == write_row(prev, patch, a, width, r));
        lemma_pixel_offset_row(a, r);
        assert((a.scale_y * r) / (VX_SCALE_UNITY as int) == r);
        assert forall|x: nat, y: nat| x < width && y < k implies #[trigger] pixel_at(
            cur,
            width,
            x,
            y,
        ) == patch[a.stride_y * y + x] by {
            lemma_row_index(x, y, k, width);
            lemma_mul_le(k, height, width);
            assert(k * width == width * k && height * width == width * height) by (nonlinear_arith);
            let i = (y * width + x) as int;
            assert(i < width * height);
            if y == r {
                assert(r * width <= i < r * width + row_len(a));
                assert(cur[i] == patch[pixel_offset(a, 0, r) + (i - r * width)]);
            } else {
                lemma_row_index(x, y, r, width);
                assert(y * width + x < r * width);
                assert(pixel_at(cur, width, x, y) == pixel_at(prev, width, x, y));
            }
        }
    }
}

/// A patch of one byte per pixel, with unit vertical scale, every row
/// selected and rows of exactly `width` bytes, packs into the row-major
/// image: pixel (x, y) comes from byte `stride_y * y + x` of the patch.
pub proof fn lemma_pack_standard_layout(patch: Seq<u8>, a: Addressing, width: nat, height: nat)
    requires
        pack_fits(a, width, height, patch.len()),
        a.step_y == 1,
        a.scale_y == VX_SCALE_UNITY,
        row_len(a) == width,
    ensures
        forall|x: nat, y: nat|
            x < width && y < height ==> #[trigger] pixel_at(
                packed(patch, a, width, width * height, height),
                width,
                x,
                y,
            ) == patch[a.stride_y * y + x],
{
    lemma_standard_rows(patch, a, width, height, height);
}

/// The addressing of a single-channel image `width` by `height` pixels over a
/// matrix buffer whose elements are `elem_size` bytes and whose rows are
/// `step1` elements of `elem_size1` bytes apart. The scale and step fields
/// are 0.
pub open spec fn mat_addressing(
    width: i32,
    height: i32,
    elem_size: usize,
    elem_size1: usize,
    step1: usize,
) -> Addressing {
    Addressing {
        dim_x: width as u32,
        dim_y: height as u32,
        stride_x: elem_size as i32,
        stride_y: (elem_size1 * step1) as i32,
        scale_x: 0,
        scale_y: 0,
        step_x: 0,
        step_y: 0,
    }
}

/// The addressing `mat_addressing` describes.
pub fn addressing_for_mat(
    width: i32,
    height: i32,
    elem_size: usize,
    elem_size1: usize,
    step1: usize,
) -> (a: Addressing)
    requires
        elem_size1 * step1 <= usize::MAX,
    ensures
        a == mat_addressing(width, height, elem_size, elem_size1, step1),
{
    Addressing {
        dim_x: width as u32,
        dim_y: height as u32,
        stride_x: elem_size as i32,
        stride_y: (elem_size1 * step1) as i32,
        scale_x: 0,
        scale_y: 0,
        step_x: 0,
        step_y: 0,
    }
}

/// An image made over a one-byte-per-pixel matrix whose rows are `step1`
/// bytes apart reads back as the same matrix. When the image is mapped with
/// the sizes and strides of `mat_addressing`, unit scale and every row, and
/// the mapped patch holds the matrix's bytes `data`, packing gives, for each
/// pixel (x, y), the matrix byte `step1 * y + x`.
pub proof fn lemma_mat_round_trip(
    data: Seq<u8>,
    width: i32,
    height: i32,
    step1: usize,
    mapped: Addressing,
)
    requires
        width >= 1,
        height >= 1,
        step1 <= i32::MAX,
        mapped.dim_x == mat_addressing(width, height, 1, 1, step1).dim_x,
        mapped.dim_y == mat_addressing(width, height, 1, 1, step1).dim_y,
        mapped.stride_x == mat_addressing(width, height, 1, 1, step1).stride_x,
        mapped.stride_y == mat_addressing(width, height, 1, 1, step1).stride_y,
        mapped.scale_x == VX_SCALE_UNITY,
        mapped.scale_y == VX_SCALE_UNITY,
        mapped.step_y == 1,
        pack_fits(mapped, width as nat, height as nat, data.len()),
    ensures
        forall|x: nat, y: nat|
            x < width && y < height ==> #[trigger] pixel_at(
                packed(data, mapped, width as nat, (width * height) as nat, height as nat),
                width as nat,
                x,
                y,
            ) == data[step1 * y + x],
{
    assert(mapped.dim_x == width);
    assert(mapped.stride_x == 1);
    assert(mapped.stride_y == step1);
    let w: u32 = (mapped.dim_x * mapped.scale_x) as u32;
    assert(w == mapped.dim_x * mapped.scale_x);
    let sx = mapped.stride_x as int;
    let v = (w as i32) as int;
    assert(sx * v == v) by (nonlinear_arith)
        requires
            sx == 1,
    ;
    assert(0 <= (w as i32));
    assert((w as i32) >= 0 ==> w <= 0x7fff_ffff) by (bit_vector);
    assert((w as i32) == w);
    let dx = mapped.dim_x as int;
    assert(dx * 1024 / 1024 == dx) by (nonlinear_arith);
    assert(row_len(mapped) == width);
    lemma_pack_standard_layout(data, mapped, width as nat, height as nat);
    assert(width * height == (width as nat) * (height as nat));
}

/// The addressing of a `width` by `height` image of one-byte pixels whose
/// rows start `stride` bytes apart, at unit scale, with every row read.
pub open spec fn byte_rows(width: u32, height: u32, stride: i32) -> Addressing {
    Addressing {
        dim_x: width,
        dim_y: height,
        stride_x: 1,
        stride_y: stride,
        scale_x: VX_SCALE_UNITY,
        scale_y: VX_SCALE_UNITY,
        step_x: 1,
        step_y: 1,
    }
}

/// A patch of one-byte pixels fits as soon as it reaches the end of its
/// last row: `stride * (height - 1) + width` bytes fit (an unpadded patch of
/// `width * height` bytes among them), one byte fewer does not; and the
/// packed buffer holds pixel (x, y) of the patch at `y * width + x`.
pub proof fn lemma_byte_rows_fit(patch: Seq<u8>, width: u32, height: u32, stride: i32)
    requires
        1 <= width <= stride,
        1 <= height,
        width * height <= u32::MAX,
        width * VX_SCALE_UNITY <= i32::MAX,
        height * VX_SCALE_UNITY <= u32::MAX,
        stride * (height - 1) + width <= u32::MAX,
    ensures
        pack_fits(
            byte_rows(width, height, stride),
            width as nat,
            height as nat,
            (stride * (height - 1) + width) as nat,
        ),
        !pack_fits(
            byte_rows(width, height, stride),
            width as nat,
            height as nat,
            (stride * (height - 1) + width - 1) as nat,
        ),
        patch.len() == stride * (height - 1) + width ==> forall|x: nat, y: nat|
            x < width && y < height ==> #[trigger] pixel_at(
                packed(
                    patch,
                    byte_rows(width, height, stride),
                    width as nat,
                    (width * height) as nat,
                    height as nat,
                ),
                width as nat,
                x,
                y,
            ) == patch[stride * y + x],
{
    let a = byte_rows(width, height, stride);
    let w = width as int;
    let h = height as int;
    let st = stride as int;
    let len = st * (h - 1) + w;
    assert((w * 1024) / 1024 == w) by (nonlinear_arith);
    assert(row_len_ok(a));
    assert(row_len(a) == w);
    assert forall|y: nat| y < h implies pixel_offset(a, 0, y) == st * y by {
        lemma_pixel_offset_row(a, y);
        assert((1024 * y) / 1024 == y) by (nonlinear_arith);
    }
    assert forall|y: nat| y < height && #[trigger] (y % (a.step_y as nat)) == 0 implies row_fits(
        a,
        width as nat,
        height as nat,
        len as nat,
        y,
    ) by {
        assert(st * y <= st * (h - 1)) by (nonlinear_arith)
            requires
                0 <= st,
                y <= h - 1,
        ;
        assert(y * w + w <= w * h) by (nonlinear_arith)
            requires
                0 <= w,
                y + 1 <= h,
        ;
    }
    assert(pack_fits(a, width as nat, height as nat, len as nat));
    let last = (height - 1) as nat;
    assert(last % 1 == 0);
    assert(pixel_offset(a, 0, last) == st * (h - 1));
    assert(!row_fits(a, width as nat, height as nat, (len - 1) as nat, last));
    if patch.len() == len {
        lemma_pack_standard_layout(patch, a, width as nat, height as nat);
    }
}

} // verus!

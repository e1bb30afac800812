use vstd::prelude::*;

verus! {

/// Whether the pixel at `(x, y)` lies inside the disc centered on the
/// image, whose radius is half of the smaller image dimension.
pub open spec fn in_disc(x: int, y: int, width: int, height: int) -> bool {
    let dx = x - width / 2;
    let dy = y - height / 2;
    let r = (if width <= height {
        width
    } else {
        height
    }) / 2;
    dx * dx + dy * dy <= r * r
}

/// What drawing leaves at the pixel `(x, y)`: inside the disc the first
/// (red) and fourth (alpha) bytes are set to the maximum and the two middle
/// bytes keep their old values; outside the disc all four bytes keep their
/// old values.
pub open spec fn pixel_drawn(
    buf0: Seq<u8>,
    buf: Seq<u8>,
    x: int,
    y: int,
    width: int,
    height: int,
) -> bool {
    let i = (y * width + x) * 4;
    if in_disc(x, y, width, height) {
        &&& buf[i] == 255
        &&& buf[i + 1] == buf0[i + 1]
        &&& buf[i + 2] == buf0[i + 2]
        &&& buf[i + 3] == 255
    } else {
        pixel_untouched(buf0, buf, x, y, width)
    }
}

/// All four bytes of the pixel at `(x, y)` keep their old values.
pub open spec fn pixel_untouched(buf0: Seq<u8>, buf: Seq<u8>, x: int, y: int, width: int) -> bool {
    let i = (y * width + x) * 4;
    &&& buf[i] == buf0[i]
    &&& buf[i + 1] == buf0[i + 1]
    &&& buf[i + 2] == buf0[i + 2]
    &&& buf[i + 3] == buf0[i + 3]
}

/// Distinct pixel coordinates of one image give distinct pixel indices.
proof fn lemma_pixel_index_distinct(x1: int, y1: int, x2: int, y2: int, w: int)
    requires
        0 <= x1 < w,
        0 <= x2 < w,
        !(x1 == x2 && y1 == y2),
    ensures
        y1 * w + x1 != y2 * w + x2,
{
    assert(y1 * w + x1 != y2 * w + x2) by (nonlinear_arith)
        requires
            0 <= x1 < w,
            0 <= x2 < w,
            !(x1 == x2 && y1 == y2),
    ;
}

/// A pixel index is within the image, so its four bytes are within the
/// buffer.
proof fn lemma_pixel_index_in_range(x: int, y: int, w: int, h: int)
    requires
        0 <= x < w,
        0 <= y < h,
    ensures
        0 <= y * w + x,
        y * w + x < w * h,
        (y * w + x) * 4 + 3 < w * h * 4,
{
    assert(0 <= y * w + x && y * w + x < w * h) by (nonlinear_arith)
        requires
            0 <= x < w,
            0 <= y < h,
    ;
}

/// Fills the disc described by [`in_disc`] into an RGBA, row-major pixel
/// buffer: inside the disc the red and alpha channels are set to their
/// maximum; every other byte of the buffer is left as it was.
pub fn draw(buffer: &mut Vec<u8>, width: usize, height: usize)
    requires
        old(buffer).len() == width * height * 4,
    ensures
        final(buffer).len() == old(buffer).len(),
        forall|x: int, y: int|
            0 <= x < width && 0 <= y < height ==> pixel_drawn(
                old(buffer)@,
                final(buffer)@,
                x,
                y,
                width as int,
                height as int,
            ),
{
    let radius: usize = (if width <= height {
        width
    } else {
        height
    }) / 2;
    let w2: usize = width / 2;
    let h2: usize = height / 2;
    let mut y: usize = 0;
    while y < height
        invariant
            y <= height,
            buffer.len() == width * height * 4,
            radius == (if width <= height {
                width as int
            } else {
                height as int
            }) / 2,
            w2 == width as int / 2,
            h2 == height as int / 2,
            forall|a: int, b: int|
                0 <= a < width && 0 <= b < y ==> pixel_drawn(
                    old(buffer)@,
                    buffer@,
                    a,
                    b,
                    width as int,
                    height as int,
                ),
            forall|a: int, b: int|
                0 <= a < width && y <= b < height ==> pixel_untouched(
                    old(buffer)@,
                    buffer@,
                    a,
                    b,
                    width as int,
                ),
        decreases height - y,
    {
        let mut x: usize = 0;
        while x < width
            invariant
                x <= width,
                y < height,
                buffer.len() == width * height * 4,
                radius == (if width <= height {
                    width as int
                } else {
                    height as int
                }) / 2,
                w2 == width as int / 2,
                h2 == height as int / 2,
                forall|a: int, b: int|
                    0 <= a < width && 0 <= b < y ==> pixel_drawn(
                        old(buffer)@,
                        buffer@,
                        a,
                        b,
                        width as int,
                        height as int,
                    ),
                forall|a: int|
                    0 <= a < x ==> pixel_drawn(
                        old(buffer)@,
                        buffer@,
                        a,
                        y as int,
                        width as int,
                        height as int,
                    ),
                forall|a: int|
                    x <= a < width ==> pixel_untouched(
                        old(buffer)@,
                        buffer@,
                        a,
                        y as int,
                        width as int,
                    ),
                forall|a: int, b: int|
                    0 <= a < width && y < b < height ==> pixel_untouched(
                        old(buffer)@,
                        buffer@,
                        a,
                        b,
                        width as int,
                    ),
            decreases width - x,
        {
            proof {
                let wi = width as int;
                let hi = height as int;
                assert(wi <= wi * hi && hi <= wi * hi) by (nonlinear_arith)
                    requires
                        wi >= 1,
                        hi >= 1,
                ;
                assert(wi * hi * 4 <= usize::MAX);
                assert(wi <= 0x4000000000000000 && hi <= 0x4000000000000000);
                assert(0 <= radius * radius <= 0x4000000000000000 * 0x4000000000000000)
                    by (nonlinear_arith)
                    requires
                        0 <= radius <= 0x4000000000000000,
                ;
                let dxi = x as int - w2 as int;
                let dyi = y as int - h2 as int;
                assert(dxi * dxi <= 0x4000000000000000 * 0x4000000000000000 && dxi * dxi >= 0)
                    by (nonlinear_arith)
                    requires
                        -0x4000000000000000 <= dxi <= 0x4000000000000000,
                ;
                assert(dyi * dyi <= 0x4000000000000000 * 0x4000000000000000 && dyi * dyi >= 0)
                    by (nonlinear_arith)
                    requires
                        -0x4000000000000000 <= dyi <= 0x4000000000000000,
                ;
                lemma_pixel_index_in_range(x as int, y as int, wi, hi);
            }
            let dx: i128 = x as i128 - w2 as i128;
            let dy: i128 = y as i128 - h2 as i128;
            let rr: i128 = radius as i128;
            if dx * dx + dy * dy <= rr * rr {
                let idx: usize = (y * width + x) * 4;
                let ghost before = buffer@;
                buffer[idx] = 255;
                buffer[idx + 3] = 255;
                proof {
                    let wi = width as int;
                    let hi = height as int;
                    let xi = x as int;
                    let yi = y as int;
                    assert(in_disc(xi, yi, wi, hi));
                    assert forall|a: int, b: int| 0 <= a < wi && 0 <= b < yi implies pixel_drawn(
                        old(buffer)@,
                        buffer@,
                        a,
                        b,
                        wi,
                        hi,
                    ) by {
                        assert(pixel_drawn(old(buffer)@, before, a, b, wi, hi));
                        lemma_pixel_index_distinct(a, b, xi, yi, wi);
                        lemma_pixel_index_in_range(a, b, wi, hi);
                    }
                    assert forall|a: int| 0 <= a < xi implies pixel_drawn(
                        old(buffer)@,
                        buffer@,
                        a,
                        yi,
                        wi,
                        hi,
                    ) by {
                        assert(pixel_drawn(old(buffer)@, before, a, yi, wi, hi));
                        lemma_pixel_index_distinct(a, yi, xi, yi, wi);
                        lemma_pixel_index_in_range(a, yi, wi, hi);
                    }
                    assert forall|a: int| xi < a < wi implies pixel_untouched(
                        old(buffer)@,
                        buffer@,
                        a,
                        yi,
                        wi,
                    ) by {
                        assert(pixel_untouched(old(buffer)@, before, a, yi, wi));
                        lemma_pixel_index_distinct(a, yi, xi, yi, wi);
                        lemma_pixel_index_in_range(a, yi, wi, hi);
                    }
                    assert forall|a: int, b: int| 0 <= a < wi && yi < b < hi
                        implies pixel_untouched(old(buffer)@, buffer@, a, b, wi) by {
                        assert(pixel_untouched(old(buffer)@, before, a, b, wi));
                        lemma_pixel_index_distinct(a, b, xi, yi, wi);
                        lemma_pixel_index_in_range(a, b, wi, hi);
                    }
                    assert(pixel_untouched(old(buffer)@, before, xi, yi, wi));
                    lemma_pixel_index_in_range(xi, yi, wi, hi);
                    assert(pixel_drawn(old(buffer)@, buffer@, xi, yi, wi, hi));
                }
            } else {
                proof {
                    let wi = width as int;
                    let hi = height as int;
                    let xi = x as int;
                    let yi = y as int;
                    assert(!in_disc(xi, yi, wi, hi));
                    assert(pixel_untouched(old(buffer)@, buffer@, xi, yi, wi));
                    assert(pixel_drawn(old(buffer)@, buffer@, xi, yi, wi, hi));
                }
            }
            x += 1;
        }
        y += 1;
    }
}

} // verus!

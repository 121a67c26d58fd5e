//! Conversion of raw X11 image data into the ARGB32 byte layout that a
//! StatusNotifierItem shows.
//!
//! An icon pixmap is 32-bit ARGB in network byte order: each pixel is the four
//! bytes `[A, R, G, B]`. An X server hands out pixels in the layout of a visual
//! and in its own byte order, so they are normalised here.

use crate::wire;
use vstd::prelude::*;

verus! {

/// Everything needed to interpret one pixel from an X image.
#[derive(Clone, Copy, Debug, PartialEq, Eq)]
pub struct PixelFormat {
    pub depth: u8,
    pub bits_per_pixel: u8,
    pub byte_order_msb: bool,
    pub red_mask: u32,
    pub green_mask: u32,
    pub blue_mask: u32,
}

/// One pixel of an icon.
#[derive(Clone, Copy, Debug, PartialEq, Eq)]
pub struct Argb {
    pub a: u8,
    pub r: u8,
    pub g: u8,
    pub b: u8,
}

impl PixelFormat {
    /// Whether pixels of this format can be read: 24 or 32 bits each.
    pub open spec fn readable(self) -> bool {
        self.bits_per_pixel == 24 || self.bits_per_pixel == 32
    }

    pub open spec fn bytes_per_pixel(self) -> int {
        self.bits_per_pixel as int / 8
    }

    /// The bits that carry alpha: on a 32-bit visual those that no colour
    /// claims, otherwise none.
    pub open spec fn alpha_mask(self) -> u32 {
        if self.depth >= 32 {
            !(self.red_mask | self.green_mask | self.blue_mask)
        } else {
            0
        }
    }
}

/// How far a channel's bits stand from the low end of a pixel.
pub open spec fn mask_shift(mask: u32) -> u32 {
    if mask == 0 {
        0
    } else {
        mask.trailing_zeros()
    }
}

/// The low eight bits of the channel that `mask` selects.
pub open spec fn channel(word: u32, mask: u32) -> u8 {
    ((word & mask) >> mask_shift(mask)) as u8
}

/// The pixel that the number `word` stands for.
pub open spec fn pixel_of(word: u32, fmt: PixelFormat) -> Argb {
    Argb {
        a: if fmt.alpha_mask() != 0 {
            channel(word, fmt.alpha_mask())
        } else {
            255
        },
        r: channel(word, fmt.red_mask),
        g: channel(word, fmt.green_mask),
        b: channel(word, fmt.blue_mask),
    }
}

/// The number that the bytes of one pixel spell.
pub open spec fn word_of(bytes: Seq<u8>, fmt: PixelFormat) -> u32 {
    if fmt.byte_order_msb {
        wire::big_endian(bytes) as u32
    } else {
        wire::little_endian(bytes) as u32
    }
}

/// The transparent black pixel.
pub open spec fn blank() -> Argb {
    Argb { a: 0, r: 0, g: 0, b: 0 }
}

/// The `i`th pixel of tightly packed image data, or a blank one where the data
/// ends before it does.
pub open spec fn source_pixel(data: Seq<u8>, i: int, fmt: PixelFormat) -> Argb {
    let n = fmt.bytes_per_pixel();
    if (i + 1) * n <= data.len() {
        pixel_of(word_of(data.subrange(i * n, (i + 1) * n), fmt), fmt)
    } else {
        blank()
    }
}

/// The image as the server sent it, row by row.
pub open spec fn source_pixels(count: nat, data: Seq<u8>, fmt: PixelFormat) -> Seq<Argb> {
    Seq::new(count, |i: int| source_pixel(data, i, fmt))
}

pub open spec fn opaque(p: Argb) -> Argb {
    Argb { a: 255, ..p }
}

pub open spec fn transparent(p: Argb) -> Argb {
    Argb { a: 0, ..p }
}

pub open spec fn same_colour(p: Argb, q: Argb) -> bool {
    p.r == q.r && p.g == q.g && p.b == q.b
}

/// Whether nothing of the image would be seen.
pub open spec fn invisible(pixels: Seq<Argb>) -> bool {
    forall|i: int| 0 <= i < pixels.len() ==> (#[trigger] pixels[i]).a == 0
}

/// Whether an image is large enough to tell a background from the icon, and its
/// four corners share one colour.
pub open spec fn has_background(pixels: Seq<Argb>, w: int, h: int) -> bool {
    &&& w >= 4
    &&& h >= 4
    &&& same_colour(pixels[w - 1], pixels[0])
    &&& same_colour(pixels[(h - 1) * w], pixels[0])
    &&& same_colour(pixels[(h - 1) * w + w - 1], pixels[0])
}

/// Whether the whole image has the colour of its first pixel.
pub open spec fn single_colour(pixels: Seq<Argb>) -> bool {
    forall|i: int| 0 <= i < pixels.len() ==> same_colour(#[trigger] pixels[i], pixels[0])
}

/// The image with its background knocked out: where the corners share a colour
/// every pixel of that colour becomes transparent, unless that would be the
/// whole image, which is then opaque.
pub open spec fn keyed(pixels: Seq<Argb>, w: int, h: int) -> Seq<Argb> {
    if !has_background(pixels, w, h) {
        pixels
    } else if single_colour(pixels) {
        pixels.map_values(|p: Argb| opaque(p))
    } else {
        pixels.map_values(
            |p: Argb|
                if same_colour(p, pixels[0]) {
                    transparent(p)
                } else {
                    p
                },
        )
    }
}

/// The pixels of the icon that is shown for the image data.
pub open spec fn icon_pixels(width: u16, height: u16, data: Seq<u8>, fmt: PixelFormat) -> Seq<
    Argb,
> {
    let count = width as nat * height as nat;
    let source = source_pixels(count, data, fmt);
    if !fmt.readable() {
        Seq::new(count, |i: int| blank())
    } else if fmt.alpha_mask() == 0 {
        keyed(source, width as int, height as int)
    } else if invisible(source) {
        source.map_values(|p: Argb| opaque(p))
    } else {
        source
    }
}

/// The pixels that a run of ARGB32 bytes stands for.
pub open spec fn pixels(bytes: Seq<u8>) -> Seq<Argb> {
    Seq::new(
        bytes.len() / 4,
        |i: int|
            Argb {
                a: bytes[4 * i],
                r: bytes[4 * i + 1],
                g: bytes[4 * i + 2],
                b: bytes[4 * i + 3],
            },
    )
}

/// The ARGB32 bytes of some pixels.
pub open spec fn argb_bytes(image: Seq<Argb>) -> Seq<u8> {
    Seq::new(
        4 * image.len(),
        |k: int|
            if k % 4 == 0 {
                image[k / 4].a
            } else if k % 4 == 1 {
                image[k / 4].r
            } else if k % 4 == 2 {
                image[k / 4].g
            } else {
                image[k / 4].b
            },
    )
}

/// Whether the ARGB32 bytes of an image of this size can be counted on this
/// machine.
pub open spec fn addressable(width: u16, height: u16) -> bool {
    width * height * 4 <= usize::MAX
}

/// How far to shift a channel down so that its lowest bit is bit 0.
fn shift(mask: u32) -> (by: u32)
    ensures
        by == mask_shift(mask),
        by < 32,
{
    proof {
        vstd::std_specs::bits::axiom_u32_trailing_zeros(mask);
    }
    if mask == 0 {
        0
    } else {
        mask.trailing_zeros()
    }
}

/// Reads the pixel that starts at `off`.
fn read_word(data: &[u8], off: usize, fmt: PixelFormat) -> (word: u32)
    requires
        fmt.readable(),
        off + fmt.bytes_per_pixel() <= data@.len(),
    ensures
        word == word_of(data@.subrange(off as int, off + fmt.bytes_per_pixel()), fmt),
{
    let b0: u32 = data[off] as u32;
    let b1: u32 = data[off + 1] as u32;
    let b2: u32 = data[off + 2] as u32;
    let ghost bytes = data@.subrange(off as int, off + fmt.bytes_per_pixel());
    if fmt.bits_per_pixel == 24 {
        proof {
            wire::lemma_little_endian_3(bytes);
            wire::lemma_big_endian_3(bytes);
        }
        if fmt.byte_order_msb {
            b0 * 65536 + b1 * 256 + b2
        } else {
            b0 + b1 * 256 + b2 * 65536
        }
    } else {
        let b3: u32 = data[off + 3] as u32;
        proof {
            wire::lemma_little_endian_4(bytes);
            wire::lemma_big_endian_4(bytes);
        }
        if fmt.byte_order_msb {
            b0 * 16777216 + b1 * 65536 + b2 * 256 + b3
        } else {
            b0 + b1 * 256 + b2 * 65536 + b3 * 16777216
        }
    }
}

/// Converts raw `ZPixmap` image `data` for a `width`x`height` region into
/// `width * height * 4` bytes of ARGB32 (`[A, R, G, B]` per pixel).
///
/// Rows are taken to be tightly packed at `width * bytes_per_pixel`, which holds
/// for the 32-bpp visuals that tray icons use. Pixels of any width but 24 or 32
/// bits give a blank image.
pub fn to_argb32(width: u16, height: u16, data: &[u8], fmt: PixelFormat) -> (out: Vec<u8>)
    requires
        addressable(width, height),
    ensures
        out@ == argb_bytes(icon_pixels(width, height, data@, fmt)),
        out@.len() == width * height * 4,
{
    let w: usize = width as usize;
    let h: usize = height as usize;
    proof {
        assert(w * h <= w * h * 4) by (nonlinear_arith);
    }
    let count: usize = w * h;
    if fmt.bits_per_pixel != 24 && fmt.bits_per_pixel != 32 {
        let out = vec![0u8; count * 4];
        assert(out@ =~= argb_bytes(icon_pixels(width, height, data@, fmt)));
        return out;
    }
    let n: usize = (fmt.bits_per_pixel / 8) as usize;
    let alpha_mask: u32 = if fmt.depth >= 32 {
        !(fmt.red_mask | fmt.green_mask | fmt.blue_mask)
    } else {
        0
    };
    let (rs, gs, bs, as_): (u32, u32, u32, u32) = (
        shift(fmt.red_mask),
        shift(fmt.green_mask),
        shift(fmt.blue_mask),
        shift(alpha_mask),
    );
    let ghost source = source_pixels(count as nat, data@, fmt);
    let mut out: Vec<u8> = Vec::new();
    let mut any_alpha: bool = false;
    let mut i: usize = 0;
    while i < count
        invariant
            i <= count,
            count * 4 <= usize::MAX,
            fmt.readable(),
            n == fmt.bytes_per_pixel(),
            alpha_mask == fmt.alpha_mask(),
            rs == mask_shift(fmt.red_mask),
            gs == mask_shift(fmt.green_mask),
            bs == mask_shift(fmt.blue_mask),
            as_ == mask_shift(alpha_mask),
            rs < 32,
            gs < 32,
            bs < 32,
            as_ < 32,
            source == source_pixels(count as nat, data@, fmt),
            out@.len() == 4 * i,
            pixels(out@) == source.take(i as int),
            any_alpha == !invisible(source.take(i as int)),
        decreases count - i,
    {
        let ghost before = out@;
        let ghost next = source[i as int];
        proof {
            assert(i * n + n <= count * 4) by (nonlinear_arith)
                requires
                    i + 1 <= count,
                    n <= 4,
            ;
            assert((i + 1) * n == i * n + n) by (nonlinear_arith);
        }
        let off: usize = i * n;
        let (mut a, mut r, mut g, mut b): (u8, u8, u8, u8) = (0, 0, 0, 0);
        if off + n <= data.len() {
            let px: u32 = read_word(data, off, fmt);
            r = #[verifier::truncate] (((px & fmt.red_mask) >> rs) as u8);
            g = #[verifier::truncate] (((px & fmt.green_mask) >> gs) as u8);
            b = #[verifier::truncate] (((px & fmt.blue_mask) >> bs) as u8);
            a = if alpha_mask != 0 {
                #[verifier::truncate] (((px & alpha_mask) >> as_) as u8)
            } else {
                255
            };
        }
        assert(next == (Argb { a, r, g, b }));
        any_alpha = any_alpha || a != 0;
        out.push(a);
        out.push(r);
        out.push(g);
        out.push(b);
        proof {
            lemma_push_pixel(before, out@, next);
            assert(source.take(i + 1) =~= source.take(i as int).push(next));
            lemma_invisible_push(source.take(i as int), next);
        }
        i = i + 1;
    }
    assert(source.take(count as int) =~= source);
    if alpha_mask != 0 {
        // A 32-bit source whose alpha was never set would be invisible: treat it
        // as opaque.
        if !any_alpha {
            make_opaque(&mut out);
        }
    } else {
        // An opaque source (such as a Wine tray icon on a 24-bit window): knock
        // out a uniform background so that it is no solid block behind the icon.
        chroma_key_background(&mut out, w, h);
    }
    proof {
        lemma_bytes_of_pixels(out@);
    }
    out
}

/// The bytes of the pixels that some bytes stand for are those bytes.
pub proof fn lemma_bytes_of_pixels(bytes: Seq<u8>)
    requires
        bytes.len() % 4 == 0,
    ensures
        argb_bytes(pixels(bytes)) == bytes,
{
    assert(argb_bytes(pixels(bytes)) =~= bytes);
}

/// Appending four bytes appends the pixel that they stand for.
pub(crate) proof fn lemma_push_pixel(before: Seq<u8>, after: Seq<u8>, p: Argb)
    requires
        before.len() % 4 == 0,
        after == before.push(p.a).push(p.r).push(p.g).push(p.b),
    ensures
        pixels(after) == pixels(before).push(p),
{
    assert(pixels(after).len() == pixels(before).len() + 1);
    assert forall|k: int| 0 <= k < pixels(after).len() implies pixels(after)[k] == pixels(
        before,
    ).push(p)[k] by {
        if k < pixels(before).len() {
            assert(4 * k + 3 < before.len());
        }
    }
    assert(pixels(after) =~= pixels(before).push(p));
}

proof fn lemma_invisible_push(image: Seq<Argb>, p: Argb)
    ensures
        invisible(image.push(p)) <==> invisible(image) && p.a == 0,
{
    let longer = image.push(p);
    if invisible(longer) {
        assert(longer[image.len() as int] == p);
        assert forall|i: int| 0 <= i < image.len() implies (#[trigger] image[i]).a == 0 by {
            assert(longer[i] == image[i]);
        }
    }
    if invisible(image) && p.a == 0 {
        assert forall|i: int| 0 <= i < longer.len() implies (#[trigger] longer[i]).a == 0 by {
            if i < image.len() {
                assert(longer[i] == image[i]);
            }
        }
    }
}

/// Changing one alpha byte changes the alpha of one pixel.
proof fn lemma_set_alpha(before: Seq<u8>, k: int, a: u8)
    requires
        before.len() % 4 == 0,
        0 <= k < before.len() / 4,
    ensures
        pixels(before.update(4 * k, a)) == pixels(before).update(
            k,
            Argb { a, ..pixels(before)[k] },
        ),
{
    let after = before.update(4 * k, a);
    assert forall|j: int| 0 <= j < before.len() / 4 implies pixels(after)[j] == pixels(
        before,
    ).update(k, Argb { a, ..pixels(before)[k] })[j] by {
        assert(4 * j + 3 < before.len());
    }
    assert(pixels(after) =~= pixels(before).update(k, Argb { a, ..pixels(before)[k] }));
}

/// Gives every pixel full alpha.
fn make_opaque(out: &mut Vec<u8>)
    requires
        old(out)@.len() % 4 == 0,
    ensures
        final(out)@.len() == old(out)@.len(),
        pixels(final(out)@) == pixels(old(out)@).map_values(|p: Argb| opaque(p)),
{
    let len: usize = out.len();
    let count: usize = len / 4;
    let mut k: usize = 0;
    while k < count
        invariant
            k <= count,
            len == old(out)@.len(),
            count == len / 4,
            old(out)@.len() % 4 == 0,
            out@.len() == old(out)@.len(),
            forall|j: int|
                0 <= j < count ==> #[trigger] pixels(out@)[j] == if j < k {
                    opaque(pixels(old(out)@)[j])
                } else {
                    pixels(old(out)@)[j]
                },
        decreases count - k,
    {
        let ghost before = out@;
        out.set(4 * k, 255);
        proof {
            lemma_set_alpha(before, k as int, 255);
        }
        k = k + 1;
    }
    assert(pixels(out@) =~= pixels(old(out)@).map_values(|p: Argb| opaque(p)));
}

/// If the four corners share one colour, takes it for the background and makes
/// every matching pixel transparent. Skips tiny images, and does not blank an
/// icon that is entirely one colour.
pub fn chroma_key_background(out: &mut Vec<u8>, w: usize, h: usize)
    requires
        old(out)@.len() == w * h * 4,
    ensures
        final(out)@.len() == old(out)@.len(),
        pixels(final(out)@) == keyed(pixels(old(out)@), w as int, h as int),
        final(out)@ == argb_bytes(keyed(pixels(old(out)@), w as int, h as int)),
{
    proof {
        lemma_bytes_of_pixels(out@);
    }
    if w < 4 || h < 4 {
        return;
    }
    let len: usize = out.len();
    let ghost image = pixels(out@);
    proof {
        assert(w * h <= w * h * 4) by (nonlinear_arith);
        assert(w * h >= 4 * h) by (nonlinear_arith)
            requires
                w >= 4,
        ;
        assert((h - 1) * w + w == w * h) by (nonlinear_arith);
        assert((h - 1) * w >= 0) by (nonlinear_arith)
            requires
                h >= 1,
        ;
    }
    let total: usize = w * h;
    let (r, g, b): (u8, u8, u8) = (out[1], out[2], out[3]);
    assert(image[0].r == r && image[0].g == g && image[0].b == b);
    if !colour_at(out, w - 1, r, g, b) || !colour_at(out, (h - 1) * w, r, g, b) || !colour_at(
        out,
        (h - 1) * w + w - 1,
        r,
        g,
        b,
    ) {
        return;
    }
    let mut cleared: usize = 0;
    let mut k: usize = 0;
    while k < total
        invariant
            k <= total,
            total * 4 == old(out)@.len(),
            total * 4 == len,
            total >= 1,
            out@.len() == old(out)@.len(),
            image == pixels(old(out)@),
            image[0].r == r && image[0].g == g && image[0].b == b,
            cleared <= k,
            cleared == k <==> forall|j: int|
                0 <= j < k ==> same_colour(#[trigger] image[j], image[0]),
            forall|j: int|
                0 <= j < total ==> #[trigger] pixels(out@)[j] == if j < k && same_colour(
                    image[j],
                    image[0],
                ) {
                    transparent(image[j])
                } else {
                    image[j]
                },
        decreases total - k,
    {
        let ghost before = out@;
        assert(pixels(before)[k as int] == image[k as int]);
        if colour_at(out, k, r, g, b) {
            out.set(4 * k, 0);
            cleared = cleared + 1;
            proof {
                lemma_set_alpha(before, k as int, 0);
            }
        }
        k = k + 1;
    }
    // The whole icon had the background colour: keep it opaque.
    if cleared == total {
        make_opaque(out);
        assert(pixels(out@) =~= keyed(image, w as int, h as int));
    } else {
        assert(!single_colour(image));
        assert(pixels(out@) =~= keyed(image, w as int, h as int));
    }
    proof {
        lemma_bytes_of_pixels(out@);
    }
}

/// Whether the `k`th pixel has the given colour.
fn colour_at(out: &Vec<u8>, k: usize, r: u8, g: u8, b: u8) -> (same: bool)
    requires
        4 * k + 3 < out@.len(),
    ensures
        same == (pixels(out@)[k as int].r == r && pixels(out@)[k as int].g == g && pixels(
            out@,
        )[k as int].b == b),
{
    let len: usize = out.len();
    assert(4 * k + 3 < len);
    out[4 * k + 1] == r && out[4 * k + 2] == g && out[4 * k + 3] == b
}

/// Only alpha is ever touched: each pixel of the icon keeps the colour that the
/// server sent.
pub proof fn law_colour_is_kept(width: u16, height: u16, data: Seq<u8>, fmt: PixelFormat, i: int)
    requires
        fmt.readable(),
        0 <= i < width * height,
    ensures
        same_colour(icon_pixels(width, height, data, fmt)[i], source_pixel(data, i, fmt)),
{
    assert(source_pixels(width as nat * height as nat, data, fmt)[i] == source_pixel(
        data,
        i,
        fmt,
    ));
}

/// A source without an alpha channel gives pixels that are fully opaque or fully
/// transparent, never anything between.
pub proof fn law_opaque_source_has_no_shades(
    width: u16,
    height: u16,
    data: Seq<u8>,
    fmt: PixelFormat,
    i: int,
)
    requires
        fmt.alpha_mask() == 0,
        0 <= i < width * height,
    ensures
        icon_pixels(width, height, data, fmt)[i].a == 0 || icon_pixels(
            width,
            height,
            data,
            fmt,
        )[i].a == 255,
{
}

/// An icon whose image data is complete is never invisible: a transparent
/// 32-bit image is shown opaque, and a background is only knocked out where
/// something else remains.
pub proof fn law_icon_is_visible(width: u16, height: u16, data: Seq<u8>, fmt: PixelFormat)
    requires
        fmt.readable(),
        width > 0,
        height > 0,
        data.len() >= width * height * fmt.bytes_per_pixel(),
    ensures
        !invisible(icon_pixels(width, height, data, fmt)),
{
    let count = width as nat * height as nat;
    let n = fmt.bytes_per_pixel();
    let source = source_pixels(count, data, fmt);
    let icon = icon_pixels(width, height, data, fmt);
    assert(count > 0) by (nonlinear_arith)
        requires
            count == width * height,
            width > 0,
            height > 0,
    ;
    if fmt.alpha_mask() == 0 {
        assert forall|i: int| 0 <= i < count implies (#[trigger] source[i]).a == 255 by {
            assert((i + 1) * n <= count * n) by (nonlinear_arith)
                requires
                    i + 1 <= count,
                    n >= 0,
            ;
        }
        if has_background(source, width as int, height as int) && !single_colour(source) {
            let i = choose|i: int|
                0 <= i < source.len() && !same_colour(#[trigger] source[i], source[0]);
            assert(icon[i] == source[i]);
        } else {
            assert(icon[0].a == 255);
        }
    } else if invisible(source) {
        assert(icon[0].a == 255);
    }
}

/// Image data with the bytes of each pixel in the opposite order.
pub open spec fn swapped(data: Seq<u8>, n: int) -> Seq<u8> {
    Seq::new(data.len(), |k: int| data[(k / n) * n + (n - 1 - k % n)])
}

/// A format with the opposite byte order.
pub open spec fn opposite(fmt: PixelFormat) -> PixelFormat {
    PixelFormat { byte_order_msb: !fmt.byte_order_msb, ..fmt }
}

/// The server's byte order does not matter: the same pixels sent in the other order
/// give the same icon.
pub proof fn law_byte_order_does_not_matter(
    width: u16,
    height: u16,
    data: Seq<u8>,
    fmt: PixelFormat,
)
    requires
        fmt.readable(),
        data.len() as int % fmt.bytes_per_pixel() == 0,
    ensures
        icon_pixels(width, height, swapped(data, fmt.bytes_per_pixel()), opposite(fmt))
            == icon_pixels(width, height, data, fmt),
{
    let count = width as nat * height as nat;
    let other = swapped(data, fmt.bytes_per_pixel());
    assert forall|i: int| 0 <= i < count implies source_pixel(other, i, opposite(fmt))
        == source_pixel(data, i, fmt) by {
        lemma_swapped_pixel(data, i, fmt);
    }
    assert(source_pixels(count, other, opposite(fmt)) =~= source_pixels(count, data, fmt));
}

/// One pixel sent in the other byte order is the same pixel.
proof fn lemma_swapped_pixel(data: Seq<u8>, i: int, fmt: PixelFormat)
    requires
        fmt.readable(),
        data.len() as int % fmt.bytes_per_pixel() == 0,
        0 <= i,
    ensures
        source_pixel(swapped(data, fmt.bytes_per_pixel()), i, opposite(fmt)) == source_pixel(
            data,
            i,
            fmt,
        ),
{
    let n = fmt.bytes_per_pixel();
    let other = swapped(data, n);
    if (i + 1) * n <= data.len() {
        if n == 3 {
            let bytes = data.subrange(i * 3, (i + 1) * 3);
            let turned = other.subrange(i * 3, (i + 1) * 3);
            assert(turned[0] == bytes[2] && turned[1] == bytes[1] && turned[2] == bytes[0]);
            wire::lemma_little_endian_3(bytes);
            wire::lemma_big_endian_3(bytes);
            wire::lemma_little_endian_3(turned);
            wire::lemma_big_endian_3(turned);
        } else {
            let bytes = data.subrange(i * 4, (i + 1) * 4);
            let turned = other.subrange(i * 4, (i + 1) * 4);
            assert(turned[0] == bytes[3] && turned[1] == bytes[2] && turned[2] == bytes[1]
                && turned[3] == bytes[0]);
            wire::lemma_little_endian_4(bytes);
            wire::lemma_big_endian_4(bytes);
            wire::lemma_little_endian_4(turned);
            wire::lemma_big_endian_4(turned);
        }
    }
}

/// Knocking out a background touches nothing but alpha, keeps the size, and is
/// done with one go: a second one changes nothing.
pub proof fn law_keying_twice_is_once(image: Seq<Argb>, w: int, h: int)
    requires
        0 <= w,
        0 <= h,
        image.len() == w * h,
    ensures
        keyed(keyed(image, w, h), w, h) == keyed(image, w, h),
        keyed(image, w, h).len() == image.len(),
        forall|i: int|
            0 <= i < image.len() ==> same_colour(#[trigger] keyed(image, w, h)[i], image[i]),
{
    let once = keyed(image, w, h);
    if has_background(image, w, h) {
        assert(w * h >= w + (h - 1) * w && (h - 1) * w >= w) by (nonlinear_arith)
            requires
                w >= 4,
                h >= 4,
        ;
        assert(same_colour(once[0], image[0]));
        assert(same_colour(once[w - 1], image[w - 1]));
        assert(same_colour(once[(h - 1) * w], image[(h - 1) * w]));
        assert(same_colour(once[(h - 1) * w + w - 1], image[(h - 1) * w + w - 1]));
        assert(has_background(once, w, h));
        if single_colour(image) {
            assert(single_colour(once));
        } else {
            let i = choose|i: int|
                0 <= i < image.len() && !same_colour(#[trigger] image[i], image[0]);
            assert(once[i] == image[i]);
            assert(!single_colour(once));
        }
        assert(keyed(once, w, h) =~= once);
    }
}

/// The same of the bytes of an image: of each four only the first, alpha, is ever
/// written, and a second go writes nothing new.
pub proof fn law_keying_writes_alpha_only(bytes: Seq<u8>, w: int, h: int)
    requires
        0 <= w,
        0 <= h,
        bytes.len() == w * h * 4,
    ensures
        ({
            let once = argb_bytes(keyed(pixels(bytes), w, h));
            &&& once.len() == bytes.len()
            &&& forall|k: int|
                0 <= k < bytes.len() && k % 4 != 0 ==> #[trigger] once[k] == bytes[k]
            &&& argb_bytes(keyed(pixels(once), w, h)) == once
        }),
{
    let image = pixels(bytes);
    let keyed_image = keyed(image, w, h);
    assert(image.len() == w * h);
    law_keying_twice_is_once(image, w, h);
    lemma_bytes_of_pixels(bytes);
    lemma_pixels_of_bytes(keyed_image);
    assert forall|k: int| 0 <= k < bytes.len() && k % 4 != 0 implies #[trigger] argb_bytes(
        keyed_image,
    )[k] == bytes[k] by {
        lemma_same_colour_same_bytes(keyed_image, image, k);
    }
}

/// The pixels that the bytes of some pixels stand for are those pixels.
proof fn lemma_pixels_of_bytes(image: Seq<Argb>)
    ensures
        pixels(argb_bytes(image)) == image,
{
    assert forall|i: int| 0 <= i < image.len() implies pixels(argb_bytes(image))[i]
        == image[i] by {
        assert(0 <= 4 * i && 4 * i + 3 < 4 * image.len());
    }
    assert(pixels(argb_bytes(image)) =~= image);
}

/// Pixels of the same colour have the same bytes but for alpha.
proof fn lemma_same_colour_same_bytes(one: Seq<Argb>, other: Seq<Argb>, k: int)
    requires
        one.len() == other.len(),
        0 <= k < 4 * one.len(),
        k % 4 != 0,
        same_colour(one[k / 4], other[k / 4]),
    ensures
        argb_bytes(one)[k] == argb_bytes(other)[k],
{
}

/// The bytes of an image are its pixels one after the other, each alpha, red, green and
/// blue.
pub proof fn law_bytes_are_argb(image: Seq<Argb>, i: int)
    requires
        0 <= i < image.len(),
    ensures
        argb_bytes(image).len() == 4 * image.len(),
        argb_bytes(image)[4 * i] == image[i].a,
        argb_bytes(image)[4 * i + 1] == image[i].r,
        argb_bytes(image)[4 * i + 2] == image[i].g,
        argb_bytes(image)[4 * i + 3] == image[i].b,
{
}

/// An icon has as many pixels as its size says. Pixels of other than 24 or 32 bits are
/// all transparent black; pixels that the data does not reach are black, and
/// transparent unless the whole icon is opaque.
pub proof fn law_size_and_missing_pixels(
    width: u16,
    height: u16,
    data: Seq<u8>,
    fmt: PixelFormat,
    i: int,
)
    requires
        0 <= i < width * height,
    ensures
        ({
            let icon = icon_pixels(width, height, data, fmt);
            let bits = fmt.bits_per_pixel;
            &&& icon.len() == width * height
            &&& bits != 24 && bits != 32 ==> icon[i] == (Argb { a: 0, r: 0, g: 0, b: 0 })
            &&& (bits == 24 && 3 * (i + 1) > data.len()) || (bits == 32 && 4 * (i + 1)
                > data.len()) ==> {
                &&& icon[i].r == 0 && icon[i].g == 0 && icon[i].b == 0
                &&& icon[i].a == 0 || forall|j: int|
                    0 <= j < icon.len() ==> (#[trigger] icon[j]).a == 255
            }
        }),
{
    let count = width as nat * height as nat;
    let source = source_pixels(count, data, fmt);
    let icon = icon_pixels(width, height, data, fmt);
    if fmt.readable() && (i + 1) * fmt.bytes_per_pixel() > data.len() {
        assert(source[i] == blank());
        if icon[i].a != 0 {
            assert forall|j: int| 0 <= j < icon.len() implies (#[trigger] icon[j]).a == 255 by {
            }
        }
    }
}

/// The number that the `i`th pixel of the data spells in the server's byte order.
pub open spec fn number_at(data: Seq<u8>, i: int, fmt: PixelFormat) -> int {
    let n = fmt.bits_per_pixel as int / 8;
    let (first, second, third) = (data[n * i], data[n * i + 1], data[n * i + 2]);
    if fmt.bits_per_pixel == 24 {
        if fmt.byte_order_msb {
            65536 * first + 256 * second + third
        } else {
            first + 256 * second + 65536 * third
        }
    } else {
        let fourth = data[n * i + 3];
        if fmt.byte_order_msb {
            16777216 * first + 65536 * second + 256 * third + fourth
        } else {
            first + 256 * second + 65536 * third + 16777216 * fourth
        }
    }
}

/// Each colour of a pixel is the low byte of what its mask selects of the pixel's
/// number, moved down to the mask's lowest bit; a colour without a mask is absent.
pub proof fn law_colours_are_masked(
    width: u16,
    height: u16,
    data: Seq<u8>,
    fmt: PixelFormat,
    i: int,
    word: u32,
)
    requires
        fmt.bits_per_pixel == 24 || fmt.bits_per_pixel == 32,
        0 <= i < width * height,
        (i + 1) * (fmt.bits_per_pixel as int / 8) <= data.len(),
        word == number_at(data, i, fmt),
    ensures
        ({
            let pixel = icon_pixels(width, height, data, fmt)[i];
            let (red, green, blue) = (fmt.red_mask, fmt.green_mask, fmt.blue_mask);
            &&& red != 0 ==> pixel.r == ((word & red) >> red.trailing_zeros()) % 256
            &&& green != 0 ==> pixel.g == ((word & green) >> green.trailing_zeros()) % 256
            &&& blue != 0 ==> pixel.b == ((word & blue) >> blue.trailing_zeros()) % 256
            &&& red == 0 ==> pixel.r == 0
            &&& green == 0 ==> pixel.g == 0
            &&& blue == 0 ==> pixel.b == 0
        }),
{
    lemma_word_at(data, i, fmt);
    law_colour_is_kept(width, height, data, fmt, i);
    lemma_channel(word, fmt.red_mask);
    lemma_channel(word, fmt.green_mask);
    lemma_channel(word, fmt.blue_mask);
}

/// The word of a pixel is the number that its bytes spell.
proof fn lemma_word_at(data: Seq<u8>, i: int, fmt: PixelFormat)
    requires
        fmt.bits_per_pixel == 24 || fmt.bits_per_pixel == 32,
        0 <= i,
        (i + 1) * (fmt.bits_per_pixel as int / 8) <= data.len(),
    ensures
        ({
            let n = fmt.bytes_per_pixel();
            word_of(data.subrange(i * n, (i + 1) * n), fmt) == number_at(data, i, fmt)
        }),
        0 <= number_at(data, i, fmt) <= u32::MAX,
{
    let n = fmt.bytes_per_pixel();
    let bytes = data.subrange(i * n, (i + 1) * n);
    if n == 3 {
        wire::lemma_little_endian_3(bytes);
        wire::lemma_big_endian_3(bytes);
        assert(bytes[0] == data[3 * i] && bytes[1] == data[3 * i + 1] && bytes[2] == data[3 * i
            + 2]);
    } else {
        assert(n == 4 && i * n == 4 * i && (i + 1) * n == 4 * i + 4);
        wire::lemma_little_endian_4(bytes);
        wire::lemma_big_endian_4(bytes);
        assert(bytes[0] == data[4 * i] && bytes[1] == data[4 * i + 1] && bytes[2] == data[4 * i
            + 2] && bytes[3] == data[4 * i + 3]);
    }
}

/// A channel in numbers.
proof fn lemma_channel(word: u32, mask: u32)
    ensures
        mask != 0 ==> channel(word, mask) == ((word & mask) >> mask.trailing_zeros()) % 256,
        mask == 0 ==> channel(word, mask) == 0,
{
    let selected = word & mask;
    if mask == 0 {
        assert(word & 0 == 0) by (bit_vector);
        assert((0u32 >> 0u32) as u8 == 0) by (bit_vector);
    } else {
        let moved = selected >> mask.trailing_zeros();
        assert(moved as u8 == moved % 256) by (bit_vector);
    }
}

/// A mask of one of the four bytes of a word starts at that byte.
proof fn lemma_byte_masks()
    ensures
        0xffu32.trailing_zeros() == 0,
        0xff00u32.trailing_zeros() == 8,
        0xff_0000u32.trailing_zeros() == 16,
        0xff00_0000u32.trailing_zeros() == 24,
{
    vstd::std_specs::bits::axiom_u32_trailing_zeros(0xffu32);
    vstd::std_specs::bits::axiom_u32_trailing_zeros(0xff00u32);
    vstd::std_specs::bits::axiom_u32_trailing_zeros(0xff_0000u32);
    vstd::std_specs::bits::axiom_u32_trailing_zeros(0xff00_0000u32);
    assert((0xffu32 >> 0u32) & 1u32 == 1u32) by (bit_vector);
    assert((0xff00u32 >> 8u32) & 1u32 == 1u32) by (bit_vector);
    assert((0xff_0000u32 >> 16u32) & 1u32 == 1u32) by (bit_vector);
    assert((0xff00_0000u32 >> 24u32) & 1u32 == 1u32) by (bit_vector);
    let (b, c, d) = (
        0xff00u32.trailing_zeros(),
        0xff_0000u32.trailing_zeros(),
        0xff00_0000u32.trailing_zeros(),
    );
    assert(b < 8 ==> (0xff00u32 >> b) & 1u32 == 0u32) by (bit_vector);
    assert(c < 16 ==> (0xff_0000u32 >> c) & 1u32 == 0u32) by (bit_vector);
    assert(d < 24 ==> (0xff00_0000u32 >> d) & 1u32 == 0u32) by (bit_vector);
}

/// In the layout that servers commonly use, the colours are bytes of the data: blue,
/// green and red where the least significant byte comes first, and the other way round
/// at the end of the pixel where it comes last.
pub proof fn law_common_layout(
    width: u16,
    height: u16,
    data: Seq<u8>,
    fmt: PixelFormat,
    i: int,
)
    requires
        fmt.bits_per_pixel == 24 || fmt.bits_per_pixel == 32,
        fmt.red_mask == 0xff_0000,
        fmt.green_mask == 0xff00,
        fmt.blue_mask == 0xff,
        0 <= i < width * height,
        (i + 1) * (fmt.bits_per_pixel as int / 8) <= data.len(),
    ensures
        ({
            let n = fmt.bits_per_pixel as int / 8;
            let pixel = icon_pixels(width, height, data, fmt)[i];
            if fmt.byte_order_msb {
                &&& pixel.r == data[n * i + n - 3]
                &&& pixel.g == data[n * i + n - 2]
                &&& pixel.b == data[n * i + n - 1]
            } else {
                &&& pixel.r == data[n * i + 2]
                &&& pixel.g == data[n * i + 1]
                &&& pixel.b == data[n * i]
            }
        }),
{
    lemma_word_at(data, i, fmt);
    let n = fmt.bits_per_pixel as int / 8;
    let word = number_at(data, i, fmt) as u32;
    law_colours_are_masked(width, height, data, fmt, i, word);
    lemma_byte_masks();
    let (x, r, g, b): (u8, u8, u8, u8) = if fmt.byte_order_msb {
        (
            if n == 3 {
                0
            } else {
                data[n * i]
            },
            data[n * i + n - 3],
            data[n * i + n - 2],
            data[n * i + n - 1],
        )
    } else {
        (
            if n == 3 {
                0
            } else {
                data[n * i + 3]
            },
            data[n * i + 2],
            data[n * i + 1],
            data[n * i],
        )
    };
    lemma_four_bytes(word, x, r, g, b);
}

/// The bytes of a word, by their masks.
proof fn lemma_four_bytes(word: u32, x: u8, r: u8, g: u8, b: u8)
    requires
        word == 16777216 * x + 65536 * r + 256 * g + b,
    ensures
        ((word & 0xff_0000u32) >> 16u32) % 256 == r,
        ((word & 0xff00u32) >> 8u32) % 256 == g,
        ((word & 0xffu32) >> 0u32) % 256 == b,
        ((word & 0xff00_0000u32) >> 24u32) % 256 == x,
{
    assert(((word & 0xff_0000u32) >> 16u32) % 256 == r && ((word & 0xff00u32) >> 8u32) % 256 == g
        && ((word & 0xffu32) >> 0u32) % 256 == b && ((word & 0xff00_0000u32) >> 24u32) % 256
        == x) by (bit_vector)
        requires
            word == 16777216 * x + 65536 * r + 256 * g + b,
    ;
}

/// An image without alpha, of which all data is there, is opaque, save for its
/// background: if it is at least four pixels wide and high, its corners share a colour
/// and some pixel has another, exactly the pixels of the corners' colour are
/// transparent.
pub proof fn law_background_is_knocked_out(
    width: u16,
    height: u16,
    data: Seq<u8>,
    fmt: PixelFormat,
    i: int,
)
    requires
        fmt.bits_per_pixel == 24 || fmt.bits_per_pixel == 32,
        fmt.depth < 32 || !(fmt.red_mask | fmt.green_mask | fmt.blue_mask) == 0,
        data.len() >= width * height * (fmt.bits_per_pixel as int / 8),
        0 <= i < width * height,
    ensures
        ({
            let icon = icon_pixels(width, height, data, fmt);
            let (w, h) = (width as int, height as int);
            let corner = icon[0];
            let alike = |p: Argb| p.r == corner.r && p.g == corner.g && p.b == corner.b;
            let framed = w >= 4 && h >= 4 && alike(icon[w - 1]) && alike(icon[(h - 1) * w])
                && alike(icon[h * w - 1]);
            let plain = forall|j: int| 0 <= j < w * h ==> alike(#[trigger] icon[j]);
            icon[i].a == if framed && !plain && alike(icon[i]) {
                0u8
            } else {
                255u8
            }
        }),
{
    let count = width as nat * height as nat;
    let (w, h) = (width as int, height as int);
    let n = fmt.bytes_per_pixel();
    let source = source_pixels(count, data, fmt);
    let icon = icon_pixels(width, height, data, fmt);
    assert(h * w - 1 == (h - 1) * w + w - 1) by (nonlinear_arith);
    assert(w * h == h * w) by (nonlinear_arith);
    assert forall|j: int| 0 <= j < count implies (#[trigger] source[j]).a == 255 && same_colour(
        icon[j],
        source[j],
    ) by {
        assert((j + 1) * n <= count * n) by (nonlinear_arith)
            requires
                j + 1 <= count,
                n >= 0,
        ;
        law_colour_is_kept(width, height, data, fmt, j);
    }
    assert(same_colour(icon[i], source[i]));
    assert(source[0].a == 255);
    if w >= 4 && h >= 4 {
        assert(0 <= (h - 1) * w && (h - 1) * w + w - 1 < count && w - 1 < count) by (
            nonlinear_arith)
            requires
                w >= 4,
                h >= 4,
                count == w * h,
        ;
        assert(same_colour(icon[w - 1], source[w - 1]));
        assert(same_colour(icon[(h - 1) * w], source[(h - 1) * w]));
        assert(same_colour(icon[(h - 1) * w + w - 1], source[(h - 1) * w + w - 1]));
    }
    assert((forall|j: int| 0 <= j < count ==> same_colour(#[trigger] icon[j], icon[0]))
        == single_colour(source)) by {
        if single_colour(source) {
            assert forall|j: int| 0 <= j < count implies same_colour(
                #[trigger] icon[j],
                icon[0],
            ) by {
                assert(same_colour(source[j], source[0]));
            }
        } else {
            let j = choose|j: int|
                0 <= j < source.len() && !same_colour(#[trigger] source[j], source[0]);
            assert(!same_colour(icon[j], icon[0]));
        }
    }
}

/// Whether the byte at the given place of each of the first pixels is zero.
pub open spec fn all_zero(data: Seq<u8>, count: int, at: int) -> bool {
    forall|j: int| 0 <= j < count ==> #[trigger] data[4 * j + at] == 0
}

/// An image of the common layout with an alpha byte keeps it, unless it is zero
/// everywhere: then the image is opaque.
pub proof fn law_alpha_is_kept_unless_absent(
    width: u16,
    height: u16,
    data: Seq<u8>,
    fmt: PixelFormat,
    i: int,
)
    requires
        fmt.bits_per_pixel == 32,
        fmt.depth >= 32,
        fmt.red_mask == 0xff_0000,
        fmt.green_mask == 0xff00,
        fmt.blue_mask == 0xff,
        data.len() >= width * height * 4,
        0 <= i < width * height,
    ensures
        ({
            let at: int = if fmt.byte_order_msb {
                0
            } else {
                3
            };
            icon_pixels(width, height, data, fmt)[i].a == if all_zero(data, width * height, at) {
                255u8
            } else {
                data[4 * i + at]
            }
        }),
{
    let count = width as nat * height as nat;
    let at: int = if fmt.byte_order_msb {
        0
    } else {
        3
    };
    let source = source_pixels(count, data, fmt);
    assert(!(0xff_0000u32 | 0xff00u32 | 0xffu32) == 0xff00_0000u32) by (bit_vector);
    lemma_byte_masks();
    assert forall|j: int| 0 <= j < count implies (#[trigger] source[j]).a == data[4 * j + at] by {
        lemma_word_at(data, j, fmt);
        let word = number_at(data, j, fmt) as u32;
        lemma_channel(word, 0xff00_0000u32);
        if fmt.byte_order_msb {
            lemma_four_bytes(word, data[4 * j], data[4 * j + 1], data[4 * j + 2], data[4 * j + 3]);
        } else {
            lemma_four_bytes(word, data[4 * j + 3], data[4 * j + 2], data[4 * j + 1], data[4 * j]);
        }
    }
    assert(source[i].a == data[4 * i + at]);
    assert(fmt.alpha_mask() == 0xff00_0000u32);
    assert(invisible(source) == all_zero(data, width * height, at)) by {
        if invisible(source) {
            assert forall|j: int| 0 <= j < width * height implies #[trigger] data[4 * j + at]
                == 0 by {
                assert(source[j].a == 0);
            }
        } else {
            let j = choose|j: int| 0 <= j < source.len() && (#[trigger] source[j]).a != 0;
            assert(data[4 * j + at] != 0);
        }
    }
}

/// The low byte of what a mask selects of a pixel's number, moved down to the mask's
/// lowest bit.
pub open spec fn selected_at(data: Seq<u8>, i: int, fmt: PixelFormat, mask: u32) -> int {
    ((number_at(data, i, fmt) as u32 & mask) >> mask.trailing_zeros()) as int % 256
}

/// On a visual of 32 bits, alpha is in the bits that no colour claims. An image keeps
/// it, unless it is zero everywhere: then the image is opaque.
pub proof fn law_alpha_is_what_is_left(
    width: u16,
    height: u16,
    data: Seq<u8>,
    fmt: PixelFormat,
    i: int,
)
    requires
        fmt.bits_per_pixel == 24 || fmt.bits_per_pixel == 32,
        fmt.depth >= 32,
        !(fmt.red_mask | fmt.green_mask | fmt.blue_mask) != 0,
        data.len() >= width * height * (fmt.bits_per_pixel as int / 8),
        0 <= i < width * height,
    ensures
        ({
            let left = !(fmt.red_mask | fmt.green_mask | fmt.blue_mask);
            let a = icon_pixels(width, height, data, fmt)[i].a;
            &&& (forall|j: int|
                0 <= j < width * height ==> #[trigger] selected_at(data, j, fmt, left) == 0)
                ==> a == 255
            &&& (exists|j: int|
                0 <= j < width * height && #[trigger] selected_at(data, j, fmt, left) != 0) ==> a
                == selected_at(data, i, fmt, left)
        }),
{
    let count = width as nat * height as nat;
    let n = fmt.bits_per_pixel as int / 8;
    let left = !(fmt.red_mask | fmt.green_mask | fmt.blue_mask);
    let source = source_pixels(count, data, fmt);
    assert forall|j: int| 0 <= j < count implies (#[trigger] source[j]).a == selected_at(
        data,
        j,
        fmt,
        left,
    ) by {
        assert((j + 1) * n <= count * n) by (nonlinear_arith)
            requires
                j + 1 <= count,
                n >= 0,
        ;
        lemma_word_at(data, j, fmt);
        lemma_channel(number_at(data, j, fmt) as u32, left);
    }
    assert(source[i].a == selected_at(data, i, fmt, left));
    if invisible(source) {
        assert forall|j: int| 0 <= j < count implies #[trigger] selected_at(data, j, fmt, left)
            == 0 by {
            assert(source[j].a == 0);
        }
    } else {
        let j = choose|j: int| 0 <= j < source.len() && (#[trigger] source[j]).a != 0;
        assert(selected_at(data, j, fmt, left) != 0);
    }
}

} // verus!

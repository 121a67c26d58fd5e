//! The `_NET_WM_ICON` property: the icon of a window in several sizes.
//!
//! The property is a run of blocks, one per size: width, height, and then
//! `width * height` pixels, each a word `0xAARRGGBB`.

use crate::icon::{IconImage, ImageView};
use crate::image;
use crate::image::Argb;
use crate::wire;
use vstd::prelude::*;

verus! {

/// The largest width or height of a block that is taken seriously.
pub const MAX_SIDE: u32 = 1024;

/// One image of the property: its size, and where its pixels start.
#[derive(Clone, Copy, Debug, PartialEq, Eq)]
pub struct Block {
    pub width: u32,
    pub height: u32,
    pub start: usize,
}

impl Block {
    pub open spec fn area(self) -> int {
        self.width * self.height
    }
}

/// Whether a block that fits into the property starts at word `i`.
pub open spec fn block_at(words: Seq<u32>, i: int) -> bool {
    &&& i + 2 <= words.len()
    &&& 0 < words[i] <= MAX_SIDE
    &&& 0 < words[i + 1] <= MAX_SIDE
    &&& i + 2 + words[i] * words[i + 1] <= words.len()
}

/// The blocks from word `i` on, up to the first that is malformed.
pub open spec fn blocks(words: Seq<u32>, i: int) -> Seq<Block>
    decreases words.len() - i,
{
    if 0 <= i && block_at(words, i) {
        proof {
            assert(words[i] * words[i + 1] >= 0) by (nonlinear_arith);
        }
        seq![
            Block { width: words[i], height: words[i + 1], start: (i + 2) as usize },
        ] + blocks(words, i + 2 + words[i] * words[i + 1])
    } else {
        Seq::empty()
    }
}

/// The block with the largest area, the first of several.
pub open spec fn largest(all: Seq<Block>) -> Option<Block>
    decreases all.len(),
{
    if all.len() == 0 {
        None
    } else {
        match largest(all.drop_last()) {
            Some(best) if all.last().area() <= best.area() => Some(best),
            _ => Some(all.last()),
        }
    }
}

/// The pixel that a word of the property stands for.
pub open spec fn word_pixel(word: u32) -> Argb {
    Argb {
        a: (word >> 24) as u8,
        r: (word >> 16) as u8,
        g: (word >> 8) as u8,
        b: word as u8,
    }
}

/// The image of a block.
pub open spec fn block_image(words: Seq<u32>, block: Block) -> ImageView {
    ImageView {
        width: block.width as u16,
        height: block.height as u16,
        argb32: image::argb_bytes(
            words.subrange(block.start as int, block.start + block.area()).map_values(
                |word: u32| word_pixel(word),
            ),
        ),
    }
}

/// The icon that the words of a property hold: its largest image.
pub open spec fn icon_of_words(words: Seq<u32>) -> Option<ImageView> {
    match largest(blocks(words, 0)) {
        Some(block) => Some(block_image(words, block)),
        None => None,
    }
}

/// The icon that a property reply holds.
pub open spec fn icon_of_property(format: u8, value: Seq<u8>) -> Option<ImageView> {
    match wire::property_words(format, value) {
        Some(words) => icon_of_words(words),
        None => None,
    }
}

/// Finds the largest image in the words of the property.
pub fn net_wm_icon(words: &Vec<u32>) -> (icon: Option<IconImage>)
    ensures
        icon is Some <==> icon_of_words(words@) is Some,
        icon matches Some(found) ==> found@ == icon_of_words(words@)->0 && found@.well_formed(),
{
    let len: usize = words.len();
    let mut best: Option<Block> = None;
    let mut i: usize = 0;
    let ghost mut seen: Seq<Block> = Seq::empty();
    assert(seen + blocks(words@, 0) =~= blocks(words@, 0));
    while len - i >= 2
        invariant_except_break
            i <= len,
            blocks(words@, 0) == seen + blocks(words@, i as int),
        invariant
            len == words@.len(),
            best == largest(seen),
            best matches Some(block) ==> {
                &&& 0 < block.width <= MAX_SIDE
                &&& 0 < block.height <= MAX_SIDE
                &&& block.start + block.area() <= words@.len()
            },
        ensures
            blocks(words@, 0) == seen,
        decreases len - i,
    {
        let w: u32 = words[i];
        let h: u32 = words[i + 1];
        let start: usize = i + 2;
        if w == 0 || h == 0 || w > MAX_SIDE || h > MAX_SIDE {
            assert(seen + blocks(words@, i as int) =~= seen);
            break;
        }
        assert(0 < w * h <= 1024 * 1024) by (nonlinear_arith)
            requires
                0 < w <= 1024,
                0 < h <= 1024,
        ;
        let count: usize = (w * h) as usize;
        if count > len - start {
            assert(seen + blocks(words@, i as int) =~= seen);
            break;
        }
        let block = Block { width: w, height: h, start };
        let better: bool = match best {
            Some(b) => {
                assert(0 < b.area() <= 1024 * 1024) by (nonlinear_arith)
                    requires
                        0 < b.width <= 1024,
                        0 < b.height <= 1024,
                        b.area() == b.width * b.height,
                ;
                w * h > b.width * b.height
            },
            None => true,
        };
        proof {
            let longer = seen.push(block);
            assert(longer.drop_last() =~= seen);
            assert(longer + blocks(words@, start + count) =~= seen + blocks(words@, i as int));
            seen = longer;
        }
        if better {
            best = Some(block);
        }
        i = start + count;
        proof {
            if len - i < 2 {
                assert(seen + blocks(words@, i as int) =~= seen);
            }
        }
    }
    match best {
        None => None,
        Some(block) => Some(read_block(words, block)),
    }
}

/// Copies the pixels of a block.
fn read_block(words: &Vec<u32>, block: Block) -> (icon: IconImage)
    requires
        0 < block.width <= MAX_SIDE,
        0 < block.height <= MAX_SIDE,
        block.start + block.area() <= words@.len(),
    ensures
        icon@ == block_image(words@, block),
        icon@.well_formed(),
{
    assert(0 < block.area() <= 1024 * 1024) by (nonlinear_arith)
        requires
            0 < block.width <= 1024,
            0 < block.height <= 1024,
            block.area() == block.width * block.height,
    ;
    let count: usize = (block.width * block.height) as usize;
    let ghost all = words@.subrange(block.start as int, block.start + count).map_values(
        |word: u32| word_pixel(word),
    );
    let mut argb32: Vec<u8> = Vec::new();
    let mut k: usize = 0;
    while k < count
        invariant
            k <= count,
            block.start + count <= words@.len(),
            argb32@.len() == 4 * k,
            all == words@.subrange(block.start as int, block.start + count).map_values(
                |word: u32| word_pixel(word),
            ),
            image::pixels(argb32@) == all.take(k as int),
        decreases count - k,
    {
        let len: usize = words.len();
        let px: u32 = words[block.start + k];
        let ghost before = argb32@;
        argb32.push(#[verifier::truncate] ((px >> 24) as u8));
        argb32.push(#[verifier::truncate] ((px >> 16) as u8));
        argb32.push(#[verifier::truncate] ((px >> 8) as u8));
        argb32.push(#[verifier::truncate] (px as u8));
        proof {
            image::lemma_push_pixel(before, argb32@, word_pixel(px));
            assert(all.take(k + 1) =~= all.take(k as int).push(word_pixel(px)));
        }
        k = k + 1;
    }
    proof {
        assert(all.take(count as int) =~= all);
        image::lemma_bytes_of_pixels(argb32@);
    }
    IconImage { width: block.width as u16, height: block.height as u16, argb32 }
}

/// Reads the icon out of a `_NET_WM_ICON` reply and gives its largest image, if
/// there is one.
pub fn read_net_wm_icon(format: u8, value: &Vec<u8>) -> (icon: Option<IconImage>)
    ensures
        icon is Some <==> icon_of_property(format, value@) is Some,
        icon matches Some(found) ==> found@ == icon_of_property(format, value@)->0
            && found@.well_formed(),
{
    match wire::value32(format, value) {
        Some(words) => net_wm_icon(&words),
        None => None,
    }
}

/// The image that is picked is one of the blocks; none of them is larger, and
/// those before it are smaller.
pub proof fn law_largest_image(all: Seq<Block>)
    ensures
        largest(all) is None <==> all.len() == 0,
        largest(all) matches Some(best) ==> exists|k: int|
            {
                &&& 0 <= k < all.len()
                &&& #[trigger] all[k] == best
                &&& forall|j: int| 0 <= j < all.len() ==> (#[trigger] all[j]).area() <= best.area()
                &&& forall|j: int| 0 <= j < k ==> (#[trigger] all[j]).area() < best.area()
            },
    decreases all.len(),
{
    if all.len() > 0 {
        let front = all.drop_last();
        law_largest_image(front);
        let best = largest(all)->0;
        if let Some(earlier) = largest(front) {
            let k = choose|k: int|
                {
                    &&& 0 <= k < front.len()
                    &&& #[trigger] front[k] == earlier
                    &&& forall|j: int|
                        0 <= j < front.len() ==> (#[trigger] front[j]).area() <= earlier.area()
                    &&& forall|j: int| 0 <= j < k ==> (#[trigger] front[j]).area() < earlier.area()
                };
            assert forall|j: int| 0 <= j < front.len() implies (#[trigger] all[j]).area()
                <= earlier.area() by {
                assert(front[j] == all[j]);
            }
            assert forall|j: int| 0 <= j < k implies (#[trigger] all[j]).area()
                < earlier.area() by {
                assert(front[j] == all[j]);
            }
            if all.last().area() > earlier.area() {
                assert(all[all.len() - 1] == best);
            } else {
                assert(all[k] == best);
            }
        } else {
            assert(all[0] == best);
        }
    }
}

/// Every block lies inside the property and has pixels.
pub proof fn law_blocks_are_inside(words: Seq<u32>, i: int, k: int)
    requires
        0 <= i,
        words.len() <= usize::MAX,
        0 <= k < blocks(words, i).len(),
    ensures
        0 < blocks(words, i)[k].width <= MAX_SIDE,
        0 < blocks(words, i)[k].height <= MAX_SIDE,
        i + 2 <= blocks(words, i)[k].start,
        blocks(words, i)[k].start + blocks(words, i)[k].area() <= words.len(),
    decreases words.len() - i,
{
    if block_at(words, i) {
        let next = i + 2 + words[i] * words[i + 1];
        assert(words[i] * words[i + 1] >= 0) by (nonlinear_arith);
        if k > 0 {
            assert(blocks(words, i)[k] == blocks(words, next)[k - 1]);
            law_blocks_are_inside(words, next, k - 1);
        }
    }
}

/// The icon of a property has four bytes for each of its pixels.
pub proof fn law_icon_is_whole(words: Seq<u32>)
    requires
        words.len() <= usize::MAX,
    ensures
        icon_of_words(words) matches Some(icon) ==> icon.well_formed(),
{
    let all = blocks(words, 0);
    law_largest_image(all);
    if let Some(best) = largest(all) {
        let k = choose|k: int| 0 <= k < all.len() && #[trigger] all[k] == best;
        law_blocks_are_inside(words, 0, k);
        let pixels = words.subrange(best.start as int, best.start + best.area());
        assert(best.area() >= 0) by (nonlinear_arith)
            requires
                best.area() == best.width * best.height,
        ;
        assert(pixels.len() == best.area());
        assert(block_image(words, best).argb32.len() == 4 * best.area());
    }
}

/// A picture that a window icon may consist of: its pixels as words, row by row.
pub struct Picture {
    pub width: u32,
    pub height: u32,
    pub pixels: Seq<u32>,
}

impl Picture {
    /// Whether the picture has a size that is taken seriously, and as many pixels.
    pub open spec fn sound(self) -> bool {
        &&& 1 <= self.width <= 1024
        &&& 1 <= self.height <= 1024
        &&& self.pixels.len() == self.width * self.height
    }
}

/// A property that holds some pictures, one after the other.
pub open spec fn written(pictures: Seq<Picture>) -> Seq<u32>
    decreases pictures.len(),
{
    if pictures.len() == 0 {
        Seq::empty()
    } else {
        let first = pictures.first();
        seq![first.width, first.height] + first.pixels + written(pictures.drop_first())
    }
}

/// Whether an image shows a picture: it has its size, and four bytes for each of its
/// pixels, from the most significant on.
pub open spec fn shows(image: ImageView, picture: Picture) -> bool {
    &&& image.width == picture.width
    &&& image.height == picture.height
    &&& image.argb32.len() == 4 * picture.pixels.len()
    &&& forall|j: int|
        0 <= j < picture.pixels.len() ==> #[trigger] picture.pixels[j] == 16777216
            * image.argb32[4 * j] + 65536 * image.argb32[4 * j + 1] + 256 * image.argb32[4 * j + 2]
            + image.argb32[4 * j + 3]
}

/// What is read of a property with some pictures is the one that covers the most, and
/// the first of several such; there is nothing to read only where there is none. What
/// follows the pictures does not matter, as long as it is no picture.
pub proof fn law_largest_picture_is_read(pictures: Seq<Picture>, tail: Seq<u32>)
    requires
        forall|k: int| 0 <= k < pictures.len() ==> (#[trigger] pictures[k]).sound(),
        tail.len() < 2 || tail[0] == 0 || tail[0] > 1024 || tail[1] == 0 || tail[1] > 1024
            || tail.len() < 2 + tail[0] * tail[1],
        written(pictures).len() + tail.len() <= usize::MAX,
    ensures
        icon_of_words(written(pictures) + tail) is Some <==> pictures.len() > 0,
        icon_of_words(written(pictures) + tail) matches Some(icon) ==> exists|k: int|
            {
                &&& 0 <= k < pictures.len()
                &&& shows(icon, #[trigger] pictures[k])
                &&& forall|i: int|
                    0 <= i < pictures.len() ==> (#[trigger] pictures[i]).pixels.len()
                        <= pictures[k].pixels.len()
                &&& forall|i: int|
                    0 <= i < k ==> (#[trigger] pictures[i]).pixels.len()
                        < pictures[k].pixels.len()
            },
{
    let words = written(pictures) + tail;
    let all = blocks(words, 0);
    assert(words.skip(0) =~= words);
    lemma_blocks_of_pictures(words, pictures, tail, 0);
    law_largest_image(all);
    if let Some(best) = largest(all) {
        let k = choose|k: int|
            {
                &&& 0 <= k < all.len()
                &&& #[trigger] all[k] == best
                &&& forall|j: int| 0 <= j < all.len() ==> (#[trigger] all[j]).area() <= best.area()
                &&& forall|j: int| 0 <= j < k ==> (#[trigger] all[j]).area() < best.area()
            };
        let picture = pictures[k];
        let icon = block_image(words, best);
        assert(is_block_of(words, all[k], picture));
        assert forall|j: int| 0 <= j < picture.pixels.len() implies #[trigger] picture.pixels[j]
            == 16777216 * icon.argb32[4 * j] + 65536 * icon.argb32[4 * j + 1] + 256
            * icon.argb32[4 * j + 2] + icon.argb32[4 * j + 3] by {
            lemma_word_bytes(picture.pixels[j]);
        }
        assert(shows(icon, picture));
        assert forall|i: int| 0 <= i < pictures.len() implies (
        #[trigger] pictures[i]).pixels.len() <= picture.pixels.len() by {
            assert(is_block_of(words, all[i], pictures[i]));
        }
        assert forall|i: int| 0 <= i < k implies (#[trigger] pictures[i]).pixels.len()
            < picture.pixels.len() by {
            assert(is_block_of(words, all[i], pictures[i]));
        }
    }
}

/// Whether a block is that of a picture.
spec fn is_block_of(words: Seq<u32>, block: Block, picture: Picture) -> bool {
    &&& block.width == picture.width
    &&& block.height == picture.height
    &&& block.area() == picture.pixels.len()
    &&& words.subrange(block.start as int, block.start + block.area()) == picture.pixels
}

/// A word is made up of its four bytes.
proof fn lemma_word_bytes(word: u32)
    ensures
        word == 16777216 * word_pixel(word).a + 65536 * word_pixel(word).r + 256 * word_pixel(
            word,
        ).g + word_pixel(word).b,
{
    let (a, r, g, b) = ((word >> 24) as u8, (word >> 16) as u8, (word >> 8) as u8, word as u8);
    assert(word == 16777216 * a + 65536 * r + 256 * g + b) by (bit_vector)
        requires
            a == (word >> 24) as u8,
            r == (word >> 16) as u8,
            g == (word >> 8) as u8,
            b == word as u8,
    ;
}

/// The blocks of a property are its pictures.
proof fn lemma_blocks_of_pictures(
    words: Seq<u32>,
    pictures: Seq<Picture>,
    tail: Seq<u32>,
    i: int,
)
    requires
        0 <= i <= words.len() <= usize::MAX,
        words.skip(i) == written(pictures) + tail,
        forall|k: int| 0 <= k < pictures.len() ==> (#[trigger] pictures[k]).sound(),
        tail.len() < 2 || tail[0] == 0 || tail[0] > 1024 || tail[1] == 0 || tail[1] > 1024
            || tail.len() < 2 + tail[0] * tail[1],
    ensures
        blocks(words, i).len() == pictures.len(),
        forall|k: int|
            0 <= k < pictures.len() ==> is_block_of(
                words,
                #[trigger] blocks(words, i)[k],
                pictures[k],
            ),
    decreases pictures.len(),
{
    let here = words.skip(i);
    if pictures.len() == 0 {
        assert(here =~= tail);
        if block_at(words, i) {
            assert(words[i] == here[0] && words[i + 1] == here[1]);
        }
    } else {
        let first = pictures.first();
        let rest = pictures.drop_first();
        assert(pictures[0].sound());
        let area = first.pixels.len() as int;
        assert(written(pictures).len() == 2 + area + written(rest).len());
        assert(words.len() == i + here.len());
        assert(here[0] == first.width && here[1] == first.height);
        assert(words[i] == here[0] && words[i + 1] == here[1]);
        assert(block_at(words, i));
        let next = i + 2 + area;
        assert(words.skip(next) =~= written(rest) + tail) by {
            assert forall|j: int| 0 <= j < words.len() - next implies words.skip(next)[j] == (
            written(rest) + tail)[j] by {
                assert(words[next + j] == here[2 + area + j]);
            }
        }
        assert forall|k: int| 0 <= k < rest.len() implies (#[trigger] rest[k]).sound() by {
            assert(pictures[k + 1].sound());
        }
        lemma_blocks_of_pictures(words, rest, tail, next);
        let block = blocks(words, i)[0];
        assert(block == Block {
            width: first.width,
            height: first.height,
            start: (i + 2) as usize,
        });
        assert(words.subrange(i + 2, i + 2 + area) =~= first.pixels) by {
            assert forall|j: int| 0 <= j < area implies words[i + 2 + j] == first.pixels[j] by {
                assert(words[i + 2 + j] == here[2 + j]);
            }
        }
        assert forall|k: int| 0 <= k < pictures.len() implies is_block_of(
            words,
            #[trigger] blocks(words, i)[k],
            pictures[k],
        ) by {
            if k > 0 {
                assert(blocks(words, i)[k] == blocks(words, next)[k - 1]);
                assert(is_block_of(words, blocks(words, next)[k - 1], rest[k - 1]));
            }
        }
    }
}

/// A window icon is a property of 32-bit words, and nothing else is.
pub proof fn law_window_icon_is_words(format: u8, value: Seq<u8>)
    ensures
        format != 32 ==> icon_of_property(format, value) is None,
        format == 32 ==> icon_of_property(format, value) == icon_of_words(
            wire::native_words(value),
        ),
{
}

} // verus!

//! What an X server says of its screens when a client connects.

use crate::image::PixelFormat;
use vstd::prelude::*;

verus! {

/// One visual of a screen.
#[derive(Clone, Copy, Debug, PartialEq, Eq)]
pub struct Visual {
    pub visual_id: u32,
    pub red_mask: u32,
    pub green_mask: u32,
    pub blue_mask: u32,
}

/// A depth that a screen allows, with its visuals.
#[derive(Debug, PartialEq, Eq)]
pub struct Depth {
    pub depth: u8,
    pub visuals: Vec<Visual>,
}

/// A screen of the display.
#[derive(Debug, PartialEq, Eq)]
pub struct Screen {
    pub root: u32,
    pub root_visual: u32,
    pub allowed_depths: Vec<Depth>,
}

/// How pixmaps of a depth are laid out.
#[derive(Clone, Copy, Debug, PartialEq, Eq)]
pub struct PixmapFormat {
    pub depth: u8,
    pub bits_per_pixel: u8,
}

/// The part of the server's setup that a tray host reads.
#[derive(Debug, PartialEq, Eq)]
pub struct Setup {
    pub roots: Vec<Screen>,
    pub pixmap_formats: Vec<PixmapFormat>,
    pub image_byte_order_msb: bool,
    pub resource_id_mask: u32,
}

/// The visuals of one depth, each with that depth.
pub open spec fn depth_visuals(depth: Depth) -> Seq<(u8, Visual)> {
    depth.visuals@.map_values(|v: Visual| (depth.depth, v))
}

/// The visuals of the first depths of a screen, in order.
pub open spec fn depths_visuals(depths: Seq<Depth>) -> Seq<(u8, Visual)>
    decreases depths.len(),
{
    if depths.len() == 0 {
        Seq::empty()
    } else {
        depths_visuals(depths.drop_last()) + depth_visuals(depths.last())
    }
}

/// The visuals of some screens, in order.
pub open spec fn screens_visuals(screens: Seq<Screen>) -> Seq<(u8, Visual)>
    decreases screens.len(),
{
    if screens.len() == 0 {
        Seq::empty()
    } else {
        screens_visuals(screens.drop_last()) + depths_visuals(screens.last().allowed_depths@)
    }
}

/// The last visual in a list that has the given id.
pub open spec fn last_visual(visuals: Seq<(u8, Visual)>, id: u32) -> Option<(u8, Visual)>
    decreases visuals.len(),
{
    if visuals.len() == 0 {
        None
    } else if visuals.last().1.visual_id == id {
        Some(visuals.last())
    } else {
        last_visual(visuals.drop_last(), id)
    }
}

/// The first format in a list that is for the given depth.
pub open spec fn first_format(formats: Seq<PixmapFormat>, depth: u8) -> Option<PixmapFormat>
    decreases formats.len(),
{
    if formats.len() == 0 {
        None
    } else if formats.first().depth == depth {
        Some(formats.first())
    } else {
        first_format(formats.drop_first(), depth)
    }
}

/// The pixel format of a visual of the display.
pub open spec fn visual_format(setup: Setup, id: u32) -> Option<PixelFormat> {
    match last_visual(screens_visuals(setup.roots@), id) {
        None => None,
        Some((depth, visual)) => match first_format(setup.pixmap_formats@, depth) {
            None => None,
            Some(format) => Some(
                PixelFormat {
                    depth,
                    bits_per_pixel: format.bits_per_pixel,
                    byte_order_msb: setup.image_byte_order_msb,
                    red_mask: visual.red_mask,
                    green_mask: visual.green_mask,
                    blue_mask: visual.blue_mask,
                },
            ),
        },
    }
}

/// The visual found so far, after one more list of visuals.
fn later_visual(
    depth: &Depth,
    id: u32,
    found: Option<(u8, Visual)>,
    Ghost(before): Ghost<Seq<(u8, Visual)>>,
) -> (now: Option<(u8, Visual)>)
    requires
        found == last_visual(before, id),
    ensures
        now == last_visual(before + depth_visuals(*depth), id),
{
    let ghost all = depth_visuals(*depth);
    let mut now: Option<(u8, Visual)> = found;
    let mut k: usize = 0;
    assert(before + all.take(0) =~= before);
    while k < depth.visuals.len()
        invariant
            k <= depth.visuals@.len(),
            all == depth_visuals(*depth),
            now == last_visual(before + all.take(k as int), id),
        decreases depth.visuals@.len() - k,
    {
        let visual: Visual = depth.visuals[k];
        let ghost longer = before + all.take(k + 1);
        assert(longer.drop_last() =~= before + all.take(k as int));
        assert(longer.last() == (depth.depth, visual));
        if visual.visual_id == id {
            now = Some((depth.depth, visual));
        }
        k = k + 1;
    }
    assert(all.take(all.len() as int) =~= all);
    now
}

impl PixelFormat {
    /// Resolves the pixel format of a visual from the server's setup.
    ///
    /// The result is `None` if the visual, or a pixmap format for its depth, is
    /// not there.
    pub fn for_visual(setup: &Setup, visual_id: u32) -> (format: Option<Self>)
        ensures
            format == visual_format(*setup, visual_id),
    {
        let mut found: Option<(u8, Visual)> = None;
        let mut s: usize = 0;
        while s < setup.roots.len()
            invariant
                s <= setup.roots@.len(),
                found == last_visual(screens_visuals(setup.roots@.take(s as int)), visual_id),
            decreases setup.roots@.len() - s,
        {
            let depths = &setup.roots[s].allowed_depths;
            let ghost before = screens_visuals(setup.roots@.take(s as int));
            assert(before + depths_visuals(depths@.take(0)) =~= before);
            let mut d: usize = 0;
            while d < depths.len()
                invariant
                    d <= depths@.len(),
                    found == last_visual(
                        before + depths_visuals(depths@.take(d as int)),
                        visual_id,
                    ),
                decreases depths@.len() - d,
            {
                let ghost now = before + depths_visuals(depths@.take(d as int));
                found = later_visual(&depths[d], visual_id, found, Ghost(now));
                assert(depths@.take(d + 1).drop_last() =~= depths@.take(d as int));
                assert(now + depth_visuals(depths@[d as int]) =~= before + depths_visuals(
                    depths@.take(d + 1),
                ));
                d = d + 1;
            }
            assert(depths@.take(depths@.len() as int) =~= depths@);
            assert(setup.roots@.take(s + 1).drop_last() =~= setup.roots@.take(s as int));
            s = s + 1;
        }
        assert(setup.roots@.take(setup.roots@.len() as int) =~= setup.roots@);
        let (depth, visual): (u8, Visual) = match found {
            None => {
                return None;
            },
            Some(pair) => pair,
        };
        let mut k: usize = 0;
        assert(setup.pixmap_formats@.skip(0) =~= setup.pixmap_formats@);
        while k < setup.pixmap_formats.len()
            invariant
                k <= setup.pixmap_formats@.len(),
                found == Some((depth, visual)),
                found == last_visual(screens_visuals(setup.roots@), visual_id),
                first_format(setup.pixmap_formats@, depth) == first_format(
                    setup.pixmap_formats@.skip(k as int),
                    depth,
                ),
            decreases setup.pixmap_formats@.len() - k,
        {
            let format: PixmapFormat = setup.pixmap_formats[k];
            let ghost rest = setup.pixmap_formats@.skip(k as int);
            assert(rest.first() == format);
            assert(rest.drop_first() =~= setup.pixmap_formats@.skip(k + 1));
            if format.depth == depth {
                return Some(
                    PixelFormat {
                        depth,
                        bits_per_pixel: format.bits_per_pixel,
                        byte_order_msb: setup.image_byte_order_msb,
                        red_mask: visual.red_mask,
                        green_mask: visual.green_mask,
                        blue_mask: visual.blue_mask,
                    },
                );
            }
            k = k + 1;
        }
        None
    }
}

/// Whether a format is that of a visual with the given id.
pub open spec fn is_format_of(visual: (u8, Visual), id: u32, format: PixelFormat) -> bool {
    &&& visual.1.visual_id == id
    &&& visual.0 == format.depth
    &&& visual.1.red_mask == format.red_mask
    &&& visual.1.green_mask == format.green_mask
    &&& visual.1.blue_mask == format.blue_mask
}

/// A format that is found carries the depth and the masks of a visual with the
/// given id, and none is found where no screen has such a visual.
pub proof fn law_format_needs_visual(setup: Setup, id: u32)
    ensures
        visual_format(setup, id) matches Some(format) ==> exists|i: int|
            0 <= i < screens_visuals(setup.roots@).len() && is_format_of(
                #[trigger] screens_visuals(setup.roots@)[i],
                id,
                format,
            ),
        (forall|i: int|
            0 <= i < screens_visuals(setup.roots@).len() ==> (#[trigger] screens_visuals(
                setup.roots@,
            )[i]).1.visual_id != id) ==> visual_format(setup, id) is None,
{
    lemma_last_visual(screens_visuals(setup.roots@), id);
}

/// What the search for a visual finds stands in the list, and it finds one where
/// there is one.
proof fn lemma_last_visual(visuals: Seq<(u8, Visual)>, id: u32)
    ensures
        last_visual(visuals, id) matches Some(found) ==> exists|i: int|
            0 <= i < visuals.len() && #[trigger] visuals[i] == found && found.1.visual_id == id,
        last_visual(visuals, id) is None ==> forall|i: int|
            0 <= i < visuals.len() ==> (#[trigger] visuals[i]).1.visual_id != id,
    decreases visuals.len(),
{
    if visuals.len() > 0 {
        let front = visuals.drop_last();
        lemma_last_visual(front, id);
        if visuals.last().1.visual_id == id {
            assert(visuals[visuals.len() - 1] == visuals.last());
        } else if last_visual(front, id) is Some {
            let i = choose|i: int|
                0 <= i < front.len() && #[trigger] front[i] == last_visual(front, id)->0;
            assert(visuals[i] == front[i]);
        } else {
            assert forall|i: int| 0 <= i < visuals.len() implies (
            #[trigger] visuals[i]).1.visual_id != id by {
                if i < front.len() {
                    assert(front[i] == visuals[i]);
                }
            }
        }
    }
}

/// A visual of the display that no later one shares its id with, in the order of
/// screens, depths and visuals, gives its depth and masks. The first layout that the
/// server lists for that depth gives the bits per pixel, and the server the byte
/// order.
pub proof fn law_visual_gives_format(setup: Setup, s: int, d: int, v: int, k: int)
    requires
        0 <= s < setup.roots@.len(),
        0 <= d < setup.roots@[s].allowed_depths@.len(),
        0 <= v < setup.roots@[s].allowed_depths@[d].visuals@.len(),
        forall|a: int, b: int, c: int|
            0 <= a < setup.roots@.len() && 0 <= b < setup.roots@[a].allowed_depths@.len() && 0 <= c
                < setup.roots@[a].allowed_depths@[b].visuals@.len() && (a > s || (a == s && (b > d
                || (b == d && c > v)))) ==> (
            #[trigger] setup.roots@[a].allowed_depths@[b].visuals@[c]).visual_id
                != setup.roots@[s].allowed_depths@[d].visuals@[v].visual_id,
        0 <= k < setup.pixmap_formats@.len(),
        setup.pixmap_formats@[k].depth == setup.roots@[s].allowed_depths@[d].depth,
        forall|j: int|
            0 <= j < k ==> (#[trigger] setup.pixmap_formats@[j]).depth
                != setup.roots@[s].allowed_depths@[d].depth,
    ensures
        ({
            let depth = setup.roots@[s].allowed_depths@[d];
            let visual = depth.visuals@[v];
            visual_format(setup, visual.visual_id) == Some(
                PixelFormat {
                    depth: depth.depth,
                    bits_per_pixel: setup.pixmap_formats@[k].bits_per_pixel,
                    byte_order_msb: setup.image_byte_order_msb,
                    red_mask: visual.red_mask,
                    green_mask: visual.green_mask,
                    blue_mask: visual.blue_mask,
                },
            )
        }),
{
    let id = setup.roots@[s].allowed_depths@[d].visuals@[v].visual_id;
    lemma_visual_on_screens(setup.roots@, s, d, v, id);
    lemma_first_format(setup.pixmap_formats@, k);
}

/// Where no screen has a visual of the given id at a depth that the server lists a
/// layout for, there is no format.
pub proof fn law_no_format_without_visual_and_layout(setup: Setup, id: u32)
    requires
        forall|a: int, b: int, c: int, j: int|
            0 <= a < setup.roots@.len() && 0 <= b < setup.roots@[a].allowed_depths@.len() && 0 <= c
                < setup.roots@[a].allowed_depths@[b].visuals@.len() && 0 <= j
                < setup.pixmap_formats@.len() && (
            #[trigger] setup.roots@[a].allowed_depths@[b].visuals@[c]).visual_id == id ==> (
            #[trigger] setup.pixmap_formats@[j]).depth
                != setup.roots@[a].allowed_depths@[b].depth,
    ensures
        visual_format(setup, id) is None,
{
    let all = screens_visuals(setup.roots@);
    lemma_last_visual(all, id);
    if let Some(found) = last_visual(all, id) {
        let i = choose|i: int|
            0 <= i < all.len() && #[trigger] all[i] == found && found.1.visual_id == id;
        let (a, b, c) = lemma_place_on_screens(setup.roots@, i);
        assert(setup.roots@[a].allowed_depths@[b].visuals@[c].visual_id == id);
        lemma_no_format(setup.pixmap_formats@, found.0);
    }
}

/// Where a visual of the list stands among the depths.
proof fn lemma_place_in_depths(depths: Seq<Depth>, i: int) -> (place: (int, int))
    requires
        0 <= i < depths_visuals(depths).len(),
    ensures
        0 <= place.0 < depths.len(),
        0 <= place.1 < depths[place.0].visuals@.len(),
        depths_visuals(depths)[i] == (depths[place.0].depth, depths[place.0].visuals@[place.1]),
    decreases depths.len(),
{
    let front = depths.drop_last();
    let before = depths_visuals(front).len();
    if i < before {
        lemma_place_in_depths(front, i)
    } else {
        (depths.len() - 1, i - before)
    }
}

/// Where a visual of the list stands among the screens.
proof fn lemma_place_on_screens(screens: Seq<Screen>, i: int) -> (place: (int, int, int))
    requires
        0 <= i < screens_visuals(screens).len(),
    ensures
        0 <= place.0 < screens.len(),
        0 <= place.1 < screens[place.0].allowed_depths@.len(),
        0 <= place.2 < screens[place.0].allowed_depths@[place.1].visuals@.len(),
        screens_visuals(screens)[i] == (
            screens[place.0].allowed_depths@[place.1].depth,
            screens[place.0].allowed_depths@[place.1].visuals@[place.2],
        ),
    decreases screens.len(),
{
    let front = screens.drop_last();
    let before = screens_visuals(front).len();
    if i < before {
        lemma_place_on_screens(front, i)
    } else {
        let (d, v) = lemma_place_in_depths(screens.last().allowed_depths@, i - before);
        (screens.len() - 1, d, v)
    }
}

/// The first format is the one before which no other has its depth.
proof fn lemma_first_format(formats: Seq<PixmapFormat>, k: int)
    requires
        0 <= k < formats.len(),
        forall|j: int| 0 <= j < k ==> (#[trigger] formats[j]).depth != formats[k].depth,
    ensures
        first_format(formats, formats[k].depth) == Some(formats[k]),
    decreases k,
{
    if k > 0 {
        let rest = formats.drop_first();
        assert(formats[0].depth != formats[k].depth);
        assert(rest[k - 1] == formats[k]);
        assert forall|j: int| 0 <= j < k - 1 implies (#[trigger] rest[j]).depth
            != rest[k - 1].depth by {
            assert(rest[j] == formats[j + 1]);
        }
        lemma_first_format(rest, k - 1);
    }
}

/// Where no format has a depth, none is found.
proof fn lemma_no_format(formats: Seq<PixmapFormat>, depth: u8)
    requires
        forall|j: int| 0 <= j < formats.len() ==> (#[trigger] formats[j]).depth != depth,
    ensures
        first_format(formats, depth) is None,
    decreases formats.len(),
{
    if formats.len() > 0 {
        let rest = formats.drop_first();
        assert(formats[0].depth != depth);
        assert forall|j: int| 0 <= j < rest.len() implies (#[trigger] rest[j]).depth != depth by {
            assert(rest[j] == formats[j + 1]);
        }
        lemma_no_format(rest, depth);
    }
}

/// The last of two lists counts, where it has such a visual.
proof fn lemma_last_of_two(
    front: Seq<(u8, Visual)>,
    back: Seq<(u8, Visual)>,
    id: u32,
)
    ensures
        last_visual(front + back, id) == match last_visual(back, id) {
            Some(found) => Some(found),
            None => last_visual(front, id),
        },
    decreases back.len(),
{
    if back.len() == 0 {
        assert(front + back =~= front);
    } else {
        assert((front + back).drop_last() =~= front + back.drop_last());
        assert((front + back).last() == back.last());
        lemma_last_of_two(front, back.drop_last(), id);
    }
}

/// The last visual of a depth is the one behind which no other has its id.
proof fn lemma_visual_of_depth(depth: Depth, v: int, id: u32)
    requires
        -1 <= v < depth.visuals@.len(),
        v >= 0 ==> depth.visuals@[v].visual_id == id,
        forall|c: int|
            v < c < depth.visuals@.len() ==> (#[trigger] depth.visuals@[c]).visual_id != id,
    ensures
        last_visual(depth_visuals(depth), id) == if v >= 0 {
            Some((depth.depth, depth.visuals@[v]))
        } else {
            None
        },
{
    lemma_last_at(depth_visuals(depth), v, id);
}

proof fn lemma_last_at(visuals: Seq<(u8, Visual)>, v: int, id: u32)
    requires
        -1 <= v < visuals.len(),
        v >= 0 ==> visuals[v].1.visual_id == id,
        forall|c: int| v < c < visuals.len() ==> (#[trigger] visuals[c]).1.visual_id != id,
    ensures
        last_visual(visuals, id) == if v >= 0 {
            Some(visuals[v])
        } else {
            None
        },
    decreases visuals.len(),
{
    if visuals.len() > 0 && v < visuals.len() - 1 {
        let front = visuals.drop_last();
        assert(visuals[visuals.len() - 1].1.visual_id != id);
        assert forall|c: int| v < c < front.len() implies (
        #[trigger] front[c]).1.visual_id != id by {
            assert(front[c] == visuals[c]);
        }
        lemma_last_at(front, v, id);
    }
}

/// The same over the depths of a screen; `d` is -1 where none has such a visual.
proof fn lemma_visual_of_depths(depths: Seq<Depth>, d: int, v: int, id: u32)
    requires
        -1 <= d < depths.len(),
        d >= 0 ==> 0 <= v < depths[d].visuals@.len() && depths[d].visuals@[v].visual_id == id,
        forall|b: int, c: int|
            0 <= b < depths.len() && 0 <= c < depths[b].visuals@.len() && (b > d || (b == d && c
                > v)) ==> (#[trigger] depths[b].visuals@[c]).visual_id != id,
    ensures
        last_visual(depths_visuals(depths), id) == if d >= 0 {
            Some((depths[d].depth, depths[d].visuals@[v]))
        } else {
            None
        },
    decreases depths.len(),
{
    if depths.len() > 0 {
        let front = depths.drop_last();
        let last = depths.last();
        let n = depths.len() - 1;
        lemma_last_of_two(depths_visuals(front), depth_visuals(last), id);
        if d == n {
            assert forall|c: int| v < c < last.visuals@.len() implies (
            #[trigger] last.visuals@[c]).visual_id != id by {
                assert(depths[n].visuals@[c].visual_id != id);
            }
            lemma_visual_of_depth(last, v, id);
        } else {
            assert forall|c: int| -1 < c < last.visuals@.len() implies (
            #[trigger] last.visuals@[c]).visual_id != id by {
                assert(depths[n].visuals@[c].visual_id != id);
            }
            lemma_visual_of_depth(last, -1, id);
            assert forall|b: int, c: int|
                0 <= b < front.len() && 0 <= c < front[b].visuals@.len() && (b > d || (b == d && c
                    > v)) implies (#[trigger] front[b].visuals@[c]).visual_id != id by {
                assert(depths[b].visuals@[c].visual_id != id);
            }
            lemma_visual_of_depths(front, d, v, id);
        }
    }
}

/// The same over screens.
proof fn lemma_visual_on_screens(screens: Seq<Screen>, s: int, d: int, v: int, id: u32)
    requires
        0 <= s < screens.len(),
        0 <= d < screens[s].allowed_depths@.len(),
        0 <= v < screens[s].allowed_depths@[d].visuals@.len(),
        screens[s].allowed_depths@[d].visuals@[v].visual_id == id,
        forall|a: int, b: int, c: int|
            0 <= a < screens.len() && 0 <= b < screens[a].allowed_depths@.len() && 0 <= c
                < screens[a].allowed_depths@[b].visuals@.len() && (a > s || (a == s && (b > d || (b
                == d && c > v)))) ==> (
            #[trigger] screens[a].allowed_depths@[b].visuals@[c]).visual_id != id,
    ensures
        last_visual(screens_visuals(screens), id) == Some(
            (screens[s].allowed_depths@[d].depth, screens[s].allowed_depths@[d].visuals@[v]),
        ),
    decreases screens.len(),
{
    let front = screens.drop_last();
    let last = screens.last();
    let n = screens.len() - 1;
    let depths = last.allowed_depths@;
    lemma_last_of_two(screens_visuals(front), depths_visuals(depths), id);
    if s == n {
        assert forall|b: int, c: int|
            0 <= b < depths.len() && 0 <= c < depths[b].visuals@.len() && (b > d || (b == d && c
                > v)) implies (#[trigger] depths[b].visuals@[c]).visual_id != id by {
            assert(screens[n].allowed_depths@[b].visuals@[c].visual_id != id);
        }
        lemma_visual_of_depths(depths, d, v, id);
    } else {
        assert forall|b: int, c: int|
            0 <= b < depths.len() && 0 <= c < depths[b].visuals@.len() && (b > -1 || (b == -1 && c
                > 0)) implies (#[trigger] depths[b].visuals@[c]).visual_id != id by {
            assert(screens[n].allowed_depths@[b].visuals@[c].visual_id != id);
        }
        lemma_visual_of_depths(depths, -1, 0, id);
        assert forall|a: int, b: int, c: int|
            0 <= a < front.len() && 0 <= b < front[a].allowed_depths@.len() && 0 <= c
                < front[a].allowed_depths@[b].visuals@.len() && (a > s || (a == s && (b > d || (b
                == d && c > v)))) implies (
        #[trigger] front[a].allowed_depths@[b].visuals@[c]).visual_id != id by {
            assert(screens[a].allowed_depths@[b].visuals@[c].visual_id != id);
        }
        lemma_visual_on_screens(front, s, d, v, id);
    }
}

} // verus!

use xembsni::image::{chroma_key_background, to_argb32, PixelFormat};
use xembsni::net_icon::{net_wm_icon, read_net_wm_icon};
use xembsni::IconImage;
use xembsni::visual::{Depth, PixmapFormat, Screen, Setup, Visual};

// Little-endian BGRA (the common depth-24/32 TrueColor layout).
const FMT: PixelFormat = PixelFormat {
    depth: 32,
    bits_per_pixel: 32,
    byte_order_msb: false,
    red_mask: 0x00ff_0000,
    green_mask: 0x0000_ff00,
    blue_mask: 0x0000_00ff,
};

#[test]
fn converts_bgra_le_to_argb() {
    // One pixel, value 0xAARRGGBB = 0x8012_3456 stored little-endian.
    let data = [0x56u8, 0x34, 0x12, 0x80];
    let out = to_argb32(1, 1, &data, FMT);
    assert_eq!(out, vec![0x80, 0x12, 0x34, 0x56]);
}

#[test]
fn depth24_is_opaque() {
    let fmt = PixelFormat { depth: 24, ..FMT };
    let data = [0x56u8, 0x34, 0x12, 0x00];
    let out = to_argb32(1, 1, &data, fmt);
    assert_eq!(out, vec![0xff, 0x12, 0x34, 0x56]);
}

#[test]
fn all_transparent_becomes_opaque() {
    let data = [0x10u8, 0x20, 0x30, 0x00, 0x40, 0x50, 0x60, 0x00];
    let out = to_argb32(2, 1, &data, FMT);
    assert_eq!(out[0], 0xff);
    assert_eq!(out[4], 0xff);
}

#[test]
fn chroma_keys_uniform_background() {
    // 4x4, depth 24, black everywhere except a blue centre pixel.
    let fmt = PixelFormat { depth: 24, ..FMT };
    let black = [0x00u8, 0x00, 0x00, 0x00]; // B,G,R,x little-endian
    let blue = [0xffu8, 0x00, 0x00, 0x00]; // B=255
    let mut data = Vec::new();
    for i in 0..16 {
        data.extend_from_slice(if i == 5 { &blue } else { &black });
    }
    let out = to_argb32(4, 4, &data, fmt);
    // Corner (0,0) background is now transparent, centre pixel stays opaque.
    assert_eq!(out[0], 0x00, "background should be transparent");
    assert_eq!(out[5 * 4], 0xff, "foreground should stay opaque");
    assert_eq!(&out[5 * 4 + 1..5 * 4 + 4], &[0x00, 0x00, 0xff]);
}

#[test]
fn big_endian_pixels_are_read_the_other_way_round() {
    let fmt = PixelFormat { byte_order_msb: true, ..FMT };
    assert_eq!(to_argb32(1, 1, &[0x80, 0x12, 0x34, 0x56], fmt), vec![0x80, 0x12, 0x34, 0x56]);
}

#[test]
fn the_byte_order_of_the_server_does_not_matter() {
    for bits_per_pixel in [24u8, 32] {
        for depth in [24u8, 32] {
            let n = bits_per_pixel as usize / 8;
            let data: Vec<u8> = (0..5 * 4 * n).map(|k| (k * 37 % 251) as u8).collect();
            let turned: Vec<u8> =
                data.chunks_exact(n).flat_map(|pixel| pixel.iter().rev().copied()).collect();
            let little = PixelFormat { depth, bits_per_pixel, ..FMT };
            let big = PixelFormat { byte_order_msb: true, ..little };
            assert_eq!(to_argb32(5, 4, &data, little), to_argb32(5, 4, &turned, big));
            assert_ne!(to_argb32(5, 4, &data, little), to_argb32(5, 4, &data, big));
        }
    }
}

#[test]
fn three_bytes_per_pixel_are_read() {
    let fmt = PixelFormat { depth: 24, bits_per_pixel: 24, ..FMT };
    let out = to_argb32(2, 1, &[0x03, 0x02, 0x01, 0x06, 0x05, 0x04], fmt);
    assert_eq!(out, vec![0xff, 1, 2, 3, 0xff, 4, 5, 6]);
}

#[test]
fn other_pixel_sizes_give_a_blank_image() {
    for bits_per_pixel in [0u8, 1, 4, 8, 16, 64] {
        let fmt = PixelFormat { bits_per_pixel, ..FMT };
        assert_eq!(to_argb32(2, 1, &[0xff; 64], fmt), vec![0; 8]);
    }
}

#[test]
fn missing_data_is_blank() {
    let fmt = PixelFormat { depth: 24, ..FMT };
    let out = to_argb32(2, 1, &[0x56, 0x34, 0x12, 0x00, 0xff], fmt);
    assert_eq!(out, vec![0xff, 0x12, 0x34, 0x56, 0, 0, 0, 0]);
    assert_eq!(to_argb32(0, 7, &[], fmt), Vec::<u8>::new());
}

#[test]
fn an_icon_of_one_colour_stays_opaque() {
    let fmt = PixelFormat { depth: 24, ..FMT };
    let out = to_argb32(4, 4, &[0x20; 64], fmt);
    for pixel in out.chunks_exact(4) {
        assert_eq!(pixel, [0xff, 0x20, 0x20, 0x20]);
    }
}

#[test]
fn a_background_is_knocked_out_in_one_go() {
    let fmt = PixelFormat { depth: 24, byte_order_msb: true, ..FMT };
    for size in [3u16, 4, 7] {
        for odd in [0usize, 5, 8] {
            let mut data = vec![0x33u8; size as usize * size as usize * 4];
            data[4 * odd + 2] = 0x99;
            let once = to_argb32(size, size, &data, fmt);
            assert_eq!(to_argb32(size, size, &once, fmt), once);
            for (k, byte) in once.iter().enumerate() {
                assert!(k % 4 == 0 || *byte == data[k]);
            }
        }
    }
}

#[test]
fn a_background_is_knocked_out_of_pixels_in_place() {
    let mut out: Vec<u8> = [7u8, 1, 2, 3].repeat(16);
    out[4 * 6 + 3] = 9;
    let before = out.clone();
    chroma_key_background(&mut out, 4, 4);
    for (k, byte) in out.iter().enumerate() {
        let expected = if k % 4 != 0 || k / 4 == 6 { before[k] } else { 0 };
        assert_eq!(*byte, expected);
    }
    let once = out.clone();
    chroma_key_background(&mut out, 4, 4);
    assert_eq!(out, once);
}

#[test]
fn a_small_icon_keeps_its_background() {
    let fmt = PixelFormat { depth: 24, ..FMT };
    let mut data = vec![0u8; 3 * 3 * 4];
    data[16] = 0xff;
    let out = to_argb32(3, 3, &data, fmt);
    assert!(out.chunks_exact(4).all(|pixel| pixel[0] == 0xff));
}

#[test]
fn corners_that_differ_keep_the_background() {
    let fmt = PixelFormat { depth: 24, ..FMT };
    let mut data = vec![0u8; 4 * 4 * 4];
    data[15 * 4] = 0xff;
    let out = to_argb32(4, 4, &data, fmt);
    assert!(out.chunks_exact(4).all(|pixel| pixel[0] == 0xff));
}

#[test]
fn an_alpha_channel_is_kept_where_something_shows() {
    let out = to_argb32(2, 1, &[1, 2, 3, 0, 4, 5, 6, 9], FMT);
    assert_eq!(out, vec![0, 3, 2, 1, 9, 6, 5, 4]);
}

#[test]
fn narrow_channels_are_shifted_down() {
    let fmt = PixelFormat {
        depth: 24,
        red_mask: 0x0000_000f,
        green_mask: 0x0000_0ff0,
        blue_mask: 0,
        ..FMT
    };
    assert_eq!(to_argb32(1, 1, &[0xa7, 0x0b, 0xff, 0xff], fmt), vec![0xff, 0x07, 0xba, 0]);
}

fn visual(visual_id: u32, red_mask: u32) -> Visual {
    Visual { visual_id, red_mask, green_mask: 0xff00, blue_mask: 0xff }
}

fn setup() -> Setup {
    Setup {
        roots: vec![
            Screen {
                root: 1,
                root_visual: 33,
                allowed_depths: vec![
                    Depth { depth: 24, visuals: vec![visual(33, 0xff_0000), visual(34, 0x7f_0000)] },
                    Depth { depth: 16, visuals: vec![visual(36, 0xf800)] },
                ],
            },
            Screen {
                root: 2,
                root_visual: 35,
                allowed_depths: vec![Depth { depth: 32, visuals: vec![visual(35, 0xff_0000)] }],
            },
        ],
        pixmap_formats: vec![
            PixmapFormat { depth: 24, bits_per_pixel: 32 },
            PixmapFormat { depth: 32, bits_per_pixel: 32 },
        ],
        image_byte_order_msb: true,
        resource_id_mask: 0x1f_ffff,
    }
}

#[test]
fn an_image_shows_how_many_bytes_it_has() {
    let image = IconImage { width: 1, height: 16, argb32: vec![0; 64] };
    assert_eq!(format!("{image:?}"), "IconImage { width: 1, height: 16, bytes: 64 }");
    assert_eq!(format!("{image:x?}"), "IconImage { width: 1, height: 10, bytes: 40 }");
    assert_eq!(
        format!("{image:#?}"),
        "IconImage {\n    width: 1,\n    height: 16,\n    bytes: 64,\n}"
    );
}

#[test]
fn a_visual_is_found_on_any_screen() {
    let setup = setup();
    assert_eq!(
        PixelFormat::for_visual(&setup, 34),
        Some(PixelFormat {
            depth: 24,
            bits_per_pixel: 32,
            byte_order_msb: true,
            red_mask: 0x7f_0000,
            green_mask: 0xff00,
            blue_mask: 0xff,
        })
    );
    assert_eq!(PixelFormat::for_visual(&setup, 35).map(|f| f.depth), Some(32));
}

#[test]
fn an_unknown_visual_has_no_format() {
    assert_eq!(PixelFormat::for_visual(&setup(), 99), None);
}

#[test]
fn a_window_icon_gives_its_largest_image() {
    let words = vec![1, 1, 0x0102_0304, 2, 1, 0xff00_0001, 0x8000_0002, 1, 2, 5, 6];
    let icon = net_wm_icon(&words).unwrap();
    assert_eq!((icon.width, icon.height), (2, 1));
    assert_eq!(icon.argb32, vec![0xff, 0, 0, 1, 0x80, 0, 0, 2]);
}

#[test]
fn a_malformed_block_ends_the_window_icon() {
    // The second block claims more pixels than there are.
    let icon = net_wm_icon(&vec![1, 1, 7, 2, 2, 0, 0, 0]).unwrap();
    assert_eq!(icon.argb32, vec![0, 0, 0, 7]);
    assert!(net_wm_icon(&vec![]).is_none());
    assert!(net_wm_icon(&vec![0, 1, 7]).is_none());
    assert!(net_wm_icon(&vec![1025, 1, 7]).is_none());
    assert!(net_wm_icon(&vec![u32::MAX, u32::MAX, 7]).is_none());
}

#[test]
fn a_window_icon_is_read_from_a_property_of_words() {
    let mut value: Vec<u8> = Vec::new();
    for word in [1u32, 1, 0x1122_3344] {
        value.extend_from_slice(&word.to_ne_bytes());
    }
    value.push(9);
    let icon = read_net_wm_icon(32, &value).unwrap();
    assert_eq!(icon.argb32, vec![0x11, 0x22, 0x33, 0x44]);
    assert!(read_net_wm_icon(8, &value).is_none());
}

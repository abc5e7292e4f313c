use gift::block::Block;
use honeybee::graphic::{
    fetch_graphics, indexed_or_full, indices_encodable, palette_threshold_rgb8_256,
    transparent_entry, unpack_color, write_graphic, ColorScheme, GraphicFault, GraphicRes,
    Indexed, IMG_DIR, PALETTE_CAPACITY,
};

fn graphic(scheme: &str, width: u16, height: u8, tc: Option<i32>, bitmap: &[u8]) -> GraphicRes {
    GraphicRes {
        number: 7,
        name: "arrow".to_string(),
        height,
        width,
        color_scheme: scheme.to_string(),
        transparent_color: tc,
        bitmap: bitmap.to_vec(),
    }
}

fn colors(g: &GraphicRes) -> Vec<(u8, u8, u8)> {
    let ix = g.make_indexed().unwrap();
    ix.palette
        .colors()
        .iter()
        .map(|c| {
            (
                u8::from(pix::rgb::Rgb::red(*c)),
                u8::from(pix::rgb::Rgb::green(*c)),
                u8::from(pix::rgb::Rgb::blue(*c)),
            )
        })
        .collect()
}

#[test]
fn packed_color_is_decomposed() {
    assert_eq!(unpack_color(0x12_34_56), (0x12, 0x34, 0x56));
    assert_eq!(unpack_color(0), (0, 0, 0));
    assert_eq!(unpack_color(0xFF_FF_FF), (255, 255, 255));
    assert_eq!(unpack_color(0x01_00_00), (1, 0, 0));
    assert_eq!(unpack_color(-1), (255, 255, 255));
    assert_eq!(unpack_color(0x7B_01_02_03), (1, 2, 3));
    let g = graphic("color24Bit", 0, 0, Some(0x0A_0B_0C), &[]);
    assert_eq!(g.transparent_rgb(), Some((10, 11, 12)));
    assert_eq!(graphic("color24Bit", 0, 0, None, &[]).transparent_rgb(), None);
}

#[test]
fn threshold_reduces_red_green_to_3_bits_and_blue_to_4() {
    assert_eq!(palette_threshold_rgb8_256(0), (0, 0, 0));
    assert_eq!(palette_threshold_rgb8_256(15), (0, 0, 0));
    assert_eq!(palette_threshold_rgb8_256(16), (0, 0, 1));
    assert_eq!(palette_threshold_rgb8_256(32), (1, 1, 2));
    assert_eq!(palette_threshold_rgb8_256(255), (7, 7, 15));
    assert_eq!(palette_threshold_rgb8_256(256), (0, 0, 0));
    assert_eq!(palette_threshold_rgb8_256(256 + 200), (6, 6, 12));
}

#[test]
fn color_scheme_names() {
    assert_eq!(ColorScheme::from_name("monochrome1Bit"), ColorScheme::Monochrome1Bit);
    assert_eq!(ColorScheme::from_name("monochrome8Bit"), ColorScheme::Monochrome8Bit);
    assert_eq!(ColorScheme::from_name("colorClassic"), ColorScheme::ColorClassic);
    assert_eq!(ColorScheme::from_name("color24Bit"), ColorScheme::Color24Bit);
    assert_eq!(ColorScheme::from_name("Color24Bit"), ColorScheme::Monochrome1Bit);
    assert_eq!(ColorScheme::from_name(""), ColorScheme::Monochrome1Bit);
    assert_eq!(ColorScheme::Monochrome1Bit.bitmap_len(10, 3), 4);
    assert_eq!(ColorScheme::Monochrome1Bit.bitmap_len(8, 1), 1);
    assert_eq!(ColorScheme::Monochrome8Bit.bitmap_len(10, 3), 30);
    assert_eq!(ColorScheme::ColorClassic.bitmap_len(10, 3), 30);
    assert_eq!(ColorScheme::Color24Bit.bitmap_len(10, 3), 90);
    assert_eq!(ColorScheme::Color24Bit.bitmap_len(65535, 255), 65535 * 255 * 3);
    assert_eq!(ColorScheme::Color24Bit.bitmap_len(0, 255), 0);
    // the library's reading of a name is the renderer's
    for name in ["monochrome1Bit", "monochrome8Bit", "colorClassic", "color24Bit", "other"] {
        let theirs = ntcip::dms::multi::ColorScheme::from(name);
        let ours = graphic(name, 1, 1, None, &[0, 0, 0]).scheme();
        assert_eq!(format!("{theirs:?}"), format!("{ours:?}"));
    }
}

#[test]
fn transparent_color_is_palette_entry_zero() {
    // blue, green, red order in the bitmap
    let bitmap = [0, 0, 255, 0, 255, 0, 3, 2, 1, 0, 0, 255];
    let g = graphic("color24Bit", 2, 2, Some(0x01_02_03), &bitmap);
    let pal = colors(&g);
    assert_eq!(pal[0], (1, 2, 3));
    assert!(pal.len() <= PALETTE_CAPACITY);
    assert!(pal.contains(&(255, 0, 0)));
    assert!(pal.contains(&(0, 255, 0)));
    let ix = g.make_indexed().unwrap();
    assert_eq!(ix.indices.len(), 4);
    assert_eq!(ix.indices[0], ix.indices[3]);
    assert_ne!(ix.indices[0], 0);
    assert_ne!(ix.indices[1], 0);
    assert_ne!(ix.indices[0], ix.indices[1]);
    // even where no pixel has the transparent color
    let g = graphic("color24Bit", 1, 1, Some(0x0A_0B_0C), &[9, 9, 9]);
    assert_eq!(colors(&g)[0], (10, 11, 12));
    // without a transparent color the first pixel comes first
    let g = graphic("color24Bit", 1, 1, None, &[7, 8, 9]);
    assert_eq!(colors(&g), vec![(9, 8, 7)]);
}

#[test]
fn palette_never_exceeds_its_capacity() {
    // 3000 pixels of 3000 colors
    let mut bitmap = Vec::new();
    for i in 0..3000u32 {
        bitmap.push((i * 7 % 256) as u8);
        bitmap.push((i * 13 % 256) as u8);
        bitmap.push((i / 12) as u8);
    }
    let g = graphic("color24Bit", 100, 30, Some(0x00_00_01), &bitmap);
    let ix = g.make_indexed().unwrap();
    assert!(ix.palette.len() <= 256);
    assert!(ix.palette.len() > 100);
    assert_eq!(ix.indices.len(), 3000);
    assert!(ix.indices.iter().all(|i| usize::from(*i) < ix.palette.len()));
    assert_eq!(ix.palette.colors()[0], pix::rgb::SRgb8::new(0, 0, 1));
}

#[test]
fn colors_within_the_threshold_share_an_entry() {
    // 40 reds that lie 6 apart, in blue, green, red order
    let mut bitmap = Vec::new();
    for i in 0..40u8 {
        bitmap.extend_from_slice(&[0, 0, i * 6]);
    }
    let g = graphic("color24Bit", 40, 1, None, &bitmap);
    let ix = g.make_indexed().unwrap();
    assert_eq!(ix.palette.len(), 40);
    assert_eq!(ix.indices, (0..40u8).collect::<Vec<u8>>());
    // with 40 entries the threshold is (1, 1, 2): a red that lies 1 from
    // the first, and a blue that lies 2 from it, are the first entry
    bitmap.extend_from_slice(&[0, 0, 1]);
    bitmap.extend_from_slice(&[2, 0, 0]);
    bitmap.extend_from_slice(&[3, 0, 0]);
    let g = graphic("color24Bit", 43, 1, None, &bitmap);
    let ix = g.make_indexed().unwrap();
    assert_eq!(ix.palette.len(), 41);
    assert_eq!(ix.indices[40], 0);
    assert_eq!(ix.indices[41], 0);
    assert_eq!(ix.indices[42], 40);
}

fn palette_of(entries: u16) -> pix::Palette {
    let mut palette = pix::Palette::new(300);
    for i in 0..entries {
        let at = palette.set_entry(pix::rgb::SRgb8::new((i % 256) as u8, (i / 256) as u8, 9));
        assert_eq!(at, Some(usize::from(i)));
    }
    palette
}

#[test]
fn palette_of_more_than_256_entries_is_refused() {
    assert!(matches!(
        indexed_or_full(vec![1, 2], palette_of(257)),
        Err(GraphicFault::PaletteFull)
    ));
    let ix = indexed_or_full(vec![1, 2], palette_of(256)).unwrap();
    assert_eq!(ix.indices, vec![1, 2]);
    assert_eq!(ix.palette.len(), 256);
    let ix = indexed_or_full(vec![], palette_of(0)).unwrap();
    assert!(ix.indices.is_empty());
    assert!(ix.palette.is_empty());
}

#[test]
fn image_that_uses_index_255_is_refused() {
    let g = graphic("monochrome8Bit", 2, 1, Some(0x01_02_03), &[0, 0]);
    let full = Indexed { indices: vec![0, 255], palette: palette_of(256) };
    assert_eq!(g.indexed_file(full).unwrap_err(), GraphicFault::IndexTooLarge);
    let fine = Indexed { indices: vec![0, 254], palette: palette_of(256) };
    let file = g.indexed_file(fine).unwrap();
    assert_eq!(file.name, "g7.gif");
    assert_eq!(&file.bytes[..6], b"GIF89a");
    assert_eq!(*file.bytes.last().unwrap(), 0x3B);
}

#[test]
fn image_without_pixels_is_written() {
    for scheme in ["monochrome1Bit", "monochrome8Bit", "colorClassic", "color24Bit"] {
        for (width, height) in [(0, 0), (0, 9), (9, 0)] {
            for tc in [None, Some(0x01_02_03)] {
                let g = graphic(scheme, width, height, tc, &[]);
                let ix = g.make_indexed().unwrap();
                assert!(ix.indices.is_empty());
                assert_eq!(ix.palette.len(), usize::from(tc.is_some()));
                let file = write_graphic(&g).unwrap();
                assert_eq!(&file.bytes[..6], b"GIF89a");
            }
        }
    }
}

#[test]
fn every_index_names_a_palette_entry() {
    let bitmap: Vec<u8> = (0..=255u8).collect();
    for tc in [None, Some(0x01_02_03)] {
        let g = graphic("colorClassic", 16, 16, tc, &bitmap);
        let ix = g.make_indexed().unwrap();
        assert_eq!(ix.indices.len(), 256);
        assert!(!ix.palette.is_empty());
        assert!(ix.palette.len() <= 256);
        assert!(ix.indices.iter().all(|i| usize::from(*i) < ix.palette.len()));
    }
}

#[test]
fn gif_file_of_a_graphic() {
    let bitmap = [0, 0, 255, 0, 255, 0, 3, 2, 1, 0, 0, 255];
    let g = graphic("color24Bit", 2, 2, Some(0x01_02_03), &bitmap);
    let file = write_graphic(&g).unwrap();
    assert_eq!(file.name, "g7.gif");
    assert_eq!(&file.bytes[..6], b"GIF89a");
    assert_eq!(*file.bytes.last().unwrap(), 0x3B);
    let mut table = None;
    let mut size = None;
    let mut transparent = None;
    for block in gift::Decoder::new(&file.bytes[..]).into_blocks() {
        match block.unwrap() {
            Block::GlobalColorTable(t) => table = Some(t.colors().to_vec()),
            Block::ImageDesc(d) => size = Some((d.width(), d.height())),
            Block::GraphicControl(c) => transparent = Some(c.transparent_color()),
            _ => (),
        }
    }
    assert_eq!(size, Some((2, 2)));
    assert_eq!(transparent, Some(Some(0)));
    assert_eq!(&table.unwrap()[..3], &[1, 2, 3]);
    // without a transparent color nothing is flagged
    let g = graphic("color24Bit", 2, 2, None, &bitmap);
    let file = write_graphic(&g).unwrap();
    let flagged = gift::Decoder::new(&file.bytes[..])
        .into_blocks()
        .any(|b| matches!(b.unwrap(), Block::GraphicControl(_)));
    assert!(!flagged);
}

#[test]
fn monochrome_graphic() {
    // 8 x 1, one bit each: lit, dark, lit, ...
    let g = graphic("monochrome1Bit", 8, 1, None, &[0b1010_1010]);
    let ix = g.make_indexed().unwrap();
    assert_eq!(ix.indices, vec![0, 1, 0, 1, 0, 1, 0, 1]);
    assert_eq!(ix.palette.len(), 2);
    let mut g = g;
    g.number = 255;
    assert_eq!(write_graphic(&g).unwrap().name, "g255.gif");
    g.number = 0;
    assert_eq!(g.file_name(), "g0.gif");
    g.number = 40;
    assert_eq!(g.file_name(), "g40.gif");
}

#[test]
fn short_bitmap_is_refused() {
    let g = graphic("color24Bit", 2, 2, None, &[0; 11]);
    assert_eq!(write_graphic(&g).unwrap_err(), GraphicFault::InvalidBitmap);
    assert!(matches!(g.make_indexed(), Err(GraphicFault::InvalidBitmap)));
    let g = graphic("monochrome8Bit", 3, 1, None, &[1, 2]);
    assert_eq!(write_graphic(&g).unwrap_err(), GraphicFault::InvalidBitmap);
    let g = graphic("monochrome1Bit", 9, 1, None, &[1]);
    assert_eq!(write_graphic(&g).unwrap_err(), GraphicFault::InvalidBitmap);
    // an unknown scheme is read as one bit for each pixel
    let g = graphic("unknown", 8, 2, None, &[1, 2]);
    assert!(write_graphic(&g).is_ok());
    // a bitmap may be longer than needed
    let g = graphic("monochrome8Bit", 1, 1, None, &[1, 2, 3]);
    assert!(write_graphic(&g).is_ok());
}

#[test]
fn graphics_are_written_up_to_the_first_fault() {
    let graphics = vec![
        graphic("monochrome1Bit", 8, 1, None, &[0b1010_1010]),
        graphic("color24Bit", 2, 2, None, &[0; 11]),
        graphic("monochrome1Bit", 8, 1, None, &[0b1010_1010]),
    ];
    let (files, fault) = fetch_graphics(&graphics);
    assert_eq!(fault, Some(GraphicFault::InvalidBitmap));
    assert_eq!(files.len(), 1);
    assert_eq!(files[0], write_graphic(&graphics[0]).unwrap());
    let (files, fault) = fetch_graphics(&graphics[..1].to_vec());
    assert_eq!(fault, None);
    assert_eq!(files.len(), 1);
    assert_eq!(IMG_DIR, "api/img");
}

#[test]
fn index_255_cannot_be_encoded() {
    assert!(indices_encodable(&vec![]));
    assert!(indices_encodable(&vec![0, 254, 17]));
    assert!(!indices_encodable(&vec![0, 255, 17]));
    assert_eq!(transparent_entry(Some((9, 9, 9))), Some(0));
    assert_eq!(transparent_entry(None), None);
}

use honeybee::font::{fetch_fonts, FontFault, FontRes, Glyph, FONT_DIR};

fn glyph(code_point: u16, width: u8, bitmap: &[u8]) -> Glyph {
    Glyph { code_point, width, bitmap: bitmap.to_vec() }
}

fn font(name: &str, glyphs: Vec<Glyph>) -> FontRes {
    FontRes {
        f_number: 5,
        name: name.to_string(),
        height: 2,
        width: 0,
        char_spacing: 1,
        line_spacing: 2,
        glyphs,
        version_id: 0,
    }
}

#[test]
fn font_file_keeps_both_glyphs_in_order() {
    let res = font("test", vec![glyph(0x20, 2, &[0x00]), glyph(0x41, 3, &[0xA8])]);
    let file = res.encode().unwrap();
    assert_eq!(file.name, "test.ifnt");
    assert_eq!(
        String::from_utf8(file.bytes.clone()).unwrap(),
        "name: test\nfont_number: 5\nheight: 2\nwidth: 0\nchar_spacing: 1\nline_spacing: 2\n\
         \ncodepoint: 32  \n..\n..\n\ncodepoint: 65 A\nX.X\n.X.\n"
    );
    let back = ntcip::dms::ifnt::read(&file.bytes[..]).unwrap();
    assert_eq!(back.name, "test");
    assert_eq!(back.number, 5);
    assert_eq!(back.height, 2);
    assert_eq!(back.char_spacing, 1);
    assert_eq!(back.line_spacing, 2);
    assert_eq!(back.characters.len(), 2);
    assert_eq!(back.characters[0].number, 0x20);
    assert_eq!(back.characters[0].width, 2);
    assert_eq!(back.characters[0].bitmap, vec![0x00]);
    assert_eq!(back.characters[1].number, 0x41);
    assert_eq!(back.characters[1].width, 3);
    assert_eq!(back.characters[1].bitmap, vec![0xA8]);
    assert!(back.characters[0].number < back.characters[1].number);
}

#[test]
fn fixed_width_font_states_its_width() {
    let res = font("fixed", vec![glyph(0x30, 4, &[0xFF]), glyph(0x31, 4, &[0x0F])]);
    let text = String::from_utf8(res.encode().unwrap().bytes).unwrap();
    assert!(text.contains("\nwidth: 4\n"));
    assert!(text.ends_with("\ncodepoint: 49 1\n....\nXXXX\n"));
}

#[test]
fn first_fault_of_an_invalid_font() {
    let good = vec![glyph(0x41, 3, &[0xA8])];
    let mut res = font("f", good.clone());
    assert_eq!(res.validate(), Ok(()));
    res.f_number = 0;
    res.height = 0;
    assert_eq!(res.validate(), Err(FontFault::InvalidNumber));
    assert_eq!(res.encode().unwrap_err(), FontFault::InvalidNumber);
    res.f_number = 1;
    assert_eq!(res.validate(), Err(FontFault::InvalidHeight));
    // a bitmap of the wrong length
    let res = font("f", vec![glyph(0x41, 3, &[0xA8, 0x00])]);
    assert_eq!(res.validate(), Err(FontFault::InvalidCharHeight));
    // code point zero
    let res = font("f", vec![glyph(0x41, 3, &[0xA8]), glyph(0, 3, &[0xA8])]);
    assert_eq!(res.validate(), Err(FontFault::InvalidCharHeight));
    // the earliest code point that recurs is reported
    let res = font(
        "f",
        vec![
            glyph(0x41, 3, &[0xA8]),
            glyph(0x42, 3, &[0xA8]),
            glyph(0x43, 3, &[0xA8]),
            glyph(0x43, 3, &[0xA8]),
            glyph(0x42, 3, &[0xA8]),
        ],
    );
    assert_eq!(res.validate(), Err(FontFault::DuplicateChar(0x42)));
    assert_eq!(res.encode().unwrap_err(), FontFault::DuplicateChar(0x42));
    // an invalid glyph is reported before a duplicate
    let res = font("f", vec![glyph(0x41, 3, &[0xA8]), glyph(0x41, 3, &[])]);
    assert_eq!(res.validate(), Err(FontFault::InvalidCharHeight));
}

#[test]
fn library_and_writer_agree_on_validity() {
    let cases = vec![
        font("a", vec![]),
        font("b", vec![glyph(0x41, 3, &[0xA8])]),
        font("c", vec![glyph(0x41, 3, &[0xA8]), glyph(0x41, 3, &[0xA8])]),
        font("d", vec![glyph(0x41, 9, &[0xA8])]),
        font("e", vec![glyph(0x41, 8, &[0xA8, 0x01])]),
    ];
    for res in cases {
        let theirs = ntcip::dms::Font {
            number: res.f_number,
            name: res.name.clone(),
            height: res.height,
            char_spacing: res.char_spacing,
            line_spacing: res.line_spacing,
            characters: res
                .glyphs
                .iter()
                .map(|g| ntcip::dms::CharacterEntry {
                    number: g.code_point,
                    width: g.width,
                    bitmap: g.bitmap.clone(),
                })
                .collect(),
        };
        assert_eq!(res.validate().is_ok(), theirs.validate().is_ok());
        assert_eq!(res.encode().is_ok(), theirs.validate().is_ok());
    }
}

#[test]
fn ascending_code_points() {
    assert!(font("a", vec![]).is_ascending());
    assert!(font("a", vec![glyph(0x41, 3, &[0xA8])]).is_ascending());
    assert!(font("a", vec![glyph(0x20, 2, &[0]), glyph(0x41, 3, &[0xA8])]).is_ascending());
    assert!(!font("a", vec![glyph(0x41, 3, &[0xA8]), glyph(0x20, 2, &[0])]).is_ascending());
    assert!(!font("a", vec![glyph(0x41, 3, &[0xA8]), glyph(0x41, 3, &[0xA8])]).is_ascending());
    let res = font("a", vec![glyph(1, 0, &[]), glyph(3, 0, &[]), glyph(2, 0, &[])]);
    assert!(!res.is_ascending());
    // a font that is not in order is written in the order given
    let text = String::from_utf8(res.encode().unwrap().bytes).unwrap();
    let first = text.find("codepoint: 3 ").unwrap();
    let second = text.find("codepoint: 2 ").unwrap();
    assert!(first < second);
}

#[test]
fn glyph_validity() {
    assert!(glyph(1, 0, &[]).is_valid(7));
    assert!(glyph(1, 5, &[0; 5]).is_valid(7));
    assert!(!glyph(1, 5, &[0; 4]).is_valid(7));
    assert!(!glyph(0, 5, &[0; 5]).is_valid(7));
    assert!(glyph(0xFFFF, 255, &vec![0; 8129]).is_valid(255));
}

#[test]
fn fonts_are_written_up_to_the_first_invalid_one() {
    let fonts = vec![
        font("one", vec![glyph(0x41, 3, &[0xA8])]),
        font("two", vec![]),
        font("bad", vec![glyph(0x41, 3, &[])]),
        font("four", vec![]),
    ];
    let (files, fault) = fetch_fonts(&fonts);
    assert_eq!(fault, Some(FontFault::InvalidCharHeight));
    assert_eq!(files.len(), 2);
    assert_eq!(files[0].name, "one.ifnt");
    assert_eq!(files[1].name, "two.ifnt");
    assert_eq!(files[0], fonts[0].encode().unwrap());
    let (files, fault) = fetch_fonts(&fonts[..2].to_vec());
    assert_eq!(fault, None);
    assert_eq!(files.len(), 2);
    let (files, fault) = fetch_fonts(&vec![]);
    assert!(files.is_empty());
    assert_eq!(fault, None);
    assert_eq!(FONT_DIR, "api/font");
}

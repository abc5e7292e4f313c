//! Font resources: a font row of the database, checked and written as a
//! font file in the `.ifnt` format.

use vstd::prelude::*;
use vstd::string::StringExecFns;
use ntcip::dms::ifnt::IfntError;

verus! {

/// Directory of the font files.
pub const FONT_DIR: &'static str = "api/font";

/// Glyph from font
#[derive(Clone, Debug, PartialEq, Eq)]
pub struct Glyph {
    /// Code point of the character
    pub code_point: u16,
    /// Width in pixels
    pub width: u8,
    /// Bitmap data, by rows, one bit for each pixel
    pub bitmap: Vec<u8>,
}

/// Font resource
#[derive(Clone, Debug, PartialEq, Eq)]
pub struct FontRes {
    /// Font number
    pub f_number: u8,
    /// Name
    pub name: String,
    /// Height in pixels
    pub height: u8,
    /// Width in pixels of a fixed-width font
    pub width: u8,
    /// Default pixel spacing between characters
    pub char_spacing: u8,
    /// Default pixel spacing between lines
    pub line_spacing: u8,
    /// Glyphs, one for each character, in the order in which they are
    /// written
    pub glyphs: Vec<Glyph>,
    /// Version identifier kept by the database
    pub version_id: u16,
}

/// What a glyph holds.
pub struct GlyphView {
    pub code_point: u16,
    pub width: u8,
    pub bitmap: Seq<u8>,
}

/// What of a font resource goes into its file.
pub struct FontView {
    pub number: u8,
    pub name: Seq<char>,
    pub height: u8,
    pub char_spacing: u8,
    pub line_spacing: u8,
    pub glyphs: Seq<GlyphView>,
}

impl View for Glyph {
    type V = GlyphView;

    open spec fn view(&self) -> GlyphView {
        GlyphView { code_point: self.code_point, width: self.width, bitmap: self.bitmap@ }
    }
}

impl View for FontRes {
    type V = FontView;

    open spec fn view(&self) -> FontView {
        FontView {
            number: self.f_number,
            name: self.name@,
            height: self.height,
            char_spacing: self.char_spacing,
            line_spacing: self.line_spacing,
            glyphs: Seq::new(self.glyphs@.len(), |i: int| self.glyphs@[i]@),
        }
    }
}

/// Why a font cannot be written.
#[derive(Clone, Copy, Debug, PartialEq, Eq, Structural)]
pub enum FontFault {
    /// The font number is zero.
    InvalidNumber,
    /// The height is zero.
    InvalidHeight,
    /// Some glyph has code point zero, or a bitmap that does not hold its
    /// width times the font's height in bits.
    InvalidCharHeight,
    /// The code point occurs more than once.
    DuplicateChar(u16),
    /// The font was valid and still could not be written.
    Write,
}

/// A font file to publish.
#[derive(Clone, Debug, PartialEq, Eq)]
pub struct FontFile {
    /// File name: the font's name and `.ifnt`
    pub name: String,
    /// Contents
    pub bytes: Vec<u8>,
}

/// Bytes that hold one bit for each pixel of a glyph `width` wide in a
/// font `height` high.
pub open spec fn bitmap_len(width: u8, height: u8) -> int {
    (width * height + 7) / 8
}

/// The glyph has a code point, and a bitmap of the size that its width and
/// the font's height ask for.
pub open spec fn glyph_valid(g: GlyphView, height: u8) -> bool {
    g.code_point > 0 && g.bitmap.len() == bitmap_len(g.width, height)
}

/// The code point of glyph `i` occurs again after it.
pub open spec fn repeated_later(glyphs: Seq<GlyphView>, i: int) -> bool {
    exists|j: int| i < j < glyphs.len() && (#[trigger] glyphs[j]).code_point == glyphs[i].code_point
}

/// No code point occurs twice.
pub open spec fn unique_code_points(glyphs: Seq<GlyphView>) -> bool {
    forall|i: int| 0 <= i < glyphs.len() ==> !#[trigger] repeated_later(glyphs, i)
}

/// The code points ascend from each glyph to the next.
pub open spec fn ascending(glyphs: Seq<GlyphView>) -> bool {
    forall|i: int, j: int|
        0 <= i < j < glyphs.len() ==> glyphs[i].code_point < glyphs[j].code_point
}

/// Every glyph is valid.
pub open spec fn glyphs_valid(glyphs: Seq<GlyphView>, height: u8) -> bool {
    forall|i: int| 0 <= i < glyphs.len() ==> glyph_valid(#[trigger] glyphs[i], height)
}

/// The font can be written: it has a number and a height, every glyph is
/// valid, and no code point occurs twice.
pub open spec fn font_valid(f: FontView) -> bool {
    &&& f.number >= 1
    &&& f.height >= 1
    &&& glyphs_valid(f.glyphs, f.height)
    &&& unique_code_points(f.glyphs)
}

/// `fault` is the first thing wrong with the font, where the number is
/// looked at first, then the height, then the glyphs each by itself, and
/// last the code points, of which the earliest that recurs is reported.
pub open spec fn is_first_fault(f: FontView, fault: FontFault) -> bool {
    match fault {
        FontFault::InvalidNumber => f.number < 1,
        FontFault::InvalidHeight => f.number >= 1 && f.height < 1,
        FontFault::InvalidCharHeight => f.number >= 1 && f.height >= 1 && !glyphs_valid(
            f.glyphs,
            f.height,
        ),
        FontFault::DuplicateChar(cp) => {
            &&& f.number >= 1
            &&& f.height >= 1
            &&& glyphs_valid(f.glyphs, f.height)
            &&& exists|i: int|
                {
                    &&& 0 <= i < f.glyphs.len()
                    &&& #[trigger] repeated_later(f.glyphs, i)
                    &&& f.glyphs[i].code_point == cp
                    &&& forall|h: int| 0 <= h < i ==> !#[trigger] repeated_later(f.glyphs, h)
                }
        },
        FontFault::Write => false,
    }
}

/// The text of the font file that `ifnt::write` of the `ntcip` crate
/// produces for a valid font.
pub uninterp spec fn ifnt_text(f: FontView) -> Seq<u8>;

/// The error of the `.ifnt` reader and writer of the `ntcip` crate.
#[verifier::external_type_specification]
#[verifier::external_body]
pub struct ExIfntError(IfntError);

/// Writes the font with `ntcip::dms::ifnt::write` into a buffer. A
/// valid font passes the writer's own validation, and writing into a
/// buffer does not fail, so the text comes back; it is a function of the
/// fields that are handed over.
#[verifier::external_body]
fn ifnt_write(font: &FontRes) -> (r: Result<Vec<u8>, IfntError>)
    requires
        font_valid(font@),
    ensures
        r is Ok,
        r matches Ok(bytes) ==> bytes@ == ifnt_text(font@),
{
    let characters = font.glyphs.iter().map(|g| ntcip::dms::CharacterEntry {
        number: g.code_point,
        width: g.width,
        bitmap: g.bitmap.clone(),
    }).collect();
    let f = ntcip::dms::Font { number: font.f_number, name: font.name.clone(), height: font.height,
        char_spacing: font.char_spacing, line_spacing: font.line_spacing, characters };
    let mut buf = Vec::new();
    ntcip::dms::ifnt::write(&mut buf, &f).map(|_| buf)
}

impl Glyph {
    /// Whether the glyph is valid in a font of the given height.
    pub fn is_valid(&self, height: u8) -> (r: bool)
        ensures
            r == glyph_valid(self@, height),
    {
        assert(self.width * height <= 255 * 255) by (nonlinear_arith)
            requires
                self.width <= 255,
                height <= 255,
        ;
        let bits: usize = (self.width as usize) * (height as usize);
        self.code_point > 0 && self.bitmap.len() == (bits + 7) / 8
    }
}

impl FontRes {
    /// Position of the first glyph whose code point occurs again later.
    fn first_repeated(&self) -> (r: Option<usize>)
        ensures
            match r {
                Some(i) => i < self.glyphs@.len() && repeated_later(self@.glyphs, i as int)
                    && forall|h: int| 0 <= h < i ==> !#[trigger] repeated_later(self@.glyphs, h),
                None => unique_code_points(self@.glyphs),
            },
    {
        let n = self.glyphs.len();
        let mut i: usize = 0;
        while i < n
            invariant
                n == self.glyphs@.len(),
                i <= n,
                forall|h: int| 0 <= h < i ==> !#[trigger] repeated_later(self@.glyphs, h),
            decreases n - i,
        {
            let mut j: usize = i + 1;
            while j < n
                invariant
                    n == self.glyphs@.len(),
                    i < j <= n,
                    forall|h: int| 0 <= h < i ==> !#[trigger] repeated_later(self@.glyphs, h),
                    forall|q: int|
                        i < q < j ==> (#[trigger] self@.glyphs[q]).code_point
                            != self@.glyphs[i as int].code_point,
                decreases n - j,
            {
                if self.glyphs[j].code_point == self.glyphs[i].code_point {
                    assert(self@.glyphs.len() == n);
                    assert(self@.glyphs[j as int].code_point == self@.glyphs[i as int].code_point);
                    assert(repeated_later(self@.glyphs, i as int));
                    return Some(i);
                }
                j += 1;
            }
            i += 1;
        }
        None
    }

    /// Whether the code points ascend from each glyph to the next, as the
    /// glyphs of a font are kept.
    pub fn is_ascending(&self) -> (r: bool)
        ensures
            r == ascending(self@.glyphs),
    {
        let n = self.glyphs.len();
        let mut i: usize = 1;
        while i < n
            invariant
                n == self.glyphs@.len(),
                1 <= i,
                forall|a: int, b: int|
                    0 <= a < b < i && b < n ==> self@.glyphs[a].code_point
                        < self@.glyphs[b].code_point,
            decreases n - i,
        {
            if self.glyphs[i - 1].code_point >= self.glyphs[i].code_point {
                assert(!(self@.glyphs[i - 1].code_point < self@.glyphs[i as int].code_point));
                return false;
            }
            assert forall|a: int, b: int| 0 <= a < b < i + 1 && b < n implies self@.glyphs[a].code_point
                < self@.glyphs[b].code_point by {
                if b == i && a < i - 1 {
                    assert(self@.glyphs[a].code_point < self@.glyphs[i - 1].code_point);
                }
            }
            i += 1;
        }
        true
    }

    /// Check that the font can be written, and say what is wrong where it
    /// cannot.
    pub fn validate(&self) -> (r: Result<(), FontFault>)
        ensures
            r is Ok <==> font_valid(self@),
            r matches Err(fault) ==> is_first_fault(self@, fault),
    {
        if self.f_number < 1 {
            return Err(FontFault::InvalidNumber);
        }
        if self.height < 1 {
            return Err(FontFault::InvalidHeight);
        }
        let mut i: usize = 0;
        while i < self.glyphs.len()
            invariant
                i <= self.glyphs@.len(),
                self.f_number >= 1,
                self.height >= 1,
                forall|h: int| 0 <= h < i ==> glyph_valid(#[trigger] self@.glyphs[h], self.height),
            decreases self.glyphs@.len() - i,
        {
            if !self.glyphs[i].is_valid(self.height) {
                assert(self@.glyphs.len() == self.glyphs@.len());
                assert(self@.glyphs[i as int] == self.glyphs@[i as int]@);
                assert(!glyph_valid(self@.glyphs[i as int], self.height));
                assert(!glyphs_valid(self@.glyphs, self.height));
                return Err(FontFault::InvalidCharHeight);
            }
            i += 1;
        }
        match self.first_repeated() {
            Some(i) => Err(FontFault::DuplicateChar(self.glyphs[i].code_point)),
            None => Ok(()),
        }
    }

    /// The font file: named after the font, with the font written in the
    /// `.ifnt` format. An invalid font gives its first fault and no file.
    pub fn encode(&self) -> (r: Result<FontFile, FontFault>)
        ensures
            r is Ok <==> font_valid(self@),
            r matches Ok(file) ==> file.name@ == self.name@ + ".ifnt"@ && file.bytes@ == ifnt_text(
                self@,
            ),
            r matches Err(fault) ==> is_first_fault(self@, fault),
    {
        match self.validate() {
            Err(fault) => Err(fault),
            Ok(()) => match ifnt_write(self) {
                Ok(bytes) => {
                    let mut name = self.name.clone();
                    name.append(".ifnt");
                    Ok(FontFile { name, bytes })
                },
                Err(_) => Err(FontFault::Write),
            },
        }
    }
}

/// Glyphs whose code points ascend hold no code point twice.
pub proof fn law_ascending_is_unique(glyphs: Seq<GlyphView>)
    requires
        ascending(glyphs),
    ensures
        unique_code_points(glyphs),
{
    assert forall|i: int| 0 <= i < glyphs.len() implies !#[trigger] repeated_later(glyphs, i) by {
        if repeated_later(glyphs, i) {
            let j = choose|j: int|
                i < j < glyphs.len() && (#[trigger] glyphs[j]).code_point == glyphs[i].code_point;
            assert(glyphs[i].code_point < glyphs[j].code_point);
        }
    }
}

/// The files of the fonts before the first invalid one, in order.
pub open spec fn font_files_match(files: Seq<FontFile>, fonts: Seq<FontRes>) -> bool {
    &&& files.len() <= fonts.len()
    &&& forall|i: int|
        0 <= i < files.len() ==> {
            &&& font_valid(#[trigger] fonts[i]@)
            &&& files[i].name@ == fonts[i].name@ + ".ifnt"@
            &&& files[i].bytes@ == ifnt_text(fonts[i]@)
        }
}

/// Fetch font resources: one file for each font row, in order, up to the
/// first font that is invalid. The files before it are still to be
/// published; its fault comes back with them.
pub fn fetch_fonts(fonts: &Vec<FontRes>) -> (r: (Vec<FontFile>, Option<FontFault>))
    ensures
        font_files_match(r.0@, fonts@),
        r.1 is None ==> r.0@.len() == fonts@.len(),
        r.1 matches Some(fault) ==> r.0@.len() < fonts@.len() && is_first_fault(
            fonts@[r.0@.len() as int]@,
            fault,
        ),
{
    let mut files: Vec<FontFile> = Vec::new();
    let mut i: usize = 0;
    while i < fonts.len()
        invariant
            i <= fonts@.len(),
            files@.len() == i,
            font_files_match(files@, fonts@),
        decreases fonts@.len() - i,
    {
        let ghost before = files@;
        match fonts[i].encode() {
            Ok(file) => {
                files.push(file);
                assert forall|j: int| 0 <= j < files@.len() implies {
                    &&& font_valid(#[trigger] fonts@[j]@)
                    &&& files@[j].name@ == fonts@[j].name@ + ".ifnt"@
                    &&& files@[j].bytes@ == ifnt_text(fonts@[j]@)
                } by {
                    if j < before.len() {
                        assert(files@[j] == before[j]);
                        assert(font_valid(fonts@[j]@));
                    } else {
                        assert(files@[j] == file);
                        assert(font_valid(fonts@[i as int]@));
                    }
                }
            },
            Err(fault) => {
                return (files, Some(fault));
            },
        }
        i += 1;
    }
    (files, None)
}

} // verus!

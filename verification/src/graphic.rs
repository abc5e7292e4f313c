//! Graphic resources: a graphic row of the database, turned into an
//! indexed image with a palette and encoded as a GIF file.

use vstd::prelude::*;
use vstd::string::StringExecFns;
use gift::{Encoder, Step};
use pix::el::Pixel;
use pix::gray::Gray8;
use pix::rgb::{SRgb8, SRgba8};
use pix::{Palette, Raster};
use crate::text::{decimal, push_decimal, str_eq};

verus! {

/// Directory of the image files.
pub const IMG_DIR: &'static str = "api/img";

/// Most entries that a palette may hold.
pub const PALETTE_CAPACITY: usize = 256;

/// Palette index that cannot be encoded: the encoder counts the entries
/// in a byte.
pub const INDEX_LIMIT: u8 = 255;

/// An opaque color.
pub type Rgb = (u8, u8, u8);

/// A color with its alpha value.
pub type Rgba = (u8, u8, u8, u8);

/// Graphic resource
#[derive(Clone, Debug, PartialEq, Eq)]
pub struct GraphicRes {
    /// Graphic number
    pub number: u8,
    /// Name
    pub name: String,
    /// Height in pixels
    pub height: u8,
    /// Width in pixels
    pub width: u16,
    /// Name of the color scheme
    pub color_scheme: String,
    /// Transparent color, packed in 24 bits: red, green, blue
    pub transparent_color: Option<i32>,
    /// Bitmap data, by rows
    pub bitmap: Vec<u8>,
}

/// Color scheme of a graphic's bitmap.
#[derive(Clone, Copy, Debug, PartialEq, Eq, Structural)]
pub enum ColorScheme {
    /// Monochrome with 1-bit values
    Monochrome1Bit,
    /// Monochrome with 8-bit values
    Monochrome8Bit,
    /// Classic color
    ColorClassic,
    /// 24-bit color
    Color24Bit,
}

/// Why a graphic cannot be encoded.
#[derive(Clone, Copy, Debug, PartialEq, Eq, Structural)]
pub enum GraphicFault {
    /// The bitmap is shorter than its width, height and color scheme ask
    /// for.
    InvalidBitmap,
    /// The image needs more palette entries than a palette may hold.
    PaletteFull,
    /// The image uses the one palette index that cannot be encoded.
    IndexTooLarge,
    /// The encoder failed.
    Encode,
}

/// An indexed image: one palette index for each pixel, by rows, and the
/// palette.
pub struct Indexed {
    /// Palette index of each pixel
    pub indices: Vec<u8>,
    /// Color table
    pub palette: Palette,
}

/// An image file to publish.
#[derive(Clone, Debug, PartialEq, Eq)]
pub struct GraphicFile {
    /// File name: `g`, the graphic number and `.gif`
    pub name: String,
    /// Contents
    pub bytes: Vec<u8>,
}

/// Red component of a packed color: bits 16 to 23.
pub open spec fn packed_red(tc: i32) -> u8 {
    (((tc as u32) >> 16) & 0xff) as u8
}

/// Green component of a packed color: bits 8 to 15.
pub open spec fn packed_green(tc: i32) -> u8 {
    (((tc as u32) >> 8) & 0xff) as u8
}

/// Blue component of a packed color: bits 0 to 7.
pub open spec fn packed_blue(tc: i32) -> u8 {
    ((tc as u32) & 0xff) as u8
}

/// The components of a packed color.
pub open spec fn unpacked(tc: Option<i32>) -> Option<Rgb> {
    match tc {
        Some(c) => Some((packed_red(c), packed_green(c), packed_blue(c))),
        None => None,
    }
}

/// The color scheme that a name stands for; a name that is not known
/// stands for the 1-bit monochrome scheme.
pub open spec fn scheme_of(name: Seq<char>) -> ColorScheme {
    if name == "monochrome8Bit"@ {
        ColorScheme::Monochrome8Bit
    } else if name == "colorClassic"@ {
        ColorScheme::ColorClassic
    } else if name == "color24Bit"@ {
        ColorScheme::Color24Bit
    } else {
        ColorScheme::Monochrome1Bit
    }
}

/// Bytes that a bitmap must hold for the pixels to be read from it.
pub open spec fn bitmap_needed(scheme: ColorScheme, width: u16, height: u8) -> int {
    match scheme {
        ColorScheme::Monochrome1Bit => (width * height + 7) / 8,
        ColorScheme::Color24Bit => width * height * 3,
        _ => width * height,
    }
}

/// The threshold for a palette that holds `v` entries: the low 8 bits of
/// `v`, reduced to 3 bits for red and green and to 4 bits for blue.
pub open spec fn threshold_of(v: usize) -> Rgb {
    (((v & 0xFF) as u8) >> 5u8, ((v & 0xFF) as u8) >> 5u8, ((v & 0xFF) as u8) >> 4u8)
}

/// `short` is how `long` begins.
pub open spec fn is_prefix(short: Seq<Rgb>, long: Seq<Rgb>) -> bool {
    short.len() <= long.len() && long.subrange(0, short.len() as int) == short
}

/// The palette that the indexing starts from: the transparent color
/// alone, where there is one.
pub open spec fn seed_colors(transparent: Option<Rgb>) -> Seq<Rgb> {
    match transparent {
        Some(c) => seq![c],
        None => seq![],
    }
}

/// The palette index that is flagged transparent.
pub open spec fn transparent_index(transparent: Option<Rgb>) -> Option<u8> {
    match transparent {
        Some(_) => Some(0u8),
        None => None,
    }
}

/// Every index names one of the first `entries` entries of a palette.
pub open spec fn indices_within(indices: Seq<u8>, entries: nat) -> bool {
    forall|i: int| 0 <= i < indices.len() ==> indices[i] < entries
}

/// Every index can be encoded.
pub open spec fn encodable(indices: Seq<u8>) -> bool {
    forall|i: int| 0 <= i < indices.len() ==> indices[i] < INDEX_LIMIT
}

/// File name of a graphic.
pub open spec fn gif_name(number: u8) -> Seq<char> {
    "g"@ + decimal(number as nat) + ".gif"@
}

/// The colors that a palette holds, in index order.
pub uninterp spec fn palette_colors(p: Palette) -> Seq<Rgb>;

/// The number of entries that a palette was made for.
pub uninterp spec fn palette_limit(p: Palette) -> nat;

/// The palette matches colors with the threshold `threshold_of`.
pub uninterp spec fn palette_quantizing(p: Palette) -> bool;

/// The pixels, by rows, that `Graphic::to_raster` of the `ntcip` crate
/// gives for a graphic.
pub uninterp spec fn graphic_rgba(
    height: u8,
    width: u16,
    scheme: Seq<char>,
    transparent: Option<Rgb>,
    bitmap: Seq<u8>,
) -> Seq<Rgba>;

/// The palette indices and the grown palette that `Palette::make_indexed`
/// of the `pix` crate gives for the pixels, starting from `colors`, with
/// the threshold `threshold_of`, while no more than `limit` entries are
/// needed.
pub uninterp spec fn quantized(pixels: Seq<Rgba>, colors: Seq<Rgb>, limit: nat) -> (
    Seq<u8>,
    Seq<Rgb>,
);

/// The GIF file that the step encoder of the `gift` crate writes for one
/// indexed image.
pub uninterp spec fn gif_bytes(
    width: u16,
    height: u8,
    indices: Seq<u8>,
    colors: Seq<Rgb>,
    transparent: Option<u8>,
) -> Seq<u8>;

/// The color table of the `pix` crate.
#[verifier::external_type_specification]
#[verifier::external_body]
pub struct ExPalette(Palette);

/// The error of the encoder of the `gift` crate.
#[verifier::external_type_specification]
#[verifier::external_body]
pub struct ExGiftError(gift::Error);

/// Renders the graphic with `ntcip::dms::Graphic::to_raster` and hands
/// out its pixels by rows. The raster has the graphic's width and height.
/// The bitmap must be long enough for every pixel to be read from it.
#[verifier::external_body]
fn to_rgba(g: &GraphicRes, transparent: Option<Rgb>) -> (r: Vec<Rgba>)
    requires
        g.bitmap@.len() >= bitmap_needed(scheme_of(g.color_scheme@), g.width, g.height),
    ensures
        r@ == graphic_rgba(g.height, g.width, g.color_scheme@, transparent, g.bitmap@),
        r@.len() == g.width * g.height,
{
    let graphic = ntcip::dms::Graphic { number: g.number, name: g.name.clone(), height: g.height,
        width: g.width, gtype: g.color_scheme[..].into(),
        transparent_color: transparent.map(|c| ntcip::dms::multi::Color::Rgb(c.0, c.1, c.2)),
        bitmap: g.bitmap.clone() };
    let raster = graphic.to_raster();
    let rgba = |p: &SRgba8| (p.one().into(), p.two().into(), p.three().into(), p.four().into());
    raster.pixels().iter().map(rgba).collect()
}

/// Makes an empty palette with `Palette::new`.
#[verifier::external_body]
fn palette_new(capacity: usize) -> (p: Palette)
    requires
        capacity <= 0x10000,
    ensures
        palette_colors(p) == Seq::<Rgb>::empty(),
        palette_limit(p) == capacity,
{
    Palette::new(capacity)
}

/// Looks a color up with `Palette::set_entry`, which adds it where no
/// entry matches. An index that comes back is that of an entry that was
/// there, or of the color added at the end. Nothing comes back only from
/// a palette that already holds as many entries as it was made for. An
/// empty palette made for at least one entry takes the color as entry 0.
#[verifier::external_body]
fn palette_set_entry(p: &mut Palette, clr: Rgb) -> (r: Option<usize>)
    ensures
        palette_limit(*final(p)) == palette_limit(*old(p)),
        palette_quantizing(*final(p)) == palette_quantizing(*old(p)),
        match r {
            Some(i) => (i < palette_colors(*old(p)).len() && palette_colors(*final(p))
                == palette_colors(*old(p))) || (i == palette_colors(*old(p)).len()
                && palette_colors(*final(p)) == palette_colors(*old(p)).push(clr)),
            None => palette_colors(*final(p)) == palette_colors(*old(p)) && palette_colors(
                *old(p),
            ).len() >= palette_limit(*old(p)),
        },
        palette_colors(*old(p)).len() == 0 && palette_limit(*old(p)) > 0 ==> r == Some(0usize),
{
    p.set_entry(SRgb8::new(clr.0, clr.1, clr.2))
}

/// The threshold `palette_threshold_rgb8_256` as a pixel, built with
/// `Pixel::from_channels`: the function that the palette is given to call.
/// A closure cannot be handed over, because the palette takes a plain
/// function. The slice holds a fourth, opaque channel, so that no pixel
/// format reads beyond it; the palette's format reads the first three.
#[verifier::external_body]
fn threshold_pixel<P: Pixel<Chan = pix::chan::Ch8>>(v: usize) -> P {
    let t = palette_threshold_rgb8_256(v);
    P::from_channels(&[t.0.into(), t.1.into(), t.2.into(), u8::MAX.into()])
}

/// Sets the matching threshold with `Palette::set_threshold_fn`: from
/// then on the palette matches with `palette_threshold_rgb8_256`. The
/// entries stay as they are.
#[verifier::external_body]
fn palette_set_threshold(p: &mut Palette)
    ensures
        palette_colors(*final(p)) == palette_colors(*old(p)),
        palette_limit(*final(p)) == palette_limit(*old(p)),
        palette_quantizing(*final(p)),
{
    p.set_threshold_fn(threshold_pixel::<SRgb8>)
}

/// Indexes the pixels with `Palette::make_indexed`, which looks each
/// pixel up as `set_entry` does: one index for each pixel, and a palette
/// that begins with the entries it had and has grown by at most one entry
/// for each pixel. An index is what the lookup gave, cut to a byte, or 0
/// where a full palette gave nothing: so in a palette that was made for
/// at least one entry and ends with at most 256, every index names an
/// entry. Where the palette ends with no more entries than it was made
/// for, indices and palette are those named by `quantized`.
#[verifier::external_body]
fn palette_make_indexed(p: &mut Palette, width: u16, height: u8, pixels: &Vec<Rgba>) -> (r: Vec<u8>)
    requires
        pixels@.len() == width * height,
    ensures
        r@.len() == pixels@.len(),
        is_prefix(palette_colors(*old(p)), palette_colors(*final(p))),
        palette_colors(*final(p)).len() <= palette_colors(*old(p)).len() + pixels@.len(),
        palette_limit(*final(p)) == palette_limit(*old(p)),
        palette_limit(*old(p)) > 0 && palette_colors(*final(p)).len() <= 256 ==> indices_within(
            r@,
            palette_colors(*final(p)).len(),
        ),
        palette_quantizing(*old(p)) && palette_colors(*final(p)).len() <= palette_limit(*old(p))
            ==> (r@, palette_colors(*final(p))) == quantized(
            pixels@,
            palette_colors(*old(p)),
            palette_limit(*old(p)),
        ),
{
    let px: Vec<SRgba8> = pixels.iter().map(|c| SRgba8::new(c.0, c.1, c.2, c.3)).collect();
    let indexed = p.make_indexed(Raster::with_pixels(width.into(), height.into(), px));
    indexed.pixels().iter().map(|i| i.one().into()).collect()
}

/// Counts the entries with `Palette::len`.
#[verifier::external_body]
fn palette_len(p: &Palette) -> (n: usize)
    ensures
        n == palette_colors(*p).len(),
{
    p.len()
}

/// Encodes one indexed image with the step encoder of the `gift` crate
/// into a buffer. The encoder counts palette entries in a byte, so no
/// index may be 255. It fails only where a write fails, where the image
/// is wider or higher than 65535, or where blocks come out of order:
/// none of which can be with one image of this size written to a buffer.
/// What it writes is a function of the image, the palette and the
/// transparent index.
#[verifier::external_body]
fn gif_encode(
    width: u16,
    height: u8,
    indices: &Vec<u8>,
    palette: Palette,
    transparent: Option<u8>,
) -> (r: Result<Vec<u8>, gift::Error>)
    requires
        indices@.len() == width * height,
        encodable(indices@),
    ensures
        r is Ok,
        r matches Ok(bytes) ==> bytes@ == gif_bytes(
            width,
            height,
            indices@,
            palette_colors(palette),
            transparent,
        ),
{
    let px: Vec<Gray8> = indices.iter().map(|i| Gray8::new(*i)).collect();
    let raster = Raster::with_pixels(width.into(), height.into(), px);
    let step = Step::with_indexed(raster, palette).with_transparent_color(transparent);
    let mut bytes = Vec::new();
    let mut enc = Encoder::new(&mut bytes).into_step_enc();
    let res = enc.encode_step(&step);
    drop(enc);
    res.map(|_| bytes)
}

/// The components of a color packed in 24 bits.
pub fn unpack_color(tc: i32) -> (r: Rgb)
    ensures
        r == (packed_red(tc), packed_green(tc), packed_blue(tc)),
{
    let bits = tc as u32;
    let red = ((bits >> 16) & 0xff) as u8;
    let green = ((bits >> 8) & 0xff) as u8;
    let blue = (bits & 0xff) as u8;
    (red, green, blue)
}

/// Get the difference threshold for SRgb8 with 256 capacity palette
pub fn palette_threshold_rgb8_256(v: usize) -> (r: Rgb)
    ensures
        r == threshold_of(v),
{
    let val = (v & 0xFF) as u8;
    (val >> 5, val >> 5, val >> 4)
}

impl ColorScheme {
    /// The color scheme that a name stands for.
    pub fn from_name(name: &str) -> (r: ColorScheme)
        ensures
            r == scheme_of(name@),
    {
        if str_eq(name, "monochrome8Bit") {
            ColorScheme::Monochrome8Bit
        } else if str_eq(name, "colorClassic") {
            ColorScheme::ColorClassic
        } else if str_eq(name, "color24Bit") {
            ColorScheme::Color24Bit
        } else {
            ColorScheme::Monochrome1Bit
        }
    }

    /// Bytes that a bitmap of the scheme must hold for an image of the
    /// given size.
    pub fn bitmap_len(self, width: u16, height: u8) -> (n: usize)
        ensures
            n == bitmap_needed(self, width, height),
    {
        assert(width * height <= 0xffff * 0xff) by (nonlinear_arith)
            requires
                width <= 0xffff,
                height <= 0xff,
        ;
        let pix: usize = (width as usize) * (height as usize);
        match self {
            ColorScheme::Monochrome1Bit => (pix + 7) / 8,
            ColorScheme::Color24Bit => pix * 3,
            _ => pix,
        }
    }
}

impl GraphicRes {
    /// The transparent color, if one is declared.
    pub fn transparent_rgb(&self) -> (r: Option<Rgb>)
        ensures
            r == unpacked(self.transparent_color),
    {
        match self.transparent_color {
            Some(tc) => Some(unpack_color(tc)),
            None => None,
        }
    }

    /// The color scheme of the bitmap.
    pub fn scheme(&self) -> (r: ColorScheme)
        ensures
            r == scheme_of(self.color_scheme@),
    {
        ColorScheme::from_name(self.color_scheme.as_str())
    }

    /// The bitmap holds every pixel of the image.
    pub open spec fn bitmap_ok(&self) -> bool {
        self.bitmap@.len() >= bitmap_needed(scheme_of(self.color_scheme@), self.width, self.height)
    }

    /// The pixels of the graphic as the renderer gives them.
    pub open spec fn pixels(&self) -> Seq<Rgba> {
        graphic_rgba(
            self.height,
            self.width,
            self.color_scheme@,
            unpacked(self.transparent_color),
            self.bitmap@,
        )
    }

    /// The indices and the palette of the graphic, where the image needs
    /// no more entries than a palette may hold.
    pub open spec fn quantization(&self) -> (Seq<u8>, Seq<Rgb>) {
        quantized(
            self.pixels(),
            seed_colors(unpacked(self.transparent_color)),
            PALETTE_CAPACITY as nat,
        )
    }

    /// File name of the graphic: `g`, its number and `.gif`.
    pub fn file_name(&self) -> (r: String)
        ensures
            r@ == gif_name(self.number),
    {
        let mut name = String::from_str("g");
        push_decimal(&mut name, self.number as u32);
        name.append(".gif");
        name
    }

    /// The palette that the indexing of the graphic starts from.
    pub open spec fn seed(&self) -> Seq<Rgb> {
        seed_colors(unpacked(self.transparent_color))
    }

    /// The image has so few pixels that its palette cannot grow beyond
    /// `entries` entries.
    pub open spec fn fits(&self, entries: int) -> bool {
        self.seed().len() + self.width * self.height <= entries
    }

    /// `indices` and `colors` are the indexed image of the graphic: one
    /// index for each pixel, each of which names an entry of the palette;
    /// a palette of at most 256 entries, that has grown from the seed by
    /// at most one entry for each pixel, and so has the transparent color,
    /// where one is declared, as entry 0; both as the quantization gives
    /// them.
    pub open spec fn indexed_as(&self, indices: Seq<u8>, colors: Seq<Rgb>) -> bool {
        &&& indices.len() == self.width * self.height
        &&& colors.len() <= PALETTE_CAPACITY
        &&& colors.len() <= self.seed().len() + self.width * self.height
        &&& indices_within(indices, colors.len())
        &&& unpacked(self.transparent_color) matches Some(clr) ==> colors.len() > 0 && colors[0]
            == clr
        &&& (indices, colors) == self.quantization()
    }

    /// `r` is what making the indexed image of the graphic may give: the
    /// indexed image; the refusal of a bitmap, which comes for a bitmap
    /// that is too short and for no other; or the full palette, which
    /// comes only for an image with so many pixels that its palette may
    /// grow beyond 256 entries.
    pub open spec fn indexed(&self, r: Result<Indexed, GraphicFault>) -> bool {
        match r {
            Ok(ix) => self.bitmap_ok() && self.indexed_as(ix.indices@, palette_colors(ix.palette)),
            Err(GraphicFault::InvalidBitmap) => !self.bitmap_ok(),
            Err(GraphicFault::PaletteFull) => self.bitmap_ok() && !self.fits(
                PALETTE_CAPACITY as int,
            ),
            Err(_) => false,
        }
    }

    /// `r` is what writing the graphic may give. The file: named after
    /// the graphic, holding the encoding of its indexed image, no index
    /// of which is 255, with index 0 flagged transparent where a color is
    /// declared. The refusal of a bitmap, for a bitmap that is too short
    /// and for no other. The full palette, only for an image with so many
    /// pixels that its palette may grow beyond 256 entries. The refusal
    /// of an index, for an indexed image that uses index 255 and for no
    /// other. The encoder's failure never comes.
    pub open spec fn written(&self, r: Result<GraphicFile, GraphicFault>) -> bool {
        match r {
            Ok(file) => {
                &&& self.bitmap_ok()
                &&& self.indexed_as(self.quantization().0, self.quantization().1)
                &&& encodable(self.quantization().0)
                &&& file.name@ == gif_name(self.number)
                &&& file.bytes@ == gif_bytes(
                    self.width,
                    self.height,
                    self.quantization().0,
                    self.quantization().1,
                    transparent_index(unpacked(self.transparent_color)),
                )
            },
            Err(GraphicFault::InvalidBitmap) => !self.bitmap_ok(),
            Err(GraphicFault::PaletteFull) => self.bitmap_ok() && !self.fits(
                PALETTE_CAPACITY as int,
            ),
            Err(GraphicFault::IndexTooLarge) => {
                &&& self.bitmap_ok()
                &&& self.indexed_as(self.quantization().0, self.quantization().1)
                &&& !encodable(self.quantization().0)
            },
            Err(GraphicFault::Encode) => false,
        }
    }

    /// Make the indexed image of the graphic. A transparent color is
    /// entered into the palette before anything else and so has index 0;
    /// the other colors are entered as the pixels need them, each matched
    /// to an entry within the threshold where there is one. An image whose
    /// bitmap is long enough, and which has no more than 256 pixels with
    /// the transparent color counted as one, always has an indexed image.
    pub fn make_indexed(&self) -> (r: Result<Indexed, GraphicFault>)
        ensures
            self.indexed(r),
            self.bitmap_ok() && self.fits(PALETTE_CAPACITY as int) ==> r is Ok,
    {
        let transparent = self.transparent_rgb();
        if self.bitmap.len() < self.scheme().bitmap_len(self.width, self.height) {
            return Err(GraphicFault::InvalidBitmap);
        }
        let pixels = to_rgba(self, transparent);
        let mut palette = palette_new(PALETTE_CAPACITY);
        if let Some(clr) = transparent {
            palette_set_entry(&mut palette, clr);
        }
        assert(palette_colors(palette) =~= seed_colors(transparent));
        palette_set_threshold(&mut palette);
        let indices = palette_make_indexed(&mut palette, self.width, self.height, &pixels);
        proof {
            if transparent is Some {
                let seed = seed_colors(transparent);
                assert(palette_colors(palette).subrange(0, 1)[0] == seed[0]);
            }
        }
        indexed_or_full(indices, palette)
    }

    /// The file of an indexed image of the graphic: its encoding, under
    /// the graphic's name, with index 0 flagged transparent where a color
    /// is declared. An image that uses index 255 cannot be encoded, and
    /// is the only one that is refused.
    pub fn indexed_file(&self, indexed: Indexed) -> (r: Result<GraphicFile, GraphicFault>)
        requires
            indexed.indices@.len() == self.width * self.height,
        ensures
            r is Ok <==> encodable(indexed.indices@),
            r matches Err(fault) ==> fault == GraphicFault::IndexTooLarge,
            r matches Ok(file) ==> file.name@ == gif_name(self.number) && file.bytes@ == gif_bytes(
                self.width,
                self.height,
                indexed.indices@,
                palette_colors(indexed.palette),
                transparent_index(unpacked(self.transparent_color)),
            ),
    {
        if !indices_encodable(&indexed.indices) {
            return Err(GraphicFault::IndexTooLarge);
        }
        let transparent = transparent_entry(self.transparent_rgb());
        let encoded = gif_encode(
            self.width,
            self.height,
            &indexed.indices,
            indexed.palette,
            transparent,
        );
        graphic_file(self.file_name(), encoded)
    }
}

/// The indexed image of indices and a palette that came back from the
/// indexing: a palette of more than 256 entries is refused as full, and
/// no other.
pub fn indexed_or_full(indices: Vec<u8>, palette: Palette) -> (r: Result<Indexed, GraphicFault>)
    ensures
        r is Ok <==> palette_colors(palette).len() <= PALETTE_CAPACITY,
        r matches Err(fault) ==> fault == GraphicFault::PaletteFull,
        r matches Ok(ix) ==> ix.indices == indices && ix.palette == palette,
{
    if palette_len(&palette) > PALETTE_CAPACITY {
        return Err(GraphicFault::PaletteFull);
    }
    Ok(Indexed { indices, palette })
}

/// Whether every index can be encoded.
pub fn indices_encodable(indices: &Vec<u8>) -> (r: bool)
    ensures
        r == encodable(indices@),
{
    let mut i: usize = 0;
    while i < indices.len()
        invariant
            i <= indices@.len(),
            forall|j: int| 0 <= j < i ==> indices@[j] < INDEX_LIMIT,
        decreases indices@.len() - i,
    {
        if indices[i] >= INDEX_LIMIT {
            return false;
        }
        i += 1;
    }
    true
}

/// The index to flag as transparent: always palette index 0, where a
/// transparent color is declared.
pub fn transparent_entry(transparent: Option<Rgb>) -> (r: Option<u8>)
    ensures
        r == transparent_index(transparent),
{
    match transparent {
        Some(_) => Some(0),
        None => None,
    }
}

/// What encoding a graphic gives, for what the encoder handed back:
/// the file under the graphic's name, or the encoder's failure.
pub fn graphic_file(name: String, encoded: Result<Vec<u8>, gift::Error>) -> (r: Result<
    GraphicFile,
    GraphicFault,
>)
    ensures
        match encoded {
            Ok(bytes) => r == Ok::<GraphicFile, GraphicFault>(GraphicFile { name, bytes }),
            Err(_) => r == Err::<GraphicFile, GraphicFault>(GraphicFault::Encode),
        },
{
    match encoded {
        Ok(bytes) => Ok(GraphicFile { name, bytes }),
        Err(_) => Err(GraphicFault::Encode),
    }
}

/// Write a graphic image to a file: the GIF file of the graphic, with
/// palette index 0 flagged transparent where a transparent color is
/// declared. An image whose bitmap is long enough, and which has fewer
/// than 256 pixels with the transparent color counted as one, is always
/// written.
pub fn write_graphic(graphic: &GraphicRes) -> (r: Result<GraphicFile, GraphicFault>)
    ensures
        graphic.written(r),
        graphic.bitmap_ok() && graphic.fits(INDEX_LIMIT as int) ==> r is Ok,
{
    match graphic.make_indexed() {
        Ok(indexed) => graphic.indexed_file(indexed),
        Err(fault) => Err(fault),
    }
}

/// The files of the graphics before the first that cannot be written, in
/// order.
pub open spec fn graphic_files_match(files: Seq<GraphicFile>, graphics: Seq<GraphicRes>) -> bool {
    &&& files.len() <= graphics.len()
    &&& forall|i: int|
        0 <= i < files.len() ==> (#[trigger] graphics[i]).written(
            Ok::<GraphicFile, GraphicFault>(files[i]),
        )
}

/// Fetch graphics resource: one file for each graphic row, in order, up
/// to the first graphic that cannot be written. The files before it are
/// still to be published; its fault comes back with them.
pub fn fetch_graphics(graphics: &Vec<GraphicRes>) -> (r: (Vec<GraphicFile>, Option<GraphicFault>))
    ensures
        graphic_files_match(r.0@, graphics@),
        r.1 is None ==> r.0@.len() == graphics@.len(),
        r.1 matches Some(fault) ==> r.0@.len() < graphics@.len() && graphics@[r.0@.len()
            as int].written(Err::<GraphicFile, GraphicFault>(fault)),
{
    let mut files: Vec<GraphicFile> = Vec::new();
    let mut i: usize = 0;
    while i < graphics.len()
        invariant
            i <= graphics@.len(),
            files@.len() == i,
            graphic_files_match(files@, graphics@),
        decreases graphics@.len() - i,
    {
        let ghost before = files@;
        match write_graphic(&graphics[i]) {
            Ok(file) => {
                files.push(file);
                assert forall|j: int| 0 <= j < files@.len() implies (
                #[trigger] graphics@[j]).written(Ok::<GraphicFile, GraphicFault>(files@[j])) by {
                    if j < before.len() {
                        assert(files@[j] == before[j]);
                    } else {
                        assert(files@[j] == file);
                    }
                }
            },
            Err(fault) => {
                return (files, Some(fault));
            },
        }
        i += 1;
    }
    (files, None)
}

/// Where a transparent color is declared, it is entry 0 of the palette of
/// every graphic that is written, whether or not a pixel has it, and
/// index 0 is the one flagged transparent; the palette has at most 256
/// entries, and every index of the image names one of them.
pub proof fn law_written_palette(graphic: &GraphicRes, file: GraphicFile)
    requires
        graphic.written(Ok::<GraphicFile, GraphicFault>(file)),
    ensures
        graphic.quantization().1.len() <= 256,
        indices_within(graphic.quantization().0, graphic.quantization().1.len()),
        graphic.transparent_color matches Some(tc) ==> {
            &&& graphic.quantization().1.len() > 0
            &&& graphic.quantization().1[0] == (packed_red(tc), packed_green(tc), packed_blue(tc))
            &&& transparent_index(unpacked(graphic.transparent_color)) == Some(0u8)
        },
        graphic.transparent_color is None ==> transparent_index(
            unpacked(graphic.transparent_color),
        ) is None,
{
}

/// A color of 24 bits is its red component times 65536, its green
/// component times 256, and its blue component.
pub proof fn law_unpacked_components(tc: i32)
    requires
        0 <= tc < 0x100_0000,
    ensures
        tc == packed_red(tc) * 0x1_0000 + packed_green(tc) * 0x100 + packed_blue(tc),
{
    let bits = tc as u32;
    assert(bits == ((bits >> 16) & 0xff) * 0x1_0000 + ((bits >> 8) & 0xff) * 0x100 + (bits
        & 0xff)) by (bit_vector)
        requires
            bits < 0x100_0000,
    ;
    assert(((bits >> 16) & 0xff) < 256 && ((bits >> 8) & 0xff) < 256 && (bits & 0xff) < 256)
        by (bit_vector);
}

/// No threshold is wider than 3 bits in red and green and 4 bits in blue.
pub proof fn law_threshold_bounds(v: usize)
    ensures
        threshold_of(v).0 < 8,
        threshold_of(v).1 < 8,
        threshold_of(v).2 < 16,
{
    let val = (v & 0xFF) as u8;
    assert(val >> 5u8 < 8 && val >> 4u8 < 16) by (bit_vector);
}

} // verus!

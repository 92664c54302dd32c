//! The pictures of the toolbar: its icons, and the sheet of the pet.

use vstd::prelude::*;

verus! {

/// A picture: four bytes a point, red, green, blue and how opaque it is, the colours weighted by
/// that; row by row from the top.
#[derive(Debug)]
pub struct Image {
    pub width: u32,
    pub height: u32,
    pub data: Vec<u8>,
}

/// What a picture holds: width, height and points.
pub open spec fn picture(i: Option<Image>) -> Option<(u32, u32, Seq<u8>)> {
    match i {
        Some(p) => Some((p.width, p.height, p.data@)),
        None => None,
    }
}

impl Image {
    /// A picture has points, and four bytes for each.
    pub open spec fn wf(self) -> bool {
        &&& self.width > 0
        &&& self.height > 0
        &&& self.data@.len() == 4 * self.width * self.height
    }
}

/// The picture that a PNG file holds: its width, height and points; none where the file cannot
/// be read as one.
pub uninterp spec fn png_of(bytes: Seq<u8>) -> Option<(u32, u32, Seq<u8>)>;

/// `tiny_skia::Pixmap::decode_png`: the picture that a PNG file holds. A picture has at least one
/// point, and four bytes for each.
#[verifier::external_body]
fn decode_png(bytes: &[u8]) -> (r: Option<Image>)
    ensures
        picture(r) == png_of(bytes@),
        r matches Some(i) ==> i.wf(),
{
    match tiny_skia::Pixmap::decode_png(bytes) {
        Ok(p) => Some(Image { width: p.width(), height: p.height(), data: p.data().to_vec() }),
        Err(_) => None,
    }
}

/// Reads an icon; one that cannot be read is left out.
pub fn decode(bytes: &[u8]) -> (r: Option<Image>)
    ensures
        picture(r) == png_of(bytes@),
        r matches Some(i) ==> i.wf(),
{
    decode_png(bytes)
}

/// The files of the icons.
#[derive(Debug)]
pub struct IconFiles {
    pub logo: Vec<u8>,
    pub lang_cn: Vec<u8>,
    pub lang_en: Vec<u8>,
    pub width_half: Vec<u8>,
    pub width_full: Vec<u8>,
    pub punct_cn: Vec<u8>,
    pub punct_en: Vec<u8>,
    pub script_simplified: Vec<u8>,
    pub script_traditional: Vec<u8>,
    pub gear: Vec<u8>,
}

/// The icons; one that could not be read is missing, and its button stays empty.
#[derive(Debug)]
pub struct ToolbarIcons {
    pub logo: Option<Image>,
    pub lang_cn: Option<Image>,
    pub lang_en: Option<Image>,
    pub width_half: Option<Image>,
    pub width_full: Option<Image>,
    pub punct_cn: Option<Image>,
    pub punct_en: Option<Image>,
    pub script_simplified: Option<Image>,
    pub script_traditional: Option<Image>,
    pub gear: Option<Image>,
}

/// Reads the icons, each from its own file: one that cannot be read does not touch the others.
pub fn load_icons(files: &IconFiles) -> (r: ToolbarIcons)
    ensures
        picture(r.logo) == png_of(files.logo@),
        picture(r.lang_cn) == png_of(files.lang_cn@),
        picture(r.lang_en) == png_of(files.lang_en@),
        picture(r.width_half) == png_of(files.width_half@),
        picture(r.width_full) == png_of(files.width_full@),
        picture(r.punct_cn) == png_of(files.punct_cn@),
        picture(r.punct_en) == png_of(files.punct_en@),
        picture(r.script_simplified) == png_of(files.script_simplified@),
        picture(r.script_traditional) == png_of(files.script_traditional@),
        picture(r.gear) == png_of(files.gear@),
{
    ToolbarIcons {
        logo: decode(files.logo.as_slice()),
        lang_cn: decode(files.lang_cn.as_slice()),
        lang_en: decode(files.lang_en.as_slice()),
        width_half: decode(files.width_half.as_slice()),
        width_full: decode(files.width_full.as_slice()),
        punct_cn: decode(files.punct_cn.as_slice()),
        punct_en: decode(files.punct_en.as_slice()),
        script_simplified: decode(files.script_simplified.as_slice()),
        script_traditional: decode(files.script_traditional.as_slice()),
        gear: decode(files.gear.as_slice()),
    }
}

/// How a sheet is divided into frames: row by row, all of one size.
#[derive(Clone, Copy, Debug, PartialEq, Eq, Structural)]
pub struct PetSheetLayout {
    pub frame_w: u32,
    pub frame_h: u32,
    pub rows: u32,
    pub cols: u32,
}

impl PetSheetLayout {
    /// How many frames there are.
    pub fn total(&self) -> (r: u32)
        requires
            self.rows * self.cols <= u32::MAX,
        ensures
            r == self.rows * self.cols,
    {
        self.rows * self.cols
    }
}

/// How many frames a row of the pet's sheet has.
pub const DEFAULT_COLS: u32 = 6;

/// How many rows the pet's sheet has.
pub const DEFAULT_ROWS: u32 = 5;

/// The sheet of the pet.
pub fn default_layout() -> (r: PetSheetLayout)
    ensures
        r == (PetSheetLayout { frame_w: 16, frame_h: 16, rows: DEFAULT_ROWS, cols: DEFAULT_COLS }),
{
    PetSheetLayout { frame_w: 16, frame_h: 16, rows: DEFAULT_ROWS, cols: DEFAULT_COLS }
}

/// What the pet does.
#[derive(Clone, Copy, Debug, PartialEq, Eq, Structural)]
pub enum PetClip {
    Idle,
    Typing,
    React,
    ModeCn,
    ModeEn,
    Width,
    Script,
    Punct,
}

/// The frames of the pet, and which of them belong to what it does.
#[derive(Debug)]
pub struct PetSprites {
    pub frames: Vec<Image>,
    /// How many frames a row of the sheet has; 0 without a sheet.
    pub cols: usize,
}

/// The frames that belong to what the pet does, from the first to behind the last: the first row
/// for standing, the second for typing, and the beginning of the fourth for everything that
/// flashes.
pub open spec fn clip_range(cols: int, clip: PetClip) -> (int, int) {
    match clip {
        PetClip::Idle | PetClip::ModeCn | PetClip::ModeEn => (0, cols),
        PetClip::Typing => (cols, 2 * cols),
        _ => (
            3 * cols,
            3 * cols + if cols < 2 {
                cols
            } else {
                2
            },
        ),
    }
}

impl PetSprites {
    /// The rows of a sheet are short enough to count their frames.
    pub open spec fn wf(self) -> bool {
        self.cols <= u32::MAX / 4
    }

    /// Whether there are no frames.
    pub fn is_empty(&self) -> (r: bool)
        ensures
            r == (self.frames@.len() == 0),
    {
        self.frames.len() == 0
    }

    /// The frames that belong to what the pet does.
    pub fn clip(&self, clip: PetClip) -> (r: (usize, usize))
        requires
            self.wf(),
        ensures
            (r.0 as int, r.1 as int) == clip_range(self.cols as int, clip),
    {
        let cols: usize = self.cols;
        match clip {
            PetClip::Idle | PetClip::ModeCn | PetClip::ModeEn => (0, cols),
            PetClip::Typing => (cols, 2 * cols),
            _ => {
                let n: usize = if cols < 2 {
                    cols
                } else {
                    2
                };
                (3 * cols, 3 * cols + n)
            },
        }
    }

    /// How many frames belong to what the pet does.
    pub fn clip_len(&self, clip: PetClip) -> (r: usize)
        requires
            self.wf(),
        ensures
            r == clip_range(self.cols as int, clip).1 - clip_range(self.cols as int, clip).0,
    {
        let (from, to) = self.clip(clip);
        to - from
    }
}

/// No frames: the place of the pet stays empty.
pub fn empty_sprites() -> (r: PetSprites)
    ensures
        r.wf(),
        r.frames@.len() == 0,
        r.cols == 0,
{
    PetSprites { frames: Vec::new(), cols: 0 }
}

/// The pet, from the frames that its sheet was divided into. There are none where the sheet could
/// not be read, or not be divided; then there is no pet.
pub fn load_default_sprites(frames: Option<Vec<Image>>) -> (r: PetSprites)
    ensures
        r.wf(),
        match frames {
            Some(f) => if f@.len() == 0 {
                r.frames@.len() == 0 && r.cols == 0
            } else {
                r.frames == f && r.cols == DEFAULT_COLS
            },
            None => r.frames@.len() == 0 && r.cols == 0,
        },
{
    match frames {
        Some(f) => {
            if f.len() == 0 {
                return empty_sprites();
            }
            PetSprites { frames: f, cols: DEFAULT_COLS as usize }
        },
        None => empty_sprites(),
    }
}

/// All that the pet does has frames on its sheet, and what flashes has at most two.
pub proof fn law_clips_on_sheet(clip: PetClip)
    ensures
        ({
            let cols = DEFAULT_COLS as int;
            let r = clip_range(cols, clip);
            &&& 0 <= r.0 < r.1 <= DEFAULT_ROWS * cols
            &&& clip == PetClip::React || clip == PetClip::Width || clip == PetClip::Script || clip
                == PetClip::Punct ==> r.1 - r.0 <= 2
        }),
{
}

/// The pet at rest takes the first row of the sheet, at typing the second, and at every change the
/// first frames of the fourth, two at most: no clip leaves its row.
pub proof fn law_clips_in_rows(cols: int, clip: PetClip)
    requires
        cols >= 1,
    ensures
        ({
            let (first, end) = clip_range(cols, clip);
            let row: int = match clip {
                PetClip::Idle | PetClip::ModeCn | PetClip::ModeEn => 0,
                PetClip::Typing => 1,
                PetClip::React | PetClip::Width | PetClip::Script | PetClip::Punct => 3,
            };
            &&& first == row * cols
            &&& first < end <= (row + 1) * cols
            &&& row < 2 ==> end == (row + 1) * cols
            &&& row == 3 && cols >= 2 ==> end == first + 2
        }),
{
    match clip {
        PetClip::Idle | PetClip::ModeCn | PetClip::ModeEn => {},
        PetClip::Typing => {},
        PetClip::React | PetClip::Width | PetClip::Script | PetClip::Punct => {},
    }
}

} // verus!

//! The glyph rasterizer adapter: what the rasterizer is asked for, and what
//! becomes of the array it hands back.

use crate::resource::Resource;
use vstd::prelude::*;

verus! {

/// Number of glyphs rasterized when no codepoint set is requested: the
/// printable ASCII range.
pub const DEFAULT_GLYPH_COUNT: usize = 95;

/// Border, in pixels, that the rasterizer leaves around each distance field.
pub const SDF_PADDING: i32 = 2;

/// One rasterized glyph: its codepoint, its metrics and the size of its
/// bitmap. The pixels stay with the backend.
#[derive(Debug, Clone, Copy, PartialEq, Eq)]
pub struct GlyphInfo {
    pub value: i32,
    pub offset_x: i32,
    pub offset_y: i32,
    pub advance_x: i32,
    pub width: i32,
    pub height: i32,
}

/// The codepoints of a text: the scalar value of each character, in order.
pub open spec fn codepoints_of(text: Seq<char>) -> Seq<i32> {
    Seq::new(text.len(), |i: int| text[i] as i32)
}

/// Every character is a scalar value of at most 21 bits, so it loses nothing
/// as a 32-bit signed integer.
pub proof fn lemma_scalar_fits(c: char)
    ensures
        0 <= c as i32 <= 0x10FFFF,
        c as i32 == c as u32,
{
}

/// An owned buffer of codepoints.
#[derive(Debug, PartialEq, Eq)]
pub struct CodePoints(pub Vec<i32>);

impl View for CodePoints {
    type V = Seq<i32>;

    open spec fn view(&self) -> Seq<i32> {
        self.0@
    }
}

/// Converts a text into its codepoints.
pub fn load_codepoints(text: &str) -> (points: CodePoints)
    ensures
        points@ == codepoints_of(text@),
{
    let mut points: Vec<i32> = Vec::new();
    for c in it: text.chars()
        invariant
            it.seq() == text@,
            points@ == codepoints_of(text@.take(it.index() as int)),
    {
        proof {
            lemma_scalar_fits(c);
        }
        points.push(c as u32 as i32);
        assert(points@ =~= codepoints_of(text@.take(it.index() + 1)));
    }
    assert(text@.take(text@.len() as int) =~= text@);
    CodePoints(points)
}

/// The arguments of one call of the rasterizer.
#[derive(Debug, PartialEq, Eq)]
pub struct GlyphRequest {
    /// Length of the font file in bytes.
    pub data_size: i32,
    /// Pixel height that the glyphs are rasterized at.
    pub font_size: i32,
    /// The codepoints to rasterize; `None` asks for the default set.
    pub codepoints: Option<CodePoints>,
    /// The count handed over beside `codepoints`: their number, or 0 with
    /// `None`.
    pub codepoint_count: i32,
    /// Border around each distance field.
    pub padding: i32,
}

impl GlyphRequest {
    /// How many glyph records the rasterizer is to hand back.
    pub open spec fn spec_glyph_count(&self) -> nat {
        match self.codepoints {
            Some(points) => points@.len(),
            None => DEFAULT_GLYPH_COUNT as nat,
        }
    }

    /// The request for the default glyph set.
    pub fn default_set(data_size: i32, font_size: i32, padding: i32) -> (request: GlyphRequest)
        ensures
            request == default_request(data_size, font_size, padding),
    {
        GlyphRequest { data_size, font_size, codepoints: None, codepoint_count: 0, padding }
    }

    /// How many glyph records the rasterizer is to hand back.
    pub fn glyph_count(&self) -> (count: usize)
        ensures
            count == self.spec_glyph_count(),
    {
        match &self.codepoints {
            Some(points) => points.0.len(),
            None => DEFAULT_GLYPH_COUNT,
        }
    }
}

/// The request for the default glyph set.
pub open spec fn default_request(data_size: i32, font_size: i32, padding: i32) -> GlyphRequest {
    GlyphRequest { data_size, font_size, codepoints: None, codepoint_count: 0, padding }
}

/// The codepoints that a request for `chars` carries.
pub open spec fn requested_points(chars: Option<Seq<char>>) -> Option<Seq<i32>> {
    match chars {
        Some(text) => Some(codepoints_of(text)),
        None => None,
    }
}

/// The rasterizer takes its lengths as 32-bit signed integers: a font file
/// or a codepoint set beyond that cannot be put to it.
pub open spec fn expressible(data_len: nat, chars: Option<Seq<char>>) -> bool {
    &&& data_len <= i32::MAX
    &&& chars is Some ==> chars->0.len() <= i32::MAX
}

/// `request` asks for `chars` out of a font file of `data_len` bytes.
pub open spec fn describes(
    request: GlyphRequest,
    data_len: nat,
    font_size: i32,
    chars: Option<Seq<char>>,
    padding: i32,
) -> bool {
    &&& request.data_size == data_len
    &&& request.font_size == font_size
    &&& request.padding == padding
    &&& match request.codepoints {
        Some(points) => Some(points@),
        None => None,
    } == requested_points(chars)
    &&& request.codepoint_count == match chars {
        Some(text) => text.len(),
        None => 0,
    }
}

/// Prepares the call of the rasterizer for the font file `data`.
///
/// With `chars` the glyphs of that text are asked for, one per codepoint;
/// without, the default set. There is no request where a length does not fit
/// the rasterizer's integers.
pub fn sdf_request(data: &[u8], font_size: i32, chars: Option<&str>, padding: i32) -> (res: Option<
    GlyphRequest,
>)
    ensures
        res is Some <==> expressible(
            data@.len(),
            match chars {
                Some(text) => Some(text@),
                None => None,
            },
        ),
        res is Some ==> describes(
            res->0,
            data@.len(),
            font_size,
            match chars {
                Some(text) => Some(text@),
                None => None,
            },
            padding,
        ),
        res is Some && chars is None ==> res->0 == default_request(
            data@.len() as i32,
            font_size,
            padding,
        ),
{
    if data.len() > i32::MAX as usize {
        return None;
    }
    let data_size: i32 = data.len() as i32;
    match chars {
        Some(text) => {
            let points = load_codepoints(text);
            if points.0.len() > i32::MAX as usize {
                return None;
            }
            let codepoint_count: i32 = points.0.len() as i32;
            Some(
                GlyphRequest {
                    data_size,
                    font_size,
                    codepoints: Some(points),
                    codepoint_count,
                    padding,
                },
            )
        },
        None => Some(GlyphRequest::default_set(data_size, font_size, padding)),
    }
}

/// What the rasterizer handed back: the array, under the handle by which the
/// caller finds it again, and the records read out of it.
#[derive(Debug, PartialEq, Eq)]
pub struct RawGlyphs {
    pub handle: u64,
    pub glyphs: Vec<GlyphInfo>,
}

impl RawGlyphs {
    /// The backend allocation behind the records.
    pub open spec fn resource(self) -> Resource {
        Resource::GlyphData { handle: self.handle, count: self.glyphs.len() }
    }
}

/// A glyph array that has been taken over: whoever holds it owes the
/// backend one unload of it.
#[derive(Debug, PartialEq, Eq)]
pub struct SliceGlyphInfo {
    pub handle: u64,
    pub glyphs: Vec<GlyphInfo>,
}

impl View for SliceGlyphInfo {
    type V = Seq<GlyphInfo>;

    open spec fn view(&self) -> Seq<GlyphInfo> {
        self.glyphs@
    }
}

impl SliceGlyphInfo {
    /// The backend allocation that is held.
    pub open spec fn resource(self) -> Resource {
        Resource::GlyphData { handle: self.handle, count: self.glyphs.len() }
    }

    /// Gives the array up. The result is the unload that is now due, with
    /// the element count of the array.
    pub fn release(self) -> (unload: Resource)
        ensures
            unload == self.resource(),
    {
        Resource::GlyphData { handle: self.handle, count: self.glyphs.len() }
    }

    /// Gives the array up and keeps the records: the result is the records
    /// and the unload that is now due.
    pub fn into_vec(self) -> (res: (Vec<GlyphInfo>, Resource))
        ensures
            res.0 == self.glyphs,
            res.1 == self.resource(),
    {
        let unload = Resource::GlyphData { handle: self.handle, count: self.glyphs.len() };
        (self.glyphs, unload)
    }
}

/// Why a call of the rasterizer yields no glyph array.
#[derive(Debug, Clone, Copy, PartialEq, Eq)]
pub enum GlyphFailure {
    /// The rasterizer reported failure and handed nothing back.
    Absent,
    /// The array does not hold one record per requested glyph. It is not
    /// taken over, and the unload named here is due at once.
    Partial(Resource),
}

/// What becomes of the rasterizer's answer to `request`.
pub open spec fn spec_load_sdf_data(request: GlyphRequest, produced: Option<RawGlyphs>) -> Result<
    SliceGlyphInfo,
    GlyphFailure,
> {
    match produced {
        None => Err(GlyphFailure::Absent),
        Some(raw) => if raw.glyphs@.len() == request.spec_glyph_count() {
            Ok(SliceGlyphInfo { handle: raw.handle, glyphs: raw.glyphs })
        } else {
            Err(GlyphFailure::Partial(raw.resource()))
        },
    }
}

/// Takes over the glyph array that the rasterizer produced for `request`.
///
/// An array is taken over whole or not at all: it must hold exactly the
/// requested number of records.
pub fn load_sdf_data(request: &GlyphRequest, produced: Option<RawGlyphs>) -> (res: Result<
    SliceGlyphInfo,
    GlyphFailure,
>)
    ensures
        res == spec_load_sdf_data(*request, produced),
        res is Ok <==> produced is Some && produced->0.glyphs@.len()
            == request.spec_glyph_count(),
        res is Ok ==> res->Ok_0@.len() == request.spec_glyph_count() && res->Ok_0@
            == produced->0.glyphs@,
        produced is None ==> res == Err::<SliceGlyphInfo, GlyphFailure>(GlyphFailure::Absent),
{
    match produced {
        None => Err(GlyphFailure::Absent),
        Some(raw) => {
            if raw.glyphs.len() == request.glyph_count() {
                Ok(SliceGlyphInfo { handle: raw.handle, glyphs: raw.glyphs })
            } else {
                Err(
                    GlyphFailure::Partial(
                        Resource::GlyphData { handle: raw.handle, count: raw.glyphs.len() },
                    ),
                )
            }
        },
    }
}

/// A glyph array is taken over exactly where the rasterizer produced one
/// glyph for each character that was asked for, or the 95 default glyphs
/// where no text was named; the array taken over holds that many records,
/// a number that fits the integers of the backend. Where the rasterizer
/// reported failure there is no array.
pub proof fn lemma_one_glyph_per_codepoint(
    request: GlyphRequest,
    data_len: nat,
    font_size: i32,
    chars: Option<Seq<char>>,
    padding: i32,
    produced: Option<RawGlyphs>,
)
    requires
        describes(request, data_len, font_size, chars, padding),
    ensures
        request.spec_glyph_count() == match chars {
            Some(text) => text.len(),
            None => 95,
        },
        expressible(data_len, chars) ==> request.spec_glyph_count() <= i32::MAX,
        spec_load_sdf_data(request, produced) is Ok <==> produced is Some
            && produced->0.glyphs@.len() == request.spec_glyph_count(),
        spec_load_sdf_data(request, produced) is Ok ==> spec_load_sdf_data(
            request,
            produced,
        )->Ok_0@.len() == request.spec_glyph_count(),
        produced is None ==> spec_load_sdf_data(request, produced) == Err::<
            SliceGlyphInfo,
            GlyphFailure,
        >(GlyphFailure::Absent),
{
}

} // verus!

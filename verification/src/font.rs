//! Loading a font for signed-distance-field text, one backend answer at a
//! time.
//!
//! The load runs through four backend steps: the font file is read, its
//! glyphs are rasterized, the glyphs are packed into an atlas texture, and
//! the shader is compiled. [`load_sdf_font`] takes the stage reached so far
//! and the backend's latest answer, and says which stage follows, what the
//! backend is asked next, and which allocations are to be released.

use crate::glyph::{default_request, load_sdf_data, sdf_request, spec_load_sdf_data};
use crate::glyph::{GlyphFailure, GlyphRequest, RawGlyphs, SliceGlyphInfo};
use crate::glyph::{DEFAULT_GLYPH_COUNT, SDF_PADDING};
use crate::resource::{as_seq, hand_back, Resource};
use vstd::prelude::*;

verus! {

/// Pixel height of the glyphs in the atlas.
pub const SDF_BASE_SIZE: i32 = 16;

/// The packing method asked of the atlas builder: one glyph after another.
pub const ATLAS_PACK_METHOD: i32 = 0;

/// Where the fragment shader that smooths the glyph edges is read from.
pub const SDF_SHADER_PATH: &'static str = "data/shaders/sdf.fs";

/// A texture in video memory. The backend names a texture that it could not
/// create by the id 0.
#[derive(Debug, Clone, Copy, PartialEq, Eq)]
pub struct Texture {
    pub id: u32,
    pub width: i32,
    pub height: i32,
}

/// Where a glyph lies in the atlas.
#[derive(Debug, Clone, Copy, PartialEq, Eq)]
pub struct Rectangle {
    pub x: i32,
    pub y: i32,
    pub width: i32,
    pub height: i32,
}

/// What the atlas builder hands back: the texture that holds the glyph
/// bitmaps, and the place that it gave to each glyph.
#[derive(Debug, PartialEq, Eq)]
pub struct Atlas {
    pub texture: Texture,
    pub rectangles: Vec<Rectangle>,
}

/// A compiled shader program. The id 0 names none.
#[derive(Debug, Clone, Copy, PartialEq, Eq)]
pub struct Shader {
    pub id: u32,
}

/// How a texture is sampled when it is drawn at another scale.
#[derive(Debug, Clone, Copy, PartialEq, Eq)]
pub enum TextureFilter {
    Point,
    Bilinear,
}

/// A font ready for drawing: its glyph records, the atlas texture that holds
/// their bitmaps, and the place of each glyph in the atlas.
#[derive(Debug, PartialEq, Eq)]
pub struct Font {
    pub base_size: i32,
    pub glyph_padding: i32,
    pub texture: Texture,
    pub rectangles: Vec<Rectangle>,
    pub glyphs: SliceGlyphInfo,
}

impl Font {
    /// The backend made the atlas texture and placed every glyph in it.
    pub open spec fn loaded(self) -> bool {
        self.texture.id != 0 && self.rectangles@.len() == self.glyphs@.len()
    }

    /// What the font holds of the backend, oldest first.
    pub open spec fn resources(self) -> Seq<Resource> {
        seq![self.glyphs.resource(), Resource::Texture { id: self.texture.id }]
    }

    /// Number of glyphs in the font.
    pub fn glyph_count(&self) -> (count: usize)
        ensures
            count == self.glyphs@.len(),
    {
        self.glyphs.glyphs.len()
    }
}

/// A font together with the shader that draws it.
#[derive(Debug, PartialEq, Eq)]
pub struct Text(pub Font, pub Shader);

impl Text {
    /// Both the font and the shader were loaded.
    pub open spec fn wf(self) -> bool {
        self.0.loaded() && self.1.id != 0
    }

    /// What the bundle holds of the backend, oldest first.
    pub open spec fn resources(self) -> Seq<Resource> {
        self.0.resources().push(Resource::Shader { id: self.1.id })
    }
}

/// Why no text bundle came about.
#[derive(Debug, Clone, Copy, PartialEq, Eq)]
pub enum LoadError {
    /// The font file is missing, or no atlas could be made of its glyphs.
    FontLoadFailure,
    /// The rasterizer produced no glyph array, or not all of it.
    GlyphGenerationFailure,
    /// The shader did not load.
    ShaderLoadFailure,
}

impl LoadError {
    /// A line for the user.
    pub fn message(&self) -> (text: &'static str)
        ensures
            text@ == match *self {
                LoadError::FontLoadFailure => "Couldn't load font file."@,
                LoadError::GlyphGenerationFailure => "Couldn't generate the glyph data."@,
                LoadError::ShaderLoadFailure => "Error loading the shader file."@,
            },
    {
        match self {
            LoadError::FontLoadFailure => "Couldn't load font file.",
            LoadError::GlyphGenerationFailure => "Couldn't generate the glyph data.",
            LoadError::ShaderLoadFailure => "Error loading the shader file.",
        }
    }
}

/// The sizes that a load works with.
#[derive(Debug, Clone, Copy, PartialEq, Eq)]
pub struct SdfOptions {
    /// Pixel height of the glyphs.
    pub base_size: i32,
    /// Border around each distance field.
    pub sdf_padding: i32,
    /// Space between neighbouring glyphs in the atlas.
    pub glyph_padding: i32,
}

impl Default for SdfOptions {
    fn default() -> (options: SdfOptions)
        ensures
            options == (SdfOptions {
                base_size: SDF_BASE_SIZE,
                sdf_padding: SDF_PADDING,
                glyph_padding: 0,
            }),
    {
        SdfOptions { base_size: SDF_BASE_SIZE, sdf_padding: SDF_PADDING, glyph_padding: 0 }
    }
}

/// What the atlas builder is asked: to pack the glyph array `glyphs` into
/// one image and to upload it as a texture sampled with `filter`.
#[derive(Debug, Clone, Copy, PartialEq, Eq)]
pub struct AtlasRequest {
    pub glyphs: u64,
    pub glyph_count: usize,
    pub font_size: i32,
    pub padding: i32,
    pub pack_method: i32,
    pub filter: TextureFilter,
}

/// The files that a shader is compiled from.
#[derive(Debug, Clone, Copy, PartialEq, Eq)]
pub struct ShaderRequest {
    pub vertex: Option<&'static str>,
    pub fragment: Option<&'static str>,
}

/// How far a load has come.
#[derive(Debug, PartialEq, Eq)]
pub enum LoadStage {
    /// Nothing has been asked yet; the font file is awaited.
    Idle(SdfOptions),
    /// The rasterizer has been asked for `request`.
    Rasterizing { request: GlyphRequest, glyph_padding: i32 },
    /// The glyph array is held and the atlas builder has been asked.
    Packing { glyphs: SliceGlyphInfo, base_size: i32, glyph_padding: i32 },
    /// The font is complete and the shader has been asked for.
    Compiling(Font),
    /// The bundle is ready.
    Loaded(Text),
    /// The load was given up; nothing is held any more.
    Failed(LoadError),
}

/// An answer of the backend.
#[derive(Debug, PartialEq, Eq)]
pub enum LoadEvent {
    /// The bytes of the font file, or `None` where it could not be read.
    FontData(Option<Vec<u8>>),
    /// The glyph array, or `None` where the rasterizer reported failure.
    Rasterized(Option<RawGlyphs>),
    /// The atlas, or `None` where none was made.
    Packed(Option<Atlas>),
    /// The shader, or `None` where it did not compile.
    Compiled(Option<Shader>),
}

/// What the backend is asked next.
#[derive(Debug, PartialEq, Eq)]
pub enum LoadAction {
    /// Rasterize the glyphs of the font file `data`.
    Rasterize { data: Vec<u8>, request: GlyphRequest },
    /// Pack the glyphs and upload the atlas.
    Pack(AtlasRequest),
    /// Compile the shader.
    Compile(ShaderRequest),
    /// Nothing: the bundle is ready.
    Ready,
    /// Nothing: the load has failed.
    Abort(LoadError),
    /// Nothing: the answer does not belong to this stage and was set aside.
    Refuse,
}

/// The result of one step of a load.
#[derive(Debug, PartialEq, Eq)]
pub struct LoadStep {
    pub stage: LoadStage,
    pub action: LoadAction,
    /// Allocations to unload now, in this order.
    pub release: Vec<Resource>,
}

/// The atlas exists and places each of the glyphs.
pub open spec fn atlas_made(glyphs: SliceGlyphInfo, atlas: Option<Atlas>) -> bool {
    atlas is Some && atlas->0.texture.id != 0 && atlas->0.rectangles@.len() == glyphs@.len()
}

/// The shader exists.
pub open spec fn shader_made(shader: Option<Shader>) -> bool {
    shader is Some && shader->0.id != 0
}

/// The font file was read and is small enough to be put to the rasterizer.
pub open spec fn font_read(data: Option<Vec<u8>>) -> bool {
    data is Some && data->0@.len() <= i32::MAX
}

/// The allocations that a stage holds, oldest first.
pub open spec fn held(stage: LoadStage) -> Seq<Resource> {
    match stage {
        LoadStage::Packing { glyphs, .. } => seq![glyphs.resource()],
        LoadStage::Compiling(font) => font.resources(),
        LoadStage::Loaded(text) => text.resources(),
        _ => Seq::empty(),
    }
}

/// The allocation that an answer brings along, if any.
pub open spec fn brought(event: LoadEvent) -> Option<Resource> {
    match event {
        LoadEvent::Rasterized(Some(raw)) => Some(raw.resource()),
        LoadEvent::Packed(Some(atlas)) => if atlas.texture.id != 0 {
            Some(Resource::Texture { id: atlas.texture.id })
        } else {
            None
        },
        LoadEvent::Compiled(Some(shader)) => if shader.id != 0 {
            Some(Resource::Shader { id: shader.id })
        } else {
            None
        },
        _ => None,
    }
}

/// The font that a glyph array and its atlas make.
pub open spec fn assemble(
    glyphs: SliceGlyphInfo,
    base_size: i32,
    glyph_padding: i32,
    atlas: Atlas,
) -> Font {
    Font { base_size, glyph_padding, texture: atlas.texture, rectangles: atlas.rectangles, glyphs }
}

/// The request that packs `glyphs`.
pub open spec fn atlas_request(
    glyphs: SliceGlyphInfo,
    font_size: i32,
    padding: i32,
) -> AtlasRequest {
    AtlasRequest {
        glyphs: glyphs.handle,
        glyph_count: glyphs.glyphs.len(),
        font_size,
        padding,
        pack_method: ATLAS_PACK_METHOD,
        filter: TextureFilter::Bilinear,
    }
}

/// The request for the edge-smoothing shader.
pub open spec fn shader_request() -> ShaderRequest {
    ShaderRequest { vertex: None, fragment: Some(SDF_SHADER_PATH) }
}

/// The stage that follows `stage` on `event`.
pub open spec fn next_stage(stage: LoadStage, event: LoadEvent) -> LoadStage {
    match (stage, event) {
        (LoadStage::Idle(options), LoadEvent::FontData(data)) => if font_read(data) {
            LoadStage::Rasterizing {
                request: default_request(
                    data->0@.len() as i32,
                    options.base_size,
                    options.sdf_padding,
                ),
                glyph_padding: options.glyph_padding,
            }
        } else {
            LoadStage::Failed(LoadError::FontLoadFailure)
        },
        (
            LoadStage::Rasterizing { request, glyph_padding },
            LoadEvent::Rasterized(produced),
        ) => match spec_load_sdf_data(request, produced) {
            Ok(glyphs) => LoadStage::Packing {
                glyphs,
                base_size: request.font_size,
                glyph_padding,
            },
            Err(_) => LoadStage::Failed(LoadError::GlyphGenerationFailure),
        },
        (
            LoadStage::Packing { glyphs, base_size, glyph_padding },
            LoadEvent::Packed(atlas),
        ) => if atlas_made(glyphs, atlas) {
            LoadStage::Compiling(assemble(glyphs, base_size, glyph_padding, atlas->0))
        } else {
            LoadStage::Failed(LoadError::FontLoadFailure)
        },
        (LoadStage::Compiling(font), LoadEvent::Compiled(shader)) => if shader_made(shader) {
            LoadStage::Loaded(Text(font, shader->0))
        } else {
            LoadStage::Failed(LoadError::ShaderLoadFailure)
        },
        _ => stage,
    }
}

/// What the backend is asked after `event` in `stage`.
pub open spec fn next_action(stage: LoadStage, event: LoadEvent) -> LoadAction {
    match (stage, event) {
        (LoadStage::Idle(options), LoadEvent::FontData(data)) => if font_read(data) {
            LoadAction::Rasterize {
                data: data->0,
                request: default_request(
                    data->0@.len() as i32,
                    options.base_size,
                    options.sdf_padding,
                ),
            }
        } else {
            LoadAction::Abort(LoadError::FontLoadFailure)
        },
        (
            LoadStage::Rasterizing { request, glyph_padding },
            LoadEvent::Rasterized(produced),
        ) => match spec_load_sdf_data(request, produced) {
            Ok(glyphs) => LoadAction::Pack(atlas_request(glyphs, request.font_size, glyph_padding)),
            Err(_) => LoadAction::Abort(LoadError::GlyphGenerationFailure),
        },
        (LoadStage::Packing { glyphs, .. }, LoadEvent::Packed(atlas)) => if atlas_made(
            glyphs,
            atlas,
        ) {
            LoadAction::Compile(shader_request())
        } else {
            LoadAction::Abort(LoadError::FontLoadFailure)
        },
        (LoadStage::Compiling(_), LoadEvent::Compiled(shader)) => if shader_made(shader) {
            LoadAction::Ready
        } else {
            LoadAction::Abort(LoadError::ShaderLoadFailure)
        },
        _ => LoadAction::Refuse,
    }
}

/// The allocations that are released after `event` in `stage`, in the order
/// of their release: the youngest first.
pub open spec fn released(stage: LoadStage, event: LoadEvent) -> Seq<Resource> {
    match (stage, event) {
        (LoadStage::Idle(_), LoadEvent::FontData(_)) => Seq::empty(),
        (
            LoadStage::Rasterizing { request, .. },
            LoadEvent::Rasterized(produced),
        ) => match spec_load_sdf_data(request, produced) {
            Err(GlyphFailure::Partial(unload)) => seq![unload],
            _ => Seq::empty(),
        },
        (LoadStage::Packing { glyphs, .. }, LoadEvent::Packed(atlas)) => if atlas_made(
            glyphs,
            atlas,
        ) {
            Seq::empty()
        } else {
            font_remains(Some(glyphs), atlas)
        },
        (LoadStage::Compiling(font), LoadEvent::Compiled(shader)) => if shader_made(shader) {
            Seq::empty()
        } else {
            font.resources().reverse()
        },
        _ => as_seq(brought(event)),
    }
}

/// A load that came to nothing.
#[derive(Debug, PartialEq, Eq)]
pub struct LoadFailure {
    pub error: LoadError,
    /// Allocations to unload now, in this order.
    pub release: Vec<Resource>,
}

/// What is left to release of a font that did not come about: the atlas
/// texture, where one was made, then the glyph array, where there is one.
pub open spec fn font_remains(glyphs: Option<SliceGlyphInfo>, atlas: Option<Atlas>) -> Seq<
    Resource,
> {
    as_seq(brought(LoadEvent::Packed(atlas))) + as_seq(
        match glyphs {
            Some(array) => Some(array.resource()),
            None => None,
        },
    )
}

/// Makes a font of the glyph array and the atlas that the backend loaded
/// for it.
///
/// The font is loaded where both exist and the atlas places each glyph.
/// Otherwise the load has failed, and what exists of the two is to be
/// released.
pub fn load_font(
    glyphs: Option<SliceGlyphInfo>,
    atlas: Option<Atlas>,
    base_size: i32,
    glyph_padding: i32,
) -> (res: Result<Font, LoadFailure>)
    ensures
        res is Ok <==> glyphs is Some && atlas_made(glyphs->0, atlas),
        res is Ok ==> res->Ok_0 == assemble(glyphs->0, base_size, glyph_padding, atlas->0)
            && res->Ok_0.loaded(),
        res is Err ==> res->Err_0.error == LoadError::FontLoadFailure && res->Err_0.release@
            == font_remains(glyphs, atlas),
{
    let whole = match (&glyphs, &atlas) {
        (Some(array), Some(packed)) => packed.texture.id != 0 && packed.rectangles.len()
            == array.glyphs.len(),
        _ => false,
    };
    match (glyphs, atlas) {
        (Some(array), Some(packed)) if whole => Ok(
            Font {
                base_size,
                glyph_padding,
                texture: packed.texture,
                rectangles: packed.rectangles,
                glyphs: array,
            },
        ),
        (glyphs, atlas) => {
            let mut release: Vec<Resource> = Vec::new();
            if let Some(packed) = atlas {
                if packed.texture.id != 0 {
                    release.push(Resource::Texture { id: packed.texture.id });
                }
            }
            if let Some(array) = glyphs {
                release.push(array.release());
            }
            assert(release@ =~= font_remains(glyphs, atlas));
            Err(LoadFailure { error: LoadError::FontLoadFailure, release })
        },
    }
}

/// The allocation that an answer brings along, if any.
fn brought_by(event: &LoadEvent) -> (res: Option<Resource>)
    ensures
        res == brought(*event),
{
    match event {
        LoadEvent::Rasterized(Some(raw)) => Some(
            Resource::GlyphData { handle: raw.handle, count: raw.glyphs.len() },
        ),
        LoadEvent::Packed(Some(atlas)) => if atlas.texture.id != 0 {
            Some(Resource::Texture { id: atlas.texture.id })
        } else {
            None
        },
        LoadEvent::Compiled(Some(shader)) => if shader.id != 0 {
            Some(Resource::Shader { id: shader.id })
        } else {
            None
        },
        _ => None,
    }
}

/// The step that gives a load up.
fn give_up(error: LoadError, release: Vec<Resource>) -> (step: LoadStep)
    ensures
        step.stage == LoadStage::Failed(error),
        step.action == LoadAction::Abort(error),
        step.release == release,
{
    LoadStep { stage: LoadStage::Failed(error), action: LoadAction::Abort(error), release }
}

/// One step of loading the font and its shader.
///
/// `stage` is where the load stands and `event` is the backend's answer to
/// what was asked last. The result names the stage that follows, what to ask
/// of the backend next, and what to unload. An answer that the stage did not
/// ask for changes nothing, and what it brought along is released.
pub fn load_sdf_font(stage: LoadStage, event: LoadEvent) -> (step: LoadStep)
    ensures
        step.stage == next_stage(stage, event),
        step.action == next_action(stage, event),
        step.release@ == released(stage, event),
{
    match (stage, event) {
        (LoadStage::Idle(options), LoadEvent::FontData(Some(data))) => {
            match sdf_request(data.as_slice(), options.base_size, None, options.sdf_padding) {
                Some(request) => {
                    let awaited = GlyphRequest::default_set(
                        request.data_size,
                        request.font_size,
                        request.padding,
                    );
                    LoadStep {
                        stage: LoadStage::Rasterizing {
                            request: awaited,
                            glyph_padding: options.glyph_padding,
                        },
                        action: LoadAction::Rasterize { data, request },
                        release: Vec::new(),
                    }
                },
                None => give_up(LoadError::FontLoadFailure, Vec::new()),
            }
        },
        (LoadStage::Idle(_), LoadEvent::FontData(None)) => give_up(
            LoadError::FontLoadFailure,
            Vec::new(),
        ),
        (LoadStage::Rasterizing { request, glyph_padding }, LoadEvent::Rasterized(produced)) => {
            match load_sdf_data(&request, produced) {
                Ok(glyphs) => {
                    let ask = AtlasRequest {
                        glyphs: glyphs.handle,
                        glyph_count: glyphs.glyphs.len(),
                        font_size: request.font_size,
                        padding: glyph_padding,
                        pack_method: ATLAS_PACK_METHOD,
                        filter: TextureFilter::Bilinear,
                    };
                    LoadStep {
                        stage: LoadStage::Packing {
                            glyphs,
                            base_size: request.font_size,
                            glyph_padding,
                        },
                        action: LoadAction::Pack(ask),
                        release: Vec::new(),
                    }
                },
                Err(GlyphFailure::Partial(unload)) => give_up(
                    LoadError::GlyphGenerationFailure,
                    hand_back(Some(unload)),
                ),
                Err(GlyphFailure::Absent) => give_up(
                    LoadError::GlyphGenerationFailure,
                    Vec::new(),
                ),
            }
        },
        (LoadStage::Packing { glyphs, base_size, glyph_padding }, LoadEvent::Packed(atlas)) => {
            match load_font(Some(glyphs), atlas, base_size, glyph_padding) {
                Ok(font) => LoadStep {
                    stage: LoadStage::Compiling(font),
                    action: LoadAction::Compile(
                        ShaderRequest { vertex: None, fragment: Some(SDF_SHADER_PATH) },
                    ),
                    release: Vec::new(),
                },
                Err(failure) => give_up(failure.error, failure.release),
            }
        },
        (LoadStage::Compiling(font), LoadEvent::Compiled(shader)) => {
            match shader {
                Some(made) if made.id != 0 => LoadStep {
                    stage: LoadStage::Loaded(Text(font, made)),
                    action: LoadAction::Ready,
                    release: Vec::new(),
                },
                _ => {
                    let mut release: Vec<Resource> = Vec::new();
                    release.push(Resource::Texture { id: font.texture.id });
                    release.push(font.glyphs.release());
                    assert(release@ =~= font.resources().reverse());
                    give_up(LoadError::ShaderLoadFailure, release)
                },
            }
        },
        (stage, event) => {
            let release = hand_back(brought_by(&event));
            LoadStep { stage, action: LoadAction::Refuse, release }
        },
    }
}

impl LoadStage {
    /// A stage as [`load_sdf_font`] can reach it from [`LoadStage::Idle`]:
    /// the default glyph set is asked for and held whole, and what counts as
    /// loaded exists.
    pub open spec fn wf(self) -> bool {
        match self {
            LoadStage::Idle(_) => true,
            LoadStage::Rasterizing { request, .. } => request.codepoints is None,
            LoadStage::Packing { glyphs, .. } => glyphs@.len() == DEFAULT_GLYPH_COUNT,
            LoadStage::Compiling(font) => font.loaded() && font.glyphs@.len()
                == DEFAULT_GLYPH_COUNT,
            LoadStage::Loaded(text) => text.wf() && text.0.glyphs@.len() == DEFAULT_GLYPH_COUNT,
            LoadStage::Failed(_) => true,
        }
    }

    /// How many backend allocations the stage holds.
    pub fn outstanding(&self) -> (count: usize)
        ensures
            count == held(*self).len(),
    {
        match self {
            LoadStage::Packing { .. } => 1,
            LoadStage::Compiling(_) => 2,
            LoadStage::Loaded(_) => 3,
            _ => 0,
        }
    }
}

/// How far along a stage is. A load never goes back.
pub open spec fn progress(stage: LoadStage) -> nat {
    match stage {
        LoadStage::Idle(_) => 0,
        LoadStage::Rasterizing { .. } => 1,
        LoadStage::Packing { .. } => 2,
        LoadStage::Compiling(_) => 3,
        LoadStage::Loaded(_) => 4,
        LoadStage::Failed(_) => 5,
    }
}

/// The stage reached from `stage` by the answers `events`, in their order.
pub open spec fn stage_after(stage: LoadStage, events: Seq<LoadEvent>) -> LoadStage
    decreases events.len(),
{
    if events.len() == 0 {
        stage
    } else {
        stage_after(next_stage(stage, events.first()), events.drop_first())
    }
}

/// How many allocations the answers `events` bring along.
pub open spec fn acquisitions(events: Seq<LoadEvent>) -> nat
    decreases events.len(),
{
    if events.len() == 0 {
        0
    } else {
        as_seq(brought(events.first())).len() + acquisitions(events.drop_first())
    }
}

/// How many allocations are released while `events` are answered from
/// `stage` on.
pub open spec fn releases(stage: LoadStage, events: Seq<LoadEvent>) -> nat
    decreases events.len(),
{
    if events.len() == 0 {
        0
    } else {
        released(stage, events.first()).len() + releases(
            next_stage(stage, events.first()),
            events.drop_first(),
        )
    }
}

/// How often the atlas builder is asked while `events` are answered from
/// `stage` on.
pub open spec fn atlas_requests(stage: LoadStage, events: Seq<LoadEvent>) -> nat
    decreases events.len(),
{
    if events.len() == 0 {
        0
    } else {
        (if next_action(stage, events.first()) is Pack {
            1nat
        } else {
            0nat
        }) + atlas_requests(next_stage(stage, events.first()), events.drop_first())
    }
}

/// Every allocation is accounted for at every step: what is held after the
/// step, followed by what the step released (the oldest first), is what was
/// held before, followed by what the answer brought. So nothing is leaked,
/// nothing is released twice, and what is released goes youngest first.
pub proof fn lemma_step_conserves(stage: LoadStage, event: LoadEvent)
    ensures
        held(next_stage(stage, event)) + released(stage, event).reverse() == held(stage) + as_seq(
            brought(event),
        ),
{
    let after = held(next_stage(stage, event)) + released(stage, event).reverse();
    let before = held(stage) + as_seq(brought(event));
    assert(after =~= before);
}

/// A load that has failed holds nothing, asks nothing more of the backend,
/// and releases whatever a late answer brings.
pub proof fn lemma_failure_is_final(error: LoadError, event: LoadEvent)
    ensures
        held(LoadStage::Failed(error)).len() == 0,
        next_stage(LoadStage::Failed(error), event) == LoadStage::Failed(error),
        next_action(LoadStage::Failed(error), event) == LoadAction::Refuse,
        released(LoadStage::Failed(error), event) == as_seq(brought(event)),
{
}

/// The atlas builder is asked only for a glyph array that the rasterizer
/// produced whole, and only as the answer to the rasterizer's call. Where
/// the rasterizer reports failure the load ends with
/// [`LoadError::GlyphGenerationFailure`] and holds nothing.
pub proof fn lemma_no_atlas_without_glyphs(stage: LoadStage, event: LoadEvent)
    ensures
        next_action(stage, event) is Pack <==> stage is Rasterizing && event is Rasterized
            && spec_load_sdf_data(stage->request, event->Rasterized_0) is Ok,
        event == LoadEvent::Rasterized(None) ==> !(next_action(stage, event) is Pack),
        stage is Rasterizing && event == LoadEvent::Rasterized(None) ==> {
            &&& next_stage(stage, event) == LoadStage::Failed(LoadError::GlyphGenerationFailure)
            &&& next_action(stage, event) == LoadAction::Abort(LoadError::GlyphGenerationFailure)
            &&& released(stage, event).len() == 0
        },
{
}

/// A load only moves forward, and asking for the atlas is the move from
/// rasterizing to packing.
pub proof fn lemma_progress(stage: LoadStage, event: LoadEvent)
    ensures
        progress(stage) <= progress(next_stage(stage, event)),
        next_action(stage, event) is Pack ==> progress(stage) == 1 && progress(
            next_stage(stage, event),
        ) == 2,
{
}

/// Whatever answers arrive and in whatever order, the atlas builder is asked
/// at most once in a load, and never again once a glyph array is held: no
/// glyph array is packed twice.
pub proof fn lemma_atlas_built_once(stage: LoadStage, events: Seq<LoadEvent>)
    ensures
        atlas_requests(stage, events) <= 1,
        progress(stage) >= 2 ==> atlas_requests(stage, events) == 0,
    decreases events.len(),
{
    if events.len() > 0 {
        lemma_progress(stage, events.first());
        lemma_atlas_built_once(next_stage(stage, events.first()), events.drop_first());
    }
}

/// Over any run of a load, the allocations still held and those released
/// add up to those held at the start and those brought since. A load that
/// starts with nothing and ends holding nothing has released exactly as many
/// allocations as it acquired.
pub proof fn lemma_releases_balance_acquisitions(stage: LoadStage, events: Seq<LoadEvent>)
    ensures
        held(stage_after(stage, events)).len() + releases(stage, events) == held(stage).len()
            + acquisitions(events),
    decreases events.len(),
{
    if events.len() > 0 {
        lemma_step_conserves(stage, events.first());
        lemma_releases_balance_acquisitions(next_stage(stage, events.first()), events.drop_first());
    }
}

/// Each failure names the step that failed: the font file or the atlas, the
/// rasterizer, or the shader.
pub proof fn lemma_failure_names_its_step(stage: LoadStage, event: LoadEvent)
    ensures
        next_action(stage, event) is Abort <==> next_stage(stage, event) is Failed && !(stage
            is Failed),
        next_action(stage, event) == LoadAction::Abort(LoadError::FontLoadFailure) ==> stage
            is Idle || stage is Packing,
        next_action(stage, event) == LoadAction::Abort(LoadError::GlyphGenerationFailure)
            ==> stage is Rasterizing,
        next_action(stage, event) == LoadAction::Abort(LoadError::ShaderLoadFailure) ==> stage
            is Compiling,
        next_action(stage, event) is Abort ==> next_stage(stage, event) == LoadStage::Failed(
            next_action(stage, event)->Abort_0,
        ),
{
}

/// The stages that [`load_sdf_font`] reaches stay well-formed.
pub proof fn lemma_step_keeps_wf(stage: LoadStage, event: LoadEvent)
    requires
        stage.wf(),
    ensures
        next_stage(stage, event).wf(),
{
}

/// A bundle is only ever produced whole: whatever the backend answers, a
/// load that starts idle and ends loaded has a font with an atlas texture,
/// the 95 default glyphs and a place for each in the atlas, and a shader.
pub proof fn lemma_bundle_is_whole(stage: LoadStage, events: Seq<LoadEvent>)
    requires
        stage.wf(),
    ensures
        stage_after(stage, events).wf(),
        stage_after(stage, events) is Loaded ==> {
            let text = stage_after(stage, events)->Loaded_0;
            &&& text.wf()
            &&& text.0.glyphs@.len() == 95
            &&& text.0.rectangles@.len() == 95
        },
    decreases events.len(),
{
    if events.len() > 0 {
        lemma_step_keeps_wf(stage, events.first());
        lemma_bundle_is_whole(next_stage(stage, events.first()), events.drop_first());
    }
}

/// A load succeeds where every answer is good: with a font file that the
/// rasterizer can be given, the 95 default glyphs, an atlas that places each
/// of them and a shader, the four steps end with the bundle of exactly these,
/// and nothing is released on the way.
pub proof fn lemma_good_answers_load_the_bundle(
    options: SdfOptions,
    data: Vec<u8>,
    raw: RawGlyphs,
    atlas: Atlas,
    shader: Shader,
)
    requires
        data@.len() <= i32::MAX,
        raw.glyphs@.len() == DEFAULT_GLYPH_COUNT,
        atlas.texture.id != 0,
        atlas.rectangles@.len() == DEFAULT_GLYPH_COUNT,
        shader.id != 0,
    ensures
        ({
            let answers = seq![
                LoadEvent::FontData(Some(data)),
                LoadEvent::Rasterized(Some(raw)),
                LoadEvent::Packed(Some(atlas)),
                LoadEvent::Compiled(Some(shader)),
            ];
            let glyphs = SliceGlyphInfo { handle: raw.handle, glyphs: raw.glyphs };
            let font = assemble(glyphs, options.base_size, options.glyph_padding, atlas);
            &&& stage_after(LoadStage::Idle(options), answers) == LoadStage::Loaded(
                Text(font, shader),
            )
            &&& releases(LoadStage::Idle(options), answers) == 0
            &&& atlas_requests(LoadStage::Idle(options), answers) == 1
        }),
{
    reveal_with_fuel(stage_after, 5);
    reveal_with_fuel(releases, 5);
    reveal_with_fuel(atlas_requests, 5);
}

} // verus!

use sdf_text::font::{load_font, load_sdf_font};
use sdf_text::font::{Atlas, AtlasRequest, Font, LoadAction, LoadError, LoadEvent, LoadFailure};
use sdf_text::font::{LoadStage, LoadStep, Rectangle, SdfOptions, Shader, ShaderRequest, Text};
use sdf_text::font::{Texture, TextureFilter};
use sdf_text::font::{ATLAS_PACK_METHOD, SDF_BASE_SIZE, SDF_SHADER_PATH};
use sdf_text::glyph::{GlyphInfo, GlyphRequest, RawGlyphs, SliceGlyphInfo};
use sdf_text::resource::Resource;

fn records(count: usize) -> Vec<GlyphInfo> {
    (0..count)
        .map(|i| GlyphInfo {
            value: 32 + i as i32,
            offset_x: 0,
            offset_y: 2,
            advance_x: 8,
            width: 10,
            height: 16,
        })
        .collect()
}

fn raw(handle: u64, count: usize) -> RawGlyphs {
    RawGlyphs { handle, glyphs: records(count) }
}

fn held_glyphs(handle: u64, count: usize) -> SliceGlyphInfo {
    SliceGlyphInfo { handle, glyphs: records(count) }
}

fn texture() -> Texture {
    Texture { id: 7, width: 512, height: 256 }
}

fn places(count: usize) -> Vec<Rectangle> {
    (0..count)
        .map(|i| Rectangle { x: 12 * (i as i32 % 40), y: 18 * (i as i32 / 40), width: 9, height: 16 })
        .collect()
}

fn atlas() -> Atlas {
    Atlas { texture: texture(), rectangles: places(95) }
}

fn font(handle: u64) -> Font {
    Font {
        base_size: 16,
        glyph_padding: 0,
        texture: texture(),
        rectangles: places(95),
        glyphs: held_glyphs(handle, 95),
    }
}

fn rasterizing() -> LoadStage {
    LoadStage::Rasterizing { request: GlyphRequest::default_set(4, 16, 2), glyph_padding: 0 }
}

fn packing() -> LoadStage {
    LoadStage::Packing { glyphs: held_glyphs(11, 95), base_size: 16, glyph_padding: 0 }
}

/// Feeds the answers to a load and counts what it released.
fn run(events: Vec<LoadEvent>) -> (LoadStage, Vec<LoadAction>, Vec<Resource>) {
    let mut stage = LoadStage::Idle(SdfOptions::default());
    let mut actions = Vec::new();
    let mut released = Vec::new();
    for event in events {
        let step = load_sdf_font(stage, event);
        stage = step.stage;
        actions.push(step.action);
        released.extend(step.release);
    }
    (stage, actions, released)
}

#[test]
fn default_options() {
    let standard = SdfOptions { base_size: 16, sdf_padding: 2, glyph_padding: 0 };
    assert_eq!(SdfOptions::default(), standard);
    assert_eq!(SDF_BASE_SIZE, 16);
    assert_eq!(ATLAS_PACK_METHOD, 0);
    assert_eq!(SDF_SHADER_PATH, "data/shaders/sdf.fs");
}

#[test]
fn font_file_starts_the_rasterizer() {
    let step = load_sdf_font(
        LoadStage::Idle(SdfOptions::default()),
        LoadEvent::FontData(Some(vec![0, 1, 0, 0])),
    );
    assert_eq!(
        step,
        LoadStep {
            stage: rasterizing(),
            action: LoadAction::Rasterize {
                data: vec![0, 1, 0, 0],
                request: GlyphRequest {
                    data_size: 4,
                    font_size: 16,
                    codepoints: None,
                    codepoint_count: 0,
                    padding: 2,
                },
            },
            release: vec![],
        }
    );
}

#[test]
fn options_reach_the_requests() {
    let options = SdfOptions { base_size: 48, sdf_padding: 5, glyph_padding: 3 };
    let step = load_sdf_font(LoadStage::Idle(options), LoadEvent::FontData(Some(vec![9; 20])));
    assert_eq!(
        step.action,
        LoadAction::Rasterize { data: vec![9; 20], request: GlyphRequest::default_set(20, 48, 5) }
    );
    let step = load_sdf_font(step.stage, LoadEvent::Rasterized(Some(raw(2, 95))));
    assert_eq!(
        step.action,
        LoadAction::Pack(AtlasRequest {
            glyphs: 2,
            glyph_count: 95,
            font_size: 48,
            padding: 3,
            pack_method: 0,
            filter: TextureFilter::Bilinear,
        })
    );
}

#[test]
fn missing_font_file_fails_the_load() {
    let step = load_sdf_font(LoadStage::Idle(SdfOptions::default()), LoadEvent::FontData(None));
    assert_eq!(
        step,
        LoadStep {
            stage: LoadStage::Failed(LoadError::FontLoadFailure),
            action: LoadAction::Abort(LoadError::FontLoadFailure),
            release: vec![],
        }
    );
}

#[test]
fn whole_glyph_set_goes_to_the_atlas_builder() {
    let step = load_sdf_font(rasterizing(), LoadEvent::Rasterized(Some(raw(11, 95))));
    assert_eq!(
        step,
        LoadStep {
            stage: packing(),
            action: LoadAction::Pack(AtlasRequest {
                glyphs: 11,
                glyph_count: 95,
                font_size: 16,
                padding: 0,
                pack_method: 0,
                filter: TextureFilter::Bilinear,
            }),
            release: vec![],
        }
    );
}

#[test]
fn rasterizer_failure_skips_the_atlas() {
    let step = load_sdf_font(rasterizing(), LoadEvent::Rasterized(None));
    assert_eq!(
        step,
        LoadStep {
            stage: LoadStage::Failed(LoadError::GlyphGenerationFailure),
            action: LoadAction::Abort(LoadError::GlyphGenerationFailure),
            release: vec![],
        }
    );
    let late = load_sdf_font(step.stage, LoadEvent::Packed(Some(atlas())));
    assert_eq!(late.stage, LoadStage::Failed(LoadError::GlyphGenerationFailure));
    assert_eq!(late.action, LoadAction::Refuse);
    assert_eq!(late.release, vec![Resource::Texture { id: 7 }]);
}

#[test]
fn corrupt_font_never_reaches_the_atlas_builder() {
    let (stage, actions, released) = run(vec![
        LoadEvent::FontData(Some(vec![0xde, 0xad])),
        LoadEvent::Rasterized(None),
        LoadEvent::Packed(None),
        LoadEvent::Compiled(None),
    ]);
    assert_eq!(stage, LoadStage::Failed(LoadError::GlyphGenerationFailure));
    assert!(actions.iter().all(|a| !matches!(a, LoadAction::Pack(_))));
    assert_eq!(actions[1], LoadAction::Abort(LoadError::GlyphGenerationFailure));
    assert_eq!(released, vec![]);
}

#[test]
fn partial_glyph_set_fails_the_load_and_is_released() {
    let step = load_sdf_font(rasterizing(), LoadEvent::Rasterized(Some(raw(12, 40))));
    assert_eq!(
        step,
        LoadStep {
            stage: LoadStage::Failed(LoadError::GlyphGenerationFailure),
            action: LoadAction::Abort(LoadError::GlyphGenerationFailure),
            release: vec![Resource::GlyphData { handle: 12, count: 40 }],
        }
    );
}

#[test]
fn atlas_texture_completes_the_font() {
    let step = load_sdf_font(packing(), LoadEvent::Packed(Some(atlas())));
    assert_eq!(
        step,
        LoadStep {
            stage: LoadStage::Compiling(font(11)),
            action: LoadAction::Compile(ShaderRequest {
                vertex: None,
                fragment: Some("data/shaders/sdf.fs"),
            }),
            release: vec![],
        }
    );
}

#[test]
fn missing_atlas_releases_the_glyphs() {
    let no_texture = Texture { id: 0, width: 512, height: 512 };
    for answer in [None, Some(Atlas { texture: no_texture, rectangles: places(95) })] {
        let step = load_sdf_font(packing(), LoadEvent::Packed(answer));
        assert_eq!(
            step,
            LoadStep {
                stage: LoadStage::Failed(LoadError::FontLoadFailure),
                action: LoadAction::Abort(LoadError::FontLoadFailure),
                release: vec![Resource::GlyphData { handle: 11, count: 95 }],
            }
        );
    }
}

#[test]
fn atlas_that_misplaces_glyphs_is_released_with_them() {
    for count in [0, 94, 96] {
        let answer = Atlas { texture: texture(), rectangles: places(count) };
        let step = load_sdf_font(packing(), LoadEvent::Packed(Some(answer)));
        assert_eq!(
            step,
            LoadStep {
                stage: LoadStage::Failed(LoadError::FontLoadFailure),
                action: LoadAction::Abort(LoadError::FontLoadFailure),
                release: vec![
                    Resource::Texture { id: 7 },
                    Resource::GlyphData { handle: 11, count: 95 },
                ],
            }
        );
    }
}

#[test]
fn shader_completes_the_bundle() {
    let answer = LoadEvent::Compiled(Some(Shader { id: 3 }));
    let step = load_sdf_font(LoadStage::Compiling(font(11)), answer);
    assert_eq!(
        step,
        LoadStep {
            stage: LoadStage::Loaded(Text(font(11), Shader { id: 3 })),
            action: LoadAction::Ready,
            release: vec![],
        }
    );
}

#[test]
fn missing_shader_releases_texture_then_glyphs() {
    for answer in [None, Some(Shader { id: 0 })] {
        let step = load_sdf_font(LoadStage::Compiling(font(11)), LoadEvent::Compiled(answer));
        assert_eq!(
            step,
            LoadStep {
                stage: LoadStage::Failed(LoadError::ShaderLoadFailure),
                action: LoadAction::Abort(LoadError::ShaderLoadFailure),
                release: vec![
                    Resource::Texture { id: 7 },
                    Resource::GlyphData { handle: 11, count: 95 },
                ],
            }
        );
    }
}

#[test]
fn load_from_font_file_to_bundle() {
    let (stage, actions, released) = run(vec![
        LoadEvent::FontData(Some(vec![1; 64])),
        LoadEvent::Rasterized(Some(raw(1, 95))),
        LoadEvent::Packed(Some(atlas())),
        LoadEvent::Compiled(Some(Shader { id: 3 })),
    ]);
    assert_eq!(actions.len(), 4);
    assert!(matches!(actions[0], LoadAction::Rasterize { .. }));
    assert!(matches!(actions[1], LoadAction::Pack(_)));
    assert!(matches!(actions[2], LoadAction::Compile(_)));
    assert_eq!(actions[3], LoadAction::Ready);
    assert_eq!(released, vec![]);
    match stage {
        LoadStage::Loaded(Text(font, shader)) => {
            assert_eq!(font.glyph_count(), 95);
            assert_eq!(font.base_size, 16);
            assert!(font.texture.width > 0 && font.texture.height > 0);
            assert_eq!(font.texture, texture());
            assert_eq!(font.rectangles.len(), 95);
            assert_eq!(shader, Shader { id: 3 });
        }
        other => panic!("the load ended in {:?}", other),
    }
}

#[test]
fn second_glyph_array_is_not_packed() {
    let step = load_sdf_font(packing(), LoadEvent::Rasterized(Some(raw(12, 95))));
    assert_eq!(
        step,
        LoadStep {
            stage: packing(),
            action: LoadAction::Refuse,
            release: vec![Resource::GlyphData { handle: 12, count: 95 }],
        }
    );
}

#[test]
fn atlas_is_asked_for_once_in_a_load() {
    let (stage, actions, released) = run(vec![
        LoadEvent::Rasterized(Some(raw(1, 95))),
        LoadEvent::FontData(Some(vec![1; 64])),
        LoadEvent::Rasterized(Some(raw(2, 95))),
        LoadEvent::Rasterized(Some(raw(3, 95))),
        LoadEvent::Packed(Some(atlas())),
        LoadEvent::Rasterized(Some(raw(4, 95))),
        LoadEvent::Packed(Some(Atlas {
            texture: Texture { id: 8, width: 1, height: 1 },
            rectangles: places(95),
        })),
        LoadEvent::Compiled(Some(Shader { id: 3 })),
        LoadEvent::Rasterized(Some(raw(5, 95))),
    ]);
    let packs = actions.iter().filter(|a| matches!(a, LoadAction::Pack(_))).count();
    assert_eq!(packs, 1);
    assert_eq!(
        released,
        vec![
            Resource::GlyphData { handle: 1, count: 95 },
            Resource::GlyphData { handle: 3, count: 95 },
            Resource::GlyphData { handle: 4, count: 95 },
            Resource::Texture { id: 8 },
            Resource::GlyphData { handle: 5, count: 95 },
        ]
    );
    assert_eq!(stage, LoadStage::Loaded(Text(font(2), Shader { id: 3 })));
}

#[test]
fn answers_out_of_turn_are_refused() {
    let idle = LoadStage::Idle(SdfOptions::default());
    let step = load_sdf_font(idle, LoadEvent::Compiled(Some(Shader { id: 4 })));
    assert_eq!(
        step,
        LoadStep {
            stage: LoadStage::Idle(SdfOptions::default()),
            action: LoadAction::Refuse,
            release: vec![Resource::Shader { id: 4 }],
        }
    );
    let step = load_sdf_font(rasterizing(), LoadEvent::FontData(Some(vec![1])));
    assert_eq!(
        step,
        LoadStep { stage: rasterizing(), action: LoadAction::Refuse, release: vec![] }
    );
    let step = load_sdf_font(packing(), LoadEvent::Compiled(Some(Shader { id: 0 })));
    assert_eq!(step, LoadStep { stage: packing(), action: LoadAction::Refuse, release: vec![] });
    let loaded = LoadStage::Loaded(Text(font(1), Shader { id: 3 }));
    let nothing = Atlas { texture: Texture { id: 0, width: 0, height: 0 }, rectangles: vec![] };
    let step = load_sdf_font(loaded, LoadEvent::Packed(Some(nothing)));
    assert_eq!(step.action, LoadAction::Refuse);
    assert_eq!(step.release, vec![]);
    assert_eq!(step.stage, LoadStage::Loaded(Text(font(1), Shader { id: 3 })));
}

#[test]
fn failed_loads_release_what_they_acquired() {
    let acquired_then_failed = vec![
        (vec![LoadEvent::FontData(None)], 0),
        (vec![LoadEvent::FontData(Some(vec![1])), LoadEvent::Rasterized(Some(raw(1, 3)))], 1),
        (
            vec![
                LoadEvent::FontData(Some(vec![1])),
                LoadEvent::Rasterized(Some(raw(1, 95))),
                LoadEvent::Packed(None),
            ],
            1,
        ),
        (
            vec![
                LoadEvent::FontData(Some(vec![1])),
                LoadEvent::Rasterized(Some(raw(1, 95))),
                LoadEvent::Packed(Some(atlas())),
                LoadEvent::Compiled(None),
                LoadEvent::Compiled(Some(Shader { id: 5 })),
            ],
            3,
        ),
    ];
    for (events, acquired) in acquired_then_failed {
        let (stage, _, released) = run(events);
        assert!(matches!(stage, LoadStage::Failed(_)));
        assert_eq!(stage.outstanding(), 0);
        assert_eq!(released.len(), acquired);
        let mut once = released.clone();
        once.dedup();
        assert_eq!(once.len(), released.len());
    }
}

#[test]
fn outstanding_allocations_of_each_stage() {
    assert_eq!(LoadStage::Idle(SdfOptions::default()).outstanding(), 0);
    assert_eq!(rasterizing().outstanding(), 0);
    assert_eq!(packing().outstanding(), 1);
    assert_eq!(LoadStage::Compiling(font(11)).outstanding(), 2);
    assert_eq!(LoadStage::Loaded(Text(font(11), Shader { id: 3 })).outstanding(), 3);
    assert_eq!(LoadStage::Failed(LoadError::ShaderLoadFailure).outstanding(), 0);
}

#[test]
fn direct_font_load() {
    let packed = Atlas { texture: texture(), rectangles: places(224) };
    let loaded = load_font(Some(held_glyphs(6, 224)), Some(packed), 10, 1);
    assert_eq!(
        loaded,
        Ok(Font {
            base_size: 10,
            glyph_padding: 1,
            texture: texture(),
            rectangles: places(224),
            glyphs: held_glyphs(6, 224),
        })
    );
    assert_eq!(loaded.unwrap().glyph_count(), 224);
}

#[test]
fn direct_font_load_failures() {
    let no_texture =
        Atlas { texture: Texture { id: 0, width: 0, height: 0 }, rectangles: places(224) };
    assert_eq!(
        load_font(Some(held_glyphs(6, 224)), Some(no_texture), 10, 1),
        Err(LoadFailure {
            error: LoadError::FontLoadFailure,
            release: vec![Resource::GlyphData { handle: 6, count: 224 }],
        })
    );
    let too_few = Atlas { texture: texture(), rectangles: places(223) };
    assert_eq!(
        load_font(Some(held_glyphs(6, 224)), Some(too_few), 10, 1),
        Err(LoadFailure {
            error: LoadError::FontLoadFailure,
            release: vec![
                Resource::Texture { id: 7 },
                Resource::GlyphData { handle: 6, count: 224 },
            ],
        })
    );
    assert_eq!(
        load_font(Some(held_glyphs(6, 2)), None, 10, 1),
        Err(LoadFailure {
            error: LoadError::FontLoadFailure,
            release: vec![Resource::GlyphData { handle: 6, count: 2 }],
        })
    );
    assert_eq!(
        load_font(None, Some(atlas()), 10, 1),
        Err(LoadFailure {
            error: LoadError::FontLoadFailure,
            release: vec![Resource::Texture { id: 7 }],
        })
    );
    assert_eq!(
        load_font(None, None, 10, 1),
        Err(LoadFailure { error: LoadError::FontLoadFailure, release: vec![] })
    );
}

#[test]
fn error_messages() {
    assert_eq!(LoadError::FontLoadFailure.message(), "Couldn't load font file.");
    assert_eq!(LoadError::GlyphGenerationFailure.message(), "Couldn't generate the glyph data.");
    assert_eq!(LoadError::ShaderLoadFailure.message(), "Error loading the shader file.");
}

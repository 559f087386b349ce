//! Backend allocations that the caller must hand back.

use vstd::prelude::*;

verus! {

/// An allocation made by the graphics backend that has exactly one owner and
/// is released through the matching unload call of the backend.
#[derive(Debug, Clone, Copy, PartialEq, Eq)]
pub enum Resource {
    /// An array of `count` glyph records, named by the caller's `handle`.
    /// Unloading it takes the array and that element count.
    GlyphData { handle: u64, count: usize },
    /// A texture in video memory.
    Texture { id: u32 },
    /// A compiled shader program.
    Shader { id: u32 },
}

/// What an answer of the backend brought along: nothing, or one allocation.
pub open spec fn as_seq(brought: Option<Resource>) -> Seq<Resource> {
    match brought {
        Some(r) => seq![r],
        None => Seq::empty(),
    }
}

/// The release list for an allocation that is not taken over.
pub fn hand_back(brought: Option<Resource>) -> (release: Vec<Resource>)
    ensures
        release@ == as_seq(brought),
{
    let mut release: Vec<Resource> = Vec::new();
    if let Some(r) = brought {
        release.push(r);
    }
    assert(release@ =~= as_seq(brought));
    release
}

} // verus!

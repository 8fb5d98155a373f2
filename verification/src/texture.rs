//! Two textures that load on their own, and one picture that needs both.
//!
//! Each texture belongs to one unit of the context. The images arrive one by
//! one, in either order; the page is drawn when the second of them is there,
//! and at every arrival after that.

use vstd::prelude::*;

verus! {

/// The code of the first texture unit of a context; the units after it follow
/// one by one.
pub const TEXTURE0: u32 = 0x84C0;

/// The two texture units that a page with two textures uses.
#[derive(Clone, Copy, Debug, PartialEq, Eq, Structural)]
pub enum TextureUnit {
    Unit0,
    Unit1,
}

/// The number of `unit`, which is also the value of the sampler that reads
/// from it.
pub open spec fn unit_index(unit: TextureUnit) -> i32 {
    match unit {
        TextureUnit::Unit0 => 0,
        TextureUnit::Unit1 => 1,
    }
}

impl TextureUnit {
    /// The number of this unit, which is also the value of the sampler that
    /// reads from it.
    pub fn index(self) -> (index: i32)
        ensures
            index == unit_index(self),
    {
        match self {
            TextureUnit::Unit0 => 0,
            TextureUnit::Unit1 => 1,
        }
    }

    /// The code by which a context knows this unit.
    pub fn gl_enum(self) -> (code: u32)
        ensures
            code == TEXTURE0 + unit_index(self),
    {
        match self {
            TextureUnit::Unit0 => TEXTURE0,
            TextureUnit::Unit1 => TEXTURE0 + 1,
        }
    }
}

/// Which of a page's two textures are loaded, as contracts see it.
pub struct Loaded {
    pub texture0: bool,
    pub texture1: bool,
}

/// What is loaded once the image for `unit` has arrived.
pub open spec fn with_loaded(loaded: Loaded, unit: TextureUnit) -> Loaded {
    match unit {
        TextureUnit::Unit0 => Loaded { texture0: true, texture1: loaded.texture1 },
        TextureUnit::Unit1 => Loaded { texture0: loaded.texture0, texture1: true },
    }
}

/// Both textures are loaded.
pub open spec fn complete(loaded: Loaded) -> bool {
    loaded.texture0 && loaded.texture1
}

/// The textures of a page that draws from two of them.
#[derive(Clone, Copy, Debug)]
pub struct MultiTexture {
    texture0_actived: bool,
    texture1_actived: bool,
}

impl View for MultiTexture {
    type V = Loaded;

    closed spec fn view(&self) -> Loaded {
        Loaded { texture0: self.texture0_actived, texture1: self.texture1_actived }
    }
}

impl MultiTexture {
    /// A page of which no texture is loaded yet.
    pub fn new() -> (textures: Self)
        ensures
            textures@ == (Loaded { texture0: false, texture1: false }),
    {
        MultiTexture { texture0_actived: false, texture1_actived: false }
    }

    /// Whether both textures are loaded.
    pub fn is_complete(&self) -> (both: bool)
        ensures
            both == complete(self@),
    {
        self.texture0_actived && self.texture1_actived
    }

    /// The image for `unit` has arrived. Returns whether the page is to be
    /// drawn now: it is once both textures are loaded.
    pub fn load_texture(&mut self, unit: TextureUnit) -> (draw: bool)
        ensures
            final(self)@ == with_loaded(old(self)@, unit),
            draw == complete(final(self)@),
    {
        match unit {
            TextureUnit::Unit0 => {
                self.texture0_actived = true;
            },
            TextureUnit::Unit1 => {
                self.texture1_actived = true;
            },
        }
        self.texture0_actived && self.texture1_actived
    }
}

/// The page is drawn for the first time when the second of its two images
/// arrives, whichever comes first: one arrival alone never draws a page of
/// which nothing was loaded, and the two arrivals together always do.
pub proof fn lemma_draws_once_both_arrived(first: TextureUnit, second: TextureUnit)
    ensures
        !complete(with_loaded(Loaded { texture0: false, texture1: false }, first)),
        complete(
            with_loaded(with_loaded(Loaded { texture0: false, texture1: false }, first), second),
        ) <==> first != second,
{
}

} // verus!

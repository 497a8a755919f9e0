use std::collections::HashMap;
use vstd::prelude::*;

verus! {

broadcast use vstd::std_specs::hash::group_hash_axioms;

/// The size of a framebuffer texture, in device pixels.
#[derive(Clone, Copy, Debug, PartialEq, Eq, Structural)]
pub struct FramebufferSize {
    pub width: i32,
    pub height: i32,
}

/// Texture coordinates of an image: from corner `(u0, v0)` to `(u1, v1)`.
#[derive(Clone, Copy, Debug, PartialEq, Eq, Structural)]
pub struct TexelRect {
    pub u0: i32,
    pub v0: i32,
    pub u1: i32,
    pub v1: i32,
}

/// What the compositor is handed for a locked external image: the native
/// texture and the part of it to sample.
#[derive(Clone, Copy, Debug, PartialEq, Eq, Structural)]
pub struct LockedTexture {
    pub texture_id: u32,
    pub uv: TexelRect,
}

/// The texture coordinates of a whole texture of the given size, upside down
/// where it must be flipped.
pub open spec fn texture_uv(size: FramebufferSize, need_flip: bool) -> TexelRect {
    if need_flip {
        TexelRect { u0: 0, v0: size.height, u1: size.width, v1: 0 }
    } else {
        TexelRect { u0: 0, v0: 0, u1: size.width, v1: size.height }
    }
}

/// The registered GPU textures: for each texture id, its size and whether it
/// is stored upside down.
pub struct TextureTable {
    textures: HashMap<u32, (FramebufferSize, bool)>,
}

impl View for TextureTable {
    type V = Map<u32, (FramebufferSize, bool)>;

    closed spec fn view(&self) -> Map<u32, (FramebufferSize, bool)> {
        self.textures@
    }
}

impl TextureTable {
    /// A table with no texture registered.
    pub fn new() -> (r: TextureTable)
        ensures
            r@ == Map::<u32, (FramebufferSize, bool)>::empty(),
    {
        TextureTable { textures: HashMap::new() }
    }

    /// Registers a texture, replacing what was known of the same id.
    pub fn insert(&mut self, texture_id: u32, size: FramebufferSize, need_flip: bool)
        ensures
            final(self)@ == old(self)@.insert(texture_id, (size, need_flip)),
    {
        self.textures.insert(texture_id, (size, need_flip));
    }

    /// Whether a texture id has been registered.
    pub fn contains(&self, texture_id: u32) -> (r: bool)
        ensures
            r == self@.contains_key(texture_id),
    {
        self.textures.contains_key(&texture_id)
    }

    /// The size and flip flag of a registered texture; `None` for an id never
    /// registered.
    pub fn get(&self, texture_id: u32) -> (r: Option<(FramebufferSize, bool)>)
        ensures
            r.is_some() == self@.contains_key(texture_id),
            r.is_some() ==> r.unwrap() == self@[texture_id],
    {
        match self.textures.get(&texture_id) {
            Some(entry) => Some(*entry),
            None => None,
        }
    }

    /// Locks the external image with the given key: the key's low 32 bits
    /// name a texture, which must have been registered before.
    pub fn lock(&self, key: u64) -> (r: LockedTexture)
        requires
            self@.contains_key(key as u32),
        ensures
            r.texture_id == key as u32,
            r.uv == texture_uv(self@[key as u32].0, self@[key as u32].1),
    {
        let texture_id = key as u32;
        let (size, need_flip) = *self.textures.get(&texture_id).unwrap();
        let uv = if need_flip {
            TexelRect { u0: 0, v0: size.height, u1: size.width, v1: 0 }
        } else {
            TexelRect { u0: 0, v0: 0, u1: size.width, v1: size.height }
        };
        LockedTexture { texture_id, uv }
    }
}

} // verus!

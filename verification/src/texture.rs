//! Texture identifiers, texture deltas and the GPU work they call for.

use vstd::prelude::*;

verus! {

/// Names a texture that UI meshes can refer to.
///
/// The toolkit issues the `Managed` identifiers; the bridge issues the `User`
/// identifiers for images that the application registers.  The two ranges
/// never meet.
#[derive(Clone, Copy, Debug, PartialEq, Eq, Hash, Structural)]
pub enum TextureId {
    Managed(u64),
    User(u64),
}

impl TextureId {
    /// Whether the toolkit owns the texture.
    pub fn is_managed(&self) -> (r: bool)
        ensures
            r == (*self is Managed),
    {
        match self {
            TextureId::Managed(_) => true,
            TextureId::User(_) => false,
        }
    }
}

/// Width and height of an image, in texels.
#[derive(Clone, Copy, Debug, PartialEq, Eq, Structural)]
pub struct ImageExtent {
    pub width: u32,
    pub height: u32,
}

impl ImageExtent {
    /// How many bytes the RGBA texels of an image of this extent take.
    pub open spec fn texel_bytes(self) -> int {
        4 * (self.width * self.height)
    }
}

/// Pixel data for a texture or for a rectangle of one.
///
/// `pixels` holds RGBA texels, row by row, for an area of `extent`.  With a
/// position the update covers the rectangle that starts there; without one it
/// starts at the origin.
#[derive(Clone, Debug, PartialEq, Eq)]
pub struct ImageUpdate {
    pub pos: Option<(u32, u32)>,
    pub extent: ImageExtent,
    pub pixels: Vec<u8>,
}

impl ImageUpdate {
    /// Where the update starts within the texture.
    pub open spec fn origin(self) -> (u32, u32) {
        match self.pos {
            Some(p) => p,
            None => (0, 0),
        }
    }
}

/// One entry of a texture delta.
#[derive(Clone, Debug, PartialEq, Eq)]
pub enum DeltaEntry {
    /// Create the texture, or overwrite a rectangle of it.
    Update { id: TextureId, image: ImageUpdate },
    /// Drop the texture.
    Remove { id: TextureId },
}

impl DeltaEntry {
    /// The texture that the entry is about.
    pub open spec fn target(self) -> TextureId {
        match self {
            DeltaEntry::Update { id, .. } => id,
            DeltaEntry::Remove { id } => id,
        }
    }
}

/// What the toolkit reports of its textures at the end of a frame: the
/// updates that the frame's meshes need, and the textures that it lets go of
/// once the frame is painted.
#[derive(Clone, Debug, PartialEq, Eq)]
pub struct TextureChanges {
    pub updates: Vec<(TextureId, ImageUpdate)>,
    pub frees: Vec<TextureId>,
}

/// One piece of work on GPU images, for the backend to carry out.
#[derive(Clone, Debug, PartialEq, Eq)]
pub enum TextureOp {
    /// Allocate an image of `extent` for `id` and fill it with `pixels`.
    Allocate { id: TextureId, extent: ImageExtent, pixels: Vec<u8> },
    /// Overwrite the rectangle of `extent` at (`x`, `y`) of the image of `id`.
    Upload { id: TextureId, x: u32, y: u32, extent: ImageExtent, pixels: Vec<u8> },
    /// Let go of the image of `id`: free it if the bridge owns it, otherwise
    /// drop the bridge's reference.
    Release { id: TextureId },
}

} // verus!

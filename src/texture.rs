//! Textures: their creation parameters and region uploads.
use vstd::prelude::*;

verus! {

/// How a texture is sampled between texels.
#[derive(Clone, Copy, Debug, PartialEq, Eq, Structural)]
pub enum TextureFiltering {
    Linear,
    Nearest,
}

/// Bytes per texel: the textures hold RGBA with one byte per channel.
pub const BYTES_PER_TEXEL: u64 = 4;

/// An RGBA image, row by row, four bytes per pixel.
#[derive(Clone, Debug)]
pub struct Image {
    pub width: u32,
    pub height: u32,
    pub data: Vec<u8>,
}

/// A texture object of the driver, with the size and filter it was created
/// with. Copies share the same driver object.
#[derive(Clone, Copy, Debug, PartialEq, Eq, Structural)]
pub struct Texture {
    pub gl_ref: u32,
    pub width: u32,
    pub height: u32,
    pub filtering: TextureFiltering,
}

/// A rectangle of texels to be copied from an image into a texture.
#[derive(Clone, Copy, Debug, PartialEq, Eq, Structural)]
pub struct RegionUpload {
    pub texture: u32,
    pub x: u32,
    pub y: u32,
    pub width: u32,
    pub height: u32,
}

/// Why a region cannot be copied into a texture.
#[derive(Clone, Copy, Debug, PartialEq, Eq, Structural)]
pub enum RegionError {
    /// The region reaches past the right or bottom edge of the texture.
    OutOfBounds,
    /// The image holds another number of bytes than its size calls for.
    ImageDataMismatch,
}

/// The filter a texture gets when none is asked for.
pub open spec fn effective_filtering(filtering: Option<TextureFiltering>) -> TextureFiltering {
    match filtering {
        Some(f) => f,
        None => TextureFiltering::Linear,
    }
}

/// Whether the image placed at `offset` lies inside the texture.
pub open spec fn region_in_bounds(t: Texture, image: Image, offset: (u32, u32)) -> bool {
    offset.0 as int + image.width as int <= t.width as int
        && offset.1 as int + image.height as int <= t.height as int
}

/// Whether the image's bytes are exactly its pixels.
pub open spec fn image_well_formed(image: Image) -> bool {
    image.data@.len() == image.width as int * image.height as int * BYTES_PER_TEXEL as int
}

impl Texture {
    /// A texture for the driver object `gl_ref`, of the given size, filtered
    /// linearly unless another filter is asked for.
    pub fn new(gl_ref: u32, size: (u32, u32), filtering: Option<TextureFiltering>) -> (r: Texture)
        ensures
            r == (Texture {
                gl_ref,
                width: size.0,
                height: size.1,
                filtering: effective_filtering(filtering),
            }),
    {
        let filtering = match filtering {
            Some(f) => f,
            None => TextureFiltering::Linear,
        };
        Texture { gl_ref, width: size.0, height: size.1, filtering }
    }

    pub fn gl_ref(&self) -> (r: u32)
        ensures
            r == self.gl_ref,
    {
        self.gl_ref
    }

    /// The upload that copies `image` into this texture with its top-left
    /// corner at `offset`. Fails when the region leaves the texture, or else
    /// when the image's bytes do not match its size.
    pub fn set_region(&self, image: &Image, offset: (u32, u32)) -> (r: Result<RegionUpload, RegionError>)
        ensures
            !region_in_bounds(*self, *image, offset) ==> r == Err::<RegionUpload, RegionError>(
                RegionError::OutOfBounds,
            ),
            region_in_bounds(*self, *image, offset) && !image_well_formed(*image) ==> r == Err::<
                RegionUpload,
                RegionError,
            >(RegionError::ImageDataMismatch),
            region_in_bounds(*self, *image, offset) && image_well_formed(*image) ==> r == Ok::<
                RegionUpload,
                RegionError,
            >(
                RegionUpload {
                    texture: self.gl_ref,
                    x: offset.0,
                    y: offset.1,
                    width: image.width,
                    height: image.height,
                },
            ),
    {
        if offset.0 as u64 + image.width as u64 > self.width as u64 || offset.1 as u64
            + image.height as u64 > self.height as u64 {
            return Err(RegionError::OutOfBounds);
        }
        proof {
            assert(image.width as u64 * image.height as u64 <= 0xffff_ffff_u64 * 0xffff_ffff_u64)
                by (nonlinear_arith);
        }
        let pixels: u64 = image.width as u64 * image.height as u64;
        let len: usize = image.data.len();
        if pixels > 0x3fff_ffff_ffff_ffff || len as u64 != pixels * BYTES_PER_TEXEL {
            return Err(RegionError::ImageDataMismatch);
        }
        Ok(
            RegionUpload {
                texture: self.gl_ref,
                x: offset.0,
                y: offset.1,
                width: image.width,
                height: image.height,
            },
        )
    }
}

/// Creates the texture for driver object `gl_ref`; see [`Texture::new`].
pub fn create_texture(gl_ref: u32, size: (u32, u32), filtering: Option<TextureFiltering>) -> (r:
    Texture)
    ensures
        r == (Texture {
            gl_ref,
            width: size.0,
            height: size.1,
            filtering: effective_filtering(filtering),
        }),
{
    Texture::new(gl_ref, size, filtering)
}

} // verus!

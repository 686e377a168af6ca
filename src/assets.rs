//! What becomes of an asset that failed to load: a missing texture degrades
//! to a single opaque white texel; every other failure is passed on.
use vstd::prelude::*;

verus! {

/// Why an asset could not be loaded.
#[derive(Clone, Copy, Debug, PartialEq, Eq, Structural)]
pub enum AssetError {
    /// Nothing was found under the asset's name.
    NotFound,
    /// Reading the asset failed.
    Io,
    /// The asset's bytes could not be decoded.
    Decode,
}

/// Where the pixels of a texture come from.
#[derive(Debug)]
pub enum TextureSource {
    /// An encoded image file.
    Encoded(Vec<u8>),
    /// Raw RGBA pixels, row by row.
    Rgba { width: u32, height: u32, pixels: Vec<u8> },
}

/// One opaque white texel, as RGBA.
pub open spec fn white_texel() -> Seq<u8> {
    seq![255u8, 255u8, 255u8, 255u8]
}

/// Whether a texture is the single opaque white texel.
pub open spec fn is_white_fallback(t: TextureSource) -> bool {
    t matches TextureSource::Rgba { width, height, pixels } && width == 1 && height == 1
        && pixels@ == white_texel()
}

/// The texture that stands in for a missing one.
pub fn fallback_texture() -> (r: TextureSource)
    ensures
        is_white_fallback(r),
{
    let pixels: Vec<u8> = vec![255u8, 255u8, 255u8, 255u8];
    assert(pixels@ =~= white_texel());
    TextureSource::Rgba { width: 1, height: 1, pixels }
}

/// The texture to build from the outcome of loading its file: the file's
/// bytes, the fallback when it is missing, else the error.
pub fn texture_source(loaded: Result<Vec<u8>, AssetError>) -> (r: Result<TextureSource, AssetError>)
    ensures
        match loaded {
            Ok(bytes) => r matches Ok(TextureSource::Encoded(b)) && b@ == bytes@,
            Err(AssetError::NotFound) => r matches Ok(t) && is_white_fallback(t),
            Err(e) => r == Err::<TextureSource, AssetError>(e),
        },
{
    match loaded {
        Ok(bytes) => Ok(TextureSource::Encoded(bytes)),
        Err(AssetError::NotFound) => Ok(fallback_texture()),
        Err(e) => Err(e),
    }
}

/// Index of the material a mesh uses: the one it names, else the first.
pub fn material_index(named: Option<usize>) -> (r: usize)
    ensures
        r == match named {
            Some(i) => i,
            None => 0,
        },
{
    match named {
        Some(i) => i,
        None => 0,
    }
}

} // verus!

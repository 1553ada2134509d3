//! Textures of a GL context as surfaces to draw on.
use vstd::prelude::*;

use crate::skia::reshape_common::VideoFormat;

verus! {

/// The target and the format of the textures.
pub const TEXTURE_2D: u32 = 0x0DE1;

pub const RGBA8: u32 = 0x8058;

/// The colors of an image or of a surface.
#[derive(Clone, Copy, Debug, PartialEq, Eq, Structural)]
pub enum ColorType {
    Rgba8888,
    Bgra8888,
    Rgb888x,
}

/// The texture behind frames of a format.
#[derive(Clone, Copy, Debug, PartialEq, Eq, Structural)]
pub struct TextureInfo {
    pub target: u32,
    pub id: u32,
    pub format: u32,
}

/// A texture of a size.
#[derive(Clone, Copy, Debug, PartialEq, Eq, Structural)]
pub struct BackendTexture {
    pub width: i32,
    pub height: i32,
    pub info: TextureInfo,
}

/// Why a texture is not drawn with.
#[derive(Clone, Copy, Debug, PartialEq, Eq, Structural)]
pub struct UnsupportedFormat {
    pub format: VideoFormat,
}

/// Describes the texture with the given number and size to the drawing library:
/// only textures with an alpha channel, in that order, are understood.
pub fn create_backend_texture_from_gl(
    texture_id: u32,
    width: i32,
    height: i32,
    format: VideoFormat,
) -> (r: Result<BackendTexture, UnsupportedFormat>)
    ensures
        r == (if format is Rgba {
            Ok::<BackendTexture, UnsupportedFormat>(
                BackendTexture {
                    width,
                    height,
                    info: TextureInfo { target: TEXTURE_2D, id: texture_id, format: RGBA8 },
                },
            )
        } else {
            Err(UnsupportedFormat { format })
        }),
{
    match format {
        VideoFormat::Rgba => Ok(
            BackendTexture {
                width,
                height,
                info: TextureInfo { target: TEXTURE_2D, id: texture_id, format: RGBA8 },
            },
        ),
        _ => Err(UnsupportedFormat { format }),
    }
}

/// The colors of a surface on a texture.
pub fn create_surface_from_backend_texture(format: VideoFormat) -> (r: Result<
    ColorType,
    UnsupportedFormat,
>)
    ensures
        r == (if format is Rgba {
            Ok::<ColorType, UnsupportedFormat>(ColorType::Rgba8888)
        } else {
            Err(UnsupportedFormat { format })
        }),
{
    match format {
        VideoFormat::Rgba => Ok(ColorType::Rgba8888),
        _ => Err(UnsupportedFormat { format }),
    }
}

/// A texture is described, and drawn on, exactly where its frames have an alpha channel
/// behind the colors; it keeps its number and its size.
pub proof fn law_textures_have_an_alpha_channel(
    id: u32,
    width: i32,
    height: i32,
    format: VideoFormat,
    texture: Result<BackendTexture, UnsupportedFormat>,
    color: Result<ColorType, UnsupportedFormat>,
)
    requires
        call_ensures(create_backend_texture_from_gl, (id, width, height, format), texture),
        call_ensures(create_surface_from_backend_texture, (format,), color),
    ensures
        texture is Ok <==> format is Rgba,
        color is Ok <==> format is Rgba,
        texture matches Ok(t) ==> t.width == width && t.height == height && t.info.id == id,
        texture matches Ok(t) ==> t.info.target == 0x0DE1 && t.info.format == 0x8058,
        color matches Ok(c) ==> c is Rgba8888,
        texture matches Err(e) ==> e.format == format,
        color matches Err(e) ==> e.format == format,
{
}

} // verus!

//! The element that reshapes frames in textures.
use vstd::prelude::*;

use crate::skia::gl::{
    create_backend_texture_from_gl, create_surface_from_backend_texture, BackendTexture, ColorType,
    TextureInfo, RGBA8, TEXTURE_2D,
};
use crate::skia::reshape_common::{ReshapeCommon, VideoFormat, VideoInfo};

verus! {

/// Why a frame is not reshaped.
#[derive(Clone, Copy, Debug, PartialEq, Eq, Structural)]
pub enum FilterError {
    NoInputInfo,
    NoOutputInfo,
    InputNotGl,
    OutputNotGl,
    UnsupportedInputFormat,
    UnsupportedOutputFormat,
    ContextAbandoned,
    InvalidImage,
}

/// What to draw where.
#[derive(Clone, Copy, Debug, PartialEq, Eq, Structural)]
pub struct FilterJob {
    pub in_info: VideoInfo,
    pub out_info: VideoInfo,
    pub input_texture: u32,
    pub output_texture: u32,
}

/// The textures to draw from and on, each of the size of its frames, and their
/// colors.
#[derive(Clone, Copy, Debug, PartialEq, Eq, Structural)]
pub struct RenderJob {
    pub input: BackendTexture,
    pub output: BackendTexture,
    pub surface_color: ColorType,
    pub image_color: ColorType,
}

/// Reshapes frames in textures.
#[derive(Clone, Copy, Debug, PartialEq, Eq, Structural)]
pub struct SkiaReshapeGL {
    pub common: ReshapeCommon,
}

impl SkiaReshapeGL {
    pub open spec fn color_type(format: VideoFormat) -> Option<ColorType> {
        match format {
            VideoFormat::Rgba => Some(ColorType::Rgba8888),
            VideoFormat::Bgra => Some(ColorType::Bgra8888),
            VideoFormat::Rgb => Some(ColorType::Rgb888x),
            VideoFormat::Other => None,
        }
    }

    /// The colors of frames of a format.
    pub fn video_format_to_skia_color_type(format: VideoFormat) -> (r: Option<ColorType>)
        ensures
            r == Self::color_type(format),
    {
        match format {
            VideoFormat::Rgba => Some(ColorType::Rgba8888),
            VideoFormat::Bgra => Some(ColorType::Bgra8888),
            VideoFormat::Rgb => Some(ColorType::Rgb888x),
            VideoFormat::Other => None,
        }
    }

    /// What to draw where, when the memory of the two buffers is in the given
    /// textures, as far as it is in textures.
    pub fn filter(&self, input_texture: Option<u32>, output_texture: Option<u32>) -> (r: Result<
        FilterJob,
        FilterError,
    >)
        ensures
            r == (match (self.common.state.in_info, self.common.state.out_info) {
                (None, _) => Err::<FilterJob, FilterError>(FilterError::NoInputInfo),
                (Some(_), None) => Err(FilterError::NoOutputInfo),
                (Some(in_info), Some(out_info)) => match (input_texture, output_texture) {
                    (None, _) => Err(FilterError::InputNotGl),
                    (Some(_), None) => Err(FilterError::OutputNotGl),
                    (Some(input_texture), Some(output_texture)) => Ok(
                        FilterJob { in_info, out_info, input_texture, output_texture },
                    ),
                },
            }),
    {
        let in_info = match self.common.state.in_info {
            Some(info) => info,
            None => {
                return Err(FilterError::NoInputInfo);
            },
        };
        let out_info = match self.common.state.out_info {
            Some(info) => info,
            None => {
                return Err(FilterError::NoOutputInfo);
            },
        };
        let input_texture: u32 = match input_texture {
            Some(texture) => texture,
            None => {
                return Err(FilterError::InputNotGl);
            },
        };
        let output_texture: u32 = match output_texture {
            Some(texture) => texture,
            None => {
                return Err(FilterError::OutputNotGl);
            },
        };
        Ok(FilterJob { in_info, out_info, input_texture, output_texture })
    }

    /// The texture that holds a frame.
    pub open spec fn texture(id: u32, info: VideoInfo) -> BackendTexture {
        BackendTexture {
            width: info.width as i32,
            height: info.height as i32,
            info: TextureInfo { target: TEXTURE_2D, id, format: RGBA8 },
        }
    }

    /// The textures to draw from and on: frames of both sides need an alpha
    /// channel.
    pub fn render_with_skia(job: &FilterJob) -> (r: Result<RenderJob, FilterError>)
        ensures
            r == (if !(job.in_info.format is Rgba) {
                Err::<RenderJob, FilterError>(FilterError::UnsupportedInputFormat)
            } else if !(job.out_info.format is Rgba) {
                Err(FilterError::UnsupportedOutputFormat)
            } else {
                Ok(
                    RenderJob {
                        input: Self::texture(job.input_texture, job.in_info),
                        output: Self::texture(job.output_texture, job.out_info),
                        surface_color: ColorType::Rgba8888,
                        image_color: ColorType::Rgba8888,
                    },
                )
            }),
    {
        let input = match create_backend_texture_from_gl(
            job.input_texture,
            job.in_info.width as i32,
            job.in_info.height as i32,
            job.in_info.format,
        ) {
            Ok(texture) => texture,
            Err(_) => {
                return Err(FilterError::UnsupportedInputFormat);
            },
        };
        let output = match create_backend_texture_from_gl(
            job.output_texture,
            job.out_info.width as i32,
            job.out_info.height as i32,
            job.out_info.format,
        ) {
            Ok(texture) => texture,
            Err(_) => {
                return Err(FilterError::UnsupportedOutputFormat);
            },
        };
        let surface_color = match create_surface_from_backend_texture(job.out_info.format) {
            Ok(color) => color,
            Err(_) => {
                return Err(FilterError::UnsupportedOutputFormat);
            },
        };
        let image_color = match Self::video_format_to_skia_color_type(job.in_info.format) {
            Some(color) => color,
            None => {
                return Err(FilterError::UnsupportedInputFormat);
            },
        };
        Ok(RenderJob { input, output, surface_color, image_color })
    }

    /// Whether to draw, once the image was made.
    pub fn check_image(context_abandoned: bool, image_valid: bool) -> (r: Result<(), FilterError>)
        ensures
            r == (if context_abandoned {
                Err::<(), FilterError>(FilterError::ContextAbandoned)
            } else if !image_valid {
                Err(FilterError::InvalidImage)
            } else {
                Ok(())
            }),
    {
        if context_abandoned {
            Err(FilterError::ContextAbandoned)
        } else if !image_valid {
            Err(FilterError::InvalidImage)
        } else {
            Ok(())
        }
    }
}

/// A frame is drawn from its input to its output as was agreed upon: nothing is mixed up.
pub proof fn law_frames_are_drawn_from_input_to_output(
    element: SkiaReshapeGL,
    input: Option<u32>,
    output: Option<u32>,
    r: Result<FilterJob, FilterError>,
)
    requires
        call_ensures(SkiaReshapeGL::filter, (&element, input, output), r),
    ensures
        r is Ok <==> element.common.state.in_info is Some && element.common.state.out_info is Some
            && input is Some && output is Some,
        r matches Ok(job) ==> {
            &&& element.common.state.in_info == Some(job.in_info)
            &&& element.common.state.out_info == Some(job.out_info)
            &&& input == Some(job.input_texture)
            &&& output == Some(job.output_texture)
        },
        r matches Err(e) ==> {
            &&& e is NoInputInfo <==> element.common.state.in_info is None
            &&& e is NoOutputInfo <==> element.common.state.in_info is Some
                && element.common.state.out_info is None
            &&& element.common.state.in_info is Some && element.common.state.out_info is Some
                && input is None ==> e is InputNotGl
            &&& element.common.state.in_info is Some && element.common.state.out_info is Some
                && input is Some ==> e is OutputNotGl
        },
{
}

/// Each side is drawn from and on its own texture, in its own size.
pub proof fn law_each_side_has_its_texture(job: FilterJob, r: Result<RenderJob, FilterError>)
    requires
        call_ensures(SkiaReshapeGL::render_with_skia, (&job,), r),
    ensures
        r is Ok <==> job.in_info.format is Rgba && job.out_info.format is Rgba,
        r matches Ok(textures) ==> {
            &&& textures.input.info.id == job.input_texture
            &&& textures.output.info.id == job.output_texture
            &&& job.in_info.width <= i32::MAX ==> textures.input.width == job.in_info.width
            &&& job.in_info.height <= i32::MAX ==> textures.input.height == job.in_info.height
            &&& job.out_info.width <= i32::MAX ==> textures.output.width == job.out_info.width
            &&& job.out_info.height <= i32::MAX ==> textures.output.height == job.out_info.height
            &&& textures.input.info.target == 0x0DE1 && textures.output.info.target == 0x0DE1
            &&& textures.input.info.format == 0x8058 && textures.output.info.format == 0x8058
            &&& textures.surface_color is Rgba8888 && textures.image_color is Rgba8888
        },
        r matches Err(e) ==> {
            &&& e is UnsupportedInputFormat <==> !(job.in_info.format is Rgba)
            &&& e is UnsupportedOutputFormat <==> job.in_info.format is Rgba
        },
{
}

/// Formats that differ have colors that differ, and an unknown one has none.
pub proof fn law_colors_tell_formats_apart(
    a: VideoFormat,
    b: VideoFormat,
    x: Option<ColorType>,
    y: Option<ColorType>,
)
    requires
        call_ensures(SkiaReshapeGL::video_format_to_skia_color_type, (a,), x),
        call_ensures(SkiaReshapeGL::video_format_to_skia_color_type, (b,), y),
    ensures
        x == y <==> a == b,
        x is None <==> a is Other,
        x == Some(ColorType::Rgba8888) <==> a is Rgba,
        x == Some(ColorType::Bgra8888) <==> a is Bgra,
        x == Some(ColorType::Rgb888x) <==> a is Rgb,
{
}

/// An image is drawn exactly where it is valid and its context is alive; a context that is
/// not is told first.
pub proof fn law_valid_images_are_drawn(abandoned: bool, valid: bool, r: Result<(), FilterError>)
    requires
        call_ensures(SkiaReshapeGL::check_image, (abandoned, valid), r),
    ensures
        r is Ok <==> valid && !abandoned,
        r matches Err(e) ==> (e is ContextAbandoned <==> abandoned),
        r matches Err(e) ==> (e is InvalidImage <==> !abandoned),
{
}

} // verus!

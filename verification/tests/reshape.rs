use gstplugins::skia::gl::{
    create_backend_texture_from_gl, create_surface_from_backend_texture, BackendTexture, ColorType,
    TextureInfo, UnsupportedFormat,
};
use gstplugins::skia::reshape::SkiaReshape;
use gstplugins::skia::reshape_common::{
    AxisFacts, AxisRects, CapsSize, CompositionMeta, Extent, FrameSizes, ImageChoice, InputCaps,
    PositionRect, Property, PropertyValue, ReshapeCommon, Single, Size, SizesError, Term,
    VideoFormat, VideoInfo,
};
use gstplugins::skia::reshapegl::{FilterError, FilterJob, RenderJob, SkiaReshapeGL};
use gstplugins::values::FlowError;

fn info(width: u32, height: u32) -> VideoInfo {
    VideoInfo { format: VideoFormat::Rgba, width, height }
}

fn size(width: i64, height: i64) -> Size {
    Size { width, height }
}

fn caps_size(width: Option<i32>, height: Option<i32>) -> CapsSize {
    CapsSize { width, height }
}

fn position(left: f32, top: f32, width: f32, height: f32) -> PositionRect {
    let single = |value: f32| Single { bits: value.to_bits() };
    PositionRect {
        left: single(left),
        top: single(top),
        right: single(left + width),
        bottom: single(top + height),
    }
}

const PROPERTIES: [(&str, Property, PropertyValue); 8] = [
    ("border-radius-px", Property::BorderRadiusPx, PropertyValue::Double(11)),
    ("corner-smoothing-pct", Property::CornerSmoothingPct, PropertyValue::Double(12)),
    ("padding-px", Property::PaddingPx, PropertyValue::Int(13)),
    ("crop-left", Property::CropLeft, PropertyValue::Int(14)),
    ("crop-right", Property::CropRight, PropertyValue::Int(15)),
    ("crop-top", Property::CropTop, PropertyValue::Int(16)),
    ("crop-bottom", Property::CropBottom, PropertyValue::Int(17)),
    ("disable-crop-optimization", Property::DisableCropOptimization, PropertyValue::Boolean(false)),
];

#[test]
fn properties_are_set_one_by_one() {
    for (name, property, value) in PROPERTIES {
        assert_eq!(Property::from_name(name), Some(property));
        let mut settings = ReshapeCommon::new().settings;
        settings.set_property(property, value);
        for (_, other, _) in PROPERTIES {
            let expected = if other == property {
                value
            } else {
                ReshapeCommon::new().settings.property(other)
            };
            assert_eq!(settings.property(other), expected);
        }
    }
    assert_eq!(Property::from_name("crop"), None);
}

#[test]
fn settings_have_sensible_defaults() {
    let common = ReshapeCommon::new();
    assert_eq!(common.settings.border_radius_px, 0f64.to_bits());
    assert_eq!(common.settings.corner_smoothing_pct, 0f64.to_bits());
    assert_eq!(common.settings.padding_px, 0);
    assert!(common.settings.disable_crop_optimization);
    assert_eq!(common.state.in_info, None);
}

#[test]
fn sizes_come_from_what_was_agreed_upon() {
    let mut common = ReshapeCommon::new();
    assert_eq!(common.frame_sizes(None), Err(SizesError::NoStateYet));
    let unfixed = InputCaps { fixed: false, info: Some(info(1, 2)) };
    assert_eq!(common.frame_sizes(Some(unfixed)), Err(SizesError::NotNegotiated));
    let unparsed = InputCaps { fixed: true, info: None };
    assert_eq!(common.frame_sizes(Some(unparsed)), Err(SizesError::NotNegotiated));
    let fixed = Some(InputCaps { fixed: true, info: Some(info(320, 240)) });
    let input = size(320, 240);
    assert_eq!(
        common.frame_sizes(fixed),
        Ok(FrameSizes { input, compositor: input, in_frame: input, out_frame: input })
    );
    common.setup_compositor_size(&vec![caps_size(Some(1920), Some(1080))]);
    let compositor = size(1920, 1080);
    assert_eq!(
        common.frame_sizes(fixed),
        Ok(FrameSizes { input, compositor, in_frame: compositor, out_frame: compositor })
    );
    assert!(!common.set_caps(Some(info(1, 1)), None));
    assert!(!common.set_caps(None, Some(info(1, 1))));
    assert!(common.set_caps(Some(info(640, 480)), Some(info(100, 50))));
    assert_eq!(
        common.frame_sizes(fixed),
        Ok(FrameSizes {
            input: size(640, 480),
            compositor,
            in_frame: size(640, 480),
            out_frame: size(100, 50),
        })
    );
}

#[test]
fn last_full_restriction_is_the_compositor_size() {
    let mut common = ReshapeCommon::new();
    common.setup_compositor_size(&vec![
        caps_size(Some(1), Some(2)),
        caps_size(Some(3), Some(4)),
        caps_size(Some(5), None),
        caps_size(None, Some(6)),
    ]);
    assert_eq!(common.state.compositor_size, Some(size(3, 4)));
    common.setup_compositor_size(&vec![]);
    assert_eq!(common.state.compositor_size, None);
}

// One axis of an image in the compositor.
struct Axis {
    position: f32,
    length: f32,
    padding: f32,
    compositor: f32,
    input: f32,
}

impl Axis {
    fn rect_end(&self) -> f32 {
        self.position + self.length
    }

    fn image_start(&self) -> f32 {
        self.position + self.padding
    }

    fn image_end(&self) -> f32 {
        self.image_start() + self.length - 2.0 * self.padding
    }

    fn facts(&self) -> AxisFacts {
        AxisFacts {
            image_sized: self.image_end() - self.image_start() > 0.0,
            image_before_start: self.image_start() < 0.0,
            rect_before_start: self.position < 0.0,
            image_past_end: self.image_end() > self.compositor,
            rect_past_end: self.rect_end() > self.compositor,
        }
    }

    fn sum(&self, terms: &[Term]) -> f32 {
        let image_size = self.image_end() - self.image_start();
        let scale = self.input / image_size;
        let value = |term: &Term| match term {
            Term::Fraction => self.position - self.position.floor(),
            Term::Padding => self.padding,
            Term::ImageStart => self.image_start(),
            Term::ImageSize => image_size,
            Term::RectStart => self.position,
            Term::RectSize => self.length,
            Term::OutFrameLessPadding => panic!("the image has a size"),
            Term::ImageOverhang => self.compositor - self.image_end(),
            Term::RectOverhang => self.compositor - self.rect_end(),
            Term::CropStart => 0.0,
            Term::SourceEnd => self.input,
            Term::ScaledImageStart => -(self.image_start() * scale),
            Term::ScaledImageOverhang => (self.compositor - self.image_end()) * scale,
        };
        terms.iter().map(value).sum()
    }

    fn numbers(&self, rects: &AxisRects) -> [f32; 8] {
        [
            self.sum(&rects.src_start),
            self.sum(&rects.src_end),
            self.sum(&rects.dst_start),
            self.sum(&rects.dst_size),
            self.sum(&rects.original_start),
            self.sum(&rects.original_size),
            self.sum(&rects.out_start),
            self.sum(&rects.out_size),
        ]
    }
}

fn rects(optimize: bool, axis: &Axis) -> [f32; 8] {
    let mut common = ReshapeCommon::new();
    common.settings.disable_crop_optimization = !optimize;
    let rects = common.compute_src_image_and_dest_rects(&axis.facts(), &axis.facts());
    assert_eq!(rects.cropped, optimize);
    let horizontal = axis.numbers(&rects.horizontal);
    assert_eq!(horizontal, axis.numbers(&rects.vertical));
    horizontal
}

#[test]
fn only_the_visible_part_is_drawn() {
    // The image is twice as large as the input, and sticks out on both sides.
    let axis = Axis { position: -20.0, length: 200.0, padding: 0.0, compositor: 100.0, input: 100.0 };
    assert_eq!(rects(true, &axis), [10.0, 60.0, 0.0, 100.0, -20.0, 200.0, -20.0, 100.0]);
    assert_eq!(rects(false, &axis), [0.0, 100.0, 0.0, 200.0, 0.0, 200.0, -20.0, 200.0]);
}

#[test]
fn only_the_padding_may_stick_out() {
    let axis = Axis { position: -4.0, length: 60.0, padding: 10.0, compositor: 50.0, input: 40.0 };
    assert_eq!(rects(true, &axis), [0.0, 40.0, 6.0, 40.0, 6.0, 40.0, -4.0, 50.0]);
}

#[test]
fn images_inside_are_drawn_whole() {
    let axis = Axis { position: 5.5, length: 60.0, padding: 10.0, compositor: 100.0, input: 80.0 };
    let whole = [0.0, 80.0, 10.5, 40.0, 10.5, 40.0, 5.5, 60.0];
    assert_eq!(rects(true, &axis), whole);
    assert_eq!(rects(false, &axis), whole);
}

#[test]
fn drawn_parts_keep_the_scale() {
    let sticks_out =
        Axis { position: -20.0, length: 200.0, padding: 0.0, compositor: 100.0, input: 100.0 };
    let padded =
        Axis { position: -40.0, length: 148.0, padding: 10.0, compositor: 64.0, input: 32.0 };
    for axis in [sticks_out, padded] {
        for optimize in [false, true] {
            let [src_start, src_end, _, dst_size, _, original_size, ..] = rects(optimize, &axis);
            assert_eq!((src_end - src_start) * original_size, dst_size * axis.input);
        }
    }
}

#[test]
fn images_without_a_size_fill_the_output() {
    let facts = AxisFacts {
        image_sized: false,
        image_before_start: false,
        rect_before_start: false,
        image_past_end: false,
        rect_past_end: false,
    };
    let rects = ReshapeCommon::new().compute_src_image_and_dest_rects(&facts, &facts);
    assert_eq!(rects.horizontal.dst_size, [Term::OutFrameLessPadding]);
    assert_eq!(rects.vertical.original_size, [Term::OutFrameLessPadding]);
}

#[test]
fn requested_cropping_needs_a_part_of_the_input() {
    let axis = Axis { position: 0.0, length: 10.0, padding: 0.0, compositor: 10.0, input: 10.0 };
    let set: [fn(&mut ReshapeCommon); 4] = [
        |c| c.settings.crop_left = 1,
        |c| c.settings.crop_right = 1,
        |c| c.settings.crop_top = 1,
        |c| c.settings.crop_bottom = -1,
    ];
    for crop in set {
        let mut common = ReshapeCommon::new();
        crop(&mut common);
        let rects = common.compute_src_image_and_dest_rects(&axis.facts(), &axis.facts());
        assert!(rects.cropped);
        assert_eq!(ReshapeCommon::choose_image(&rects, true, true), ImageChoice::Subset);
        assert_eq!(ReshapeCommon::choose_image(&rects, false, true), ImageChoice::GpuFallback);
        assert_eq!(ReshapeCommon::choose_image(&rects, false, false), ImageChoice::RasterFallback);
    }
    let rects = ReshapeCommon::new().compute_src_image_and_dest_rects(&axis.facts(), &axis.facts());
    assert_eq!(ReshapeCommon::choose_image(&rects, false, false), ImageChoice::Whole);
}

#[test]
fn output_size_is_what_is_left() {
    let mut common = ReshapeCommon::new();
    let some = Extent { empty: false, pixels: 30 };
    let none = Extent { empty: true, pixels: 0 };
    assert_eq!(
        common.compute_output_size(Some((some, none)), (1, 2)),
        caps_size(Some(30), None)
    );
    assert_eq!(common.compute_output_size(None, (1, 2)), caps_size(None, None));
    common.state.compositor_position = Some(position(0.0, 0.0, 1.0, 2.0));
    assert_eq!(common.compute_output_size(None, (1, 2)), caps_size(Some(1), Some(2)));
}

#[test]
fn caps_are_cropped_and_padded() {
    let mut common = ReshapeCommon::new();
    common.settings.crop_left = 10;
    common.settings.crop_right = 20;
    common.settings.crop_top = 1;
    common.settings.crop_bottom = 2;
    common.settings.padding_px = 5;
    let unknown = caps_size(None, None);
    let large = caps_size(Some(i32::MAX), Some(240));
    assert!(common.can_transform_size(caps_size(Some(320), Some(240)), unknown));
    assert!(common.can_transform_size(large, caps_size(Some(7), None)));
    common.settings.crop_left = -1;
    assert!(!common.can_transform_size(large, unknown));
    common.settings.crop_left = 10;
    assert_eq!(
        common.transform_size(caps_size(Some(320), Some(240)), unknown),
        caps_size(Some(300), Some(247))
    );
    assert_eq!(
        common.transform_size(caps_size(None, Some(240)), unknown),
        caps_size(None, Some(247))
    );
    assert_eq!(
        common.transform_size(caps_size(Some(320), Some(240)), caps_size(Some(7), None)),
        caps_size(Some(7), Some(240))
    );
    assert_eq!(
        common.transform_size(caps_size(None, None), caps_size(Some(7), Some(8))),
        caps_size(Some(7), Some(8))
    );
}

#[test]
fn moved_frames_are_negotiated_anew() {
    let mut common = ReshapeCommon::new();
    assert!(!common.submit_input_buffer(None));
    let here = Some(position(0.0, 1.0, 2.0, 3.0));
    assert!(common.submit_input_buffer(here));
    assert_eq!(common.state.compositor_position, here);
    assert!(!common.submit_input_buffer(Some(position(-0.0, 1.0, 2.0, 3.0))));
    assert!(common.submit_input_buffer(Some(position(0.5, 1.0, 2.0, 3.0))));
    assert!(common.submit_input_buffer(None));
}

#[test]
fn metadata_tells_what_was_cut_off() {
    let mut common = ReshapeCommon::new();
    assert_eq!(common.copy_metadata(true, true, true), None);
    common.state.compositor_position = Some(position(-1.0, 0.0, 2.0, 2.0));
    let whole = CompositionMeta {
        final_size: false,
        x_at_zero: false,
        y_at_zero: false,
        original: false,
    };
    assert_eq!(common.copy_metadata(true, true, false), Some(whole));
    common.settings.disable_crop_optimization = false;
    assert_eq!(common.copy_metadata(false, true, false), Some(whole));
    assert_eq!(
        common.copy_metadata(true, true, false),
        Some(CompositionMeta { final_size: true, x_at_zero: true, y_at_zero: false, original: true })
    );
}

#[test]
fn frames_are_checked_before_drawing() {
    let mut element = SkiaReshape { common: ReshapeCommon::new() };
    assert_eq!(element.transform_frame_begin(true), Ok(None));
    assert_eq!(element.transform_frame_begin(false), Err(FlowError::NotNegotiated));
    element.common.set_caps(Some(info(3, 4)), Some(info(5, 6)));
    assert_eq!(element.transform_frame_begin(false), Ok(Some(info(5, 6))));
    let check = SkiaReshape::transform_frame_check;
    assert_eq!(check(20, 20, Some(120), 120), Ok(()));
    assert_eq!(check(19, 20, Some(120), 120), Err(FlowError::Error));
    assert_eq!(check(20, 20, Some(119), 120), Err(FlowError::Error));
    assert_eq!(check(20, 20, None, 120), Err(FlowError::Error));
}

#[test]
fn formats_have_colors() {
    let color = SkiaReshapeGL::video_format_to_skia_color_type;
    assert_eq!(color(VideoFormat::Rgba), Some(ColorType::Rgba8888));
    assert_eq!(color(VideoFormat::Bgra), Some(ColorType::Bgra8888));
    assert_eq!(color(VideoFormat::Rgb), Some(ColorType::Rgb888x));
    assert_eq!(color(VideoFormat::Other), None);
}

#[test]
fn textures_need_an_alpha_channel() {
    assert_eq!(
        create_backend_texture_from_gl(9, 3, 4, VideoFormat::Rgba),
        Ok(BackendTexture {
            width: 3,
            height: 4,
            info: TextureInfo { target: 0x0DE1, id: 9, format: 0x8058 },
        })
    );
    assert_eq!(
        create_surface_from_backend_texture(VideoFormat::Rgba),
        Ok(ColorType::Rgba8888)
    );
    for format in [VideoFormat::Bgra, VideoFormat::Rgb, VideoFormat::Other] {
        assert_eq!(
            create_backend_texture_from_gl(9, 3, 4, format),
            Err(UnsupportedFormat { format })
        );
        assert_eq!(create_surface_from_backend_texture(format), Err(UnsupportedFormat { format }));
    }
}

#[test]
fn textures_are_filtered() {
    let mut element = SkiaReshapeGL { common: ReshapeCommon::new() };
    assert_eq!(element.filter(Some(1), Some(2)), Err(FilterError::NoInputInfo));
    element.common.state.in_info = Some(info(3, 4));
    assert_eq!(element.filter(Some(1), Some(2)), Err(FilterError::NoOutputInfo));
    element.common.state.out_info = Some(info(5, 6));
    assert_eq!(element.filter(None, Some(2)), Err(FilterError::InputNotGl));
    assert_eq!(element.filter(Some(1), None), Err(FilterError::OutputNotGl));
    let job = FilterJob {
        in_info: info(3, 4),
        out_info: info(5, 6),
        input_texture: 1,
        output_texture: 2,
    };
    assert_eq!(element.filter(Some(1), Some(2)), Ok(job));
    let texture = |id: u32, width: i32, height: i32| BackendTexture {
        width,
        height,
        info: TextureInfo { target: 0x0DE1, id, format: 0x8058 },
    };
    assert_eq!(
        SkiaReshapeGL::render_with_skia(&job),
        Ok(RenderJob {
            input: texture(1, 3, 4),
            output: texture(2, 5, 6),
            surface_color: ColorType::Rgba8888,
            image_color: ColorType::Rgba8888,
        })
    );
    let bgra = VideoInfo { format: VideoFormat::Bgra, ..info(3, 4) };
    assert_eq!(
        SkiaReshapeGL::render_with_skia(&FilterJob { in_info: bgra, ..job }),
        Err(FilterError::UnsupportedInputFormat)
    );
    assert_eq!(
        SkiaReshapeGL::render_with_skia(&FilterJob { out_info: bgra, ..job }),
        Err(FilterError::UnsupportedOutputFormat)
    );
    assert_eq!(SkiaReshapeGL::check_image(true, true), Err(FilterError::ContextAbandoned));
    assert_eq!(SkiaReshapeGL::check_image(false, false), Err(FilterError::InvalidImage));
    assert_eq!(SkiaReshapeGL::check_image(false, true), Ok(()));
}

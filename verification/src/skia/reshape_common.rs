//! What the elements that reshape video have in common: their settings, the
//! size of their output, and where in it the image goes.
//!
//! Positions are fractions of pixels that the drawing library computes with.
//! Here every coordinate is given as the sum of terms that it consists of, in
//! the order in which they are added.
use vstd::prelude::*;

use crate::pull::text_eq;

verus! {

/// The bits of `0.0` and of infinity in single precision, and the sign bit.
pub const SINGLE_ZERO: u32 = 0;

pub const SINGLE_INFINITY: u32 = 0x7f80_0000;

pub const SINGLE_SIGN: u32 = 0x8000_0000;

/// A number held as the bits of an IEEE 754 single.
#[derive(Clone, Copy, Debug, PartialEq, Eq, Structural)]
pub struct Single {
    pub bits: u32,
}

impl Single {
    pub open spec fn zero(self) -> bool {
        self.bits == SINGLE_ZERO || self.bits == SINGLE_SIGN
    }

    pub open spec fn nan(self) -> bool {
        SINGLE_INFINITY < self.bits < SINGLE_SIGN || SINGLE_SIGN + SINGLE_INFINITY < self.bits
    }

    /// Floating-point equality.
    pub open spec fn same(self, other: Single) -> bool {
        ||| self.zero() && other.zero()
        ||| self.bits == other.bits && !self.nan()
    }

    pub fn equals(&self, other: &Single) -> (r: bool)
        ensures
            r == self.same(*other),
    {
        let self_zero = self.bits == SINGLE_ZERO || self.bits == SINGLE_SIGN;
        let other_zero = other.bits == SINGLE_ZERO || other.bits == SINGLE_SIGN;
        let nan = if self.bits < SINGLE_SIGN {
            self.bits > SINGLE_INFINITY
        } else {
            self.bits - SINGLE_SIGN > SINGLE_INFINITY
        };
        (self_zero && other_zero) || (self.bits == other.bits && !nan)
    }
}

/// Where the compositor is going to put the frame.
#[derive(Clone, Copy, Debug, PartialEq, Eq, Structural)]
pub struct PositionRect {
    pub left: Single,
    pub top: Single,
    pub right: Single,
    pub bottom: Single,
}

impl PositionRect {
    pub open spec fn same(self, other: PositionRect) -> bool {
        &&& self.left.same(other.left)
        &&& self.top.same(other.top)
        &&& self.right.same(other.right)
        &&& self.bottom.same(other.bottom)
    }

    pub fn equals(&self, other: &PositionRect) -> (r: bool)
        ensures
            r == self.same(*other),
    {
        self.left.equals(&other.left) && self.top.equals(&other.top) && self.right.equals(
            &other.right,
        ) && self.bottom.equals(&other.bottom)
    }
}

/// The format of the pixels of a frame.
#[derive(Clone, Copy, Debug, PartialEq, Eq, Structural)]
pub enum VideoFormat {
    Rgba,
    Bgra,
    Rgb,
    Other,
}

/// What is known of the frames of a stream.
#[derive(Clone, Copy, Debug, PartialEq, Eq, Structural)]
pub struct VideoInfo {
    pub format: VideoFormat,
    pub width: u32,
    pub height: u32,
}

/// A size in whole pixels.
#[derive(Clone, Copy, Debug, PartialEq, Eq, Structural)]
pub struct Size {
    pub width: i64,
    pub height: i64,
}

/// How frames are reshaped. The two fractional settings are held as the bits
/// of IEEE 754 doubles.
#[derive(Clone, Copy, Debug, PartialEq, Eq, Structural)]
pub struct Settings {
    pub border_radius_px: u64,
    pub corner_smoothing_pct: u64,
    pub padding_px: i32,
    pub crop_left: i32,
    pub crop_right: i32,
    pub crop_top: i32,
    pub crop_bottom: i32,
    pub disable_crop_optimization: bool,
}

/// The name of a setting.
#[derive(Clone, Copy, Debug, PartialEq, Eq, Structural)]
pub enum Property {
    BorderRadiusPx,
    CornerSmoothingPct,
    PaddingPx,
    CropLeft,
    CropRight,
    CropTop,
    CropBottom,
    DisableCropOptimization,
}

/// The value of a setting.
#[derive(Clone, Copy, Debug, PartialEq, Eq, Structural)]
pub enum PropertyValue {
    /// The bits of a double.
    Double(u64),
    Int(i32),
    Boolean(bool),
}

impl Property {
    pub open spec fn text(self) -> Seq<char> {
        match self {
            Property::BorderRadiusPx => "border-radius-px"@,
            Property::CornerSmoothingPct => "corner-smoothing-pct"@,
            Property::PaddingPx => "padding-px"@,
            Property::CropLeft => "crop-left"@,
            Property::CropRight => "crop-right"@,
            Property::CropTop => "crop-top"@,
            Property::CropBottom => "crop-bottom"@,
            Property::DisableCropOptimization => "disable-crop-optimization"@,
        }
    }

    /// The value is of the setting's type.
    pub open spec fn takes(self, value: PropertyValue) -> bool {
        match self {
            Property::BorderRadiusPx | Property::CornerSmoothingPct => value is Double,
            Property::DisableCropOptimization => value is Boolean,
            _ => value is Int,
        }
    }

    /// The setting with the given name.
    pub fn from_name(name: &str) -> (r: Option<Property>)
        ensures
            match r {
                Some(property) => property.text() == name@,
                None => forall|property: Property|
                    #![trigger property.text()]
                    property.text() != name@,
            },
    {
        if text_eq(name, "border-radius-px") {
            Some(Property::BorderRadiusPx)
        } else if text_eq(name, "corner-smoothing-pct") {
            Some(Property::CornerSmoothingPct)
        } else if text_eq(name, "padding-px") {
            Some(Property::PaddingPx)
        } else if text_eq(name, "crop-left") {
            Some(Property::CropLeft)
        } else if text_eq(name, "crop-right") {
            Some(Property::CropRight)
        } else if text_eq(name, "crop-top") {
            Some(Property::CropTop)
        } else if text_eq(name, "crop-bottom") {
            Some(Property::CropBottom)
        } else if text_eq(name, "disable-crop-optimization") {
            Some(Property::DisableCropOptimization)
        } else {
            None
        }
    }
}

/// No two settings have the same name.
pub proof fn law_property_names_are_distinct(a: Property, b: Property)
    requires
        a.text() == b.text(),
    ensures
        a == b,
{
    reveal_strlit("border-radius-px");
    reveal_strlit("corner-smoothing-pct");
    reveal_strlit("padding-px");
    reveal_strlit("crop-left");
    reveal_strlit("crop-right");
    reveal_strlit("crop-top");
    reveal_strlit("crop-bottom");
    reveal_strlit("disable-crop-optimization");
    assert("border-radius-px"@.len() == 16);
    assert("corner-smoothing-pct"@.len() == 20);
    assert("padding-px"@.len() == 10 && "padding-px"@[0] == 'p');
    assert("crop-left"@.len() == 9);
    assert("crop-right"@.len() == 10 && "crop-right"@[0] == 'c');
    assert("crop-top"@.len() == 8);
    assert("crop-bottom"@.len() == 11);
    assert("disable-crop-optimization"@.len() == 25);
}

impl Settings {
    pub open spec fn value(self, property: Property) -> PropertyValue {
        match property {
            Property::BorderRadiusPx => PropertyValue::Double(self.border_radius_px),
            Property::CornerSmoothingPct => PropertyValue::Double(self.corner_smoothing_pct),
            Property::PaddingPx => PropertyValue::Int(self.padding_px),
            Property::CropLeft => PropertyValue::Int(self.crop_left),
            Property::CropRight => PropertyValue::Int(self.crop_right),
            Property::CropTop => PropertyValue::Int(self.crop_top),
            Property::CropBottom => PropertyValue::Int(self.crop_bottom),
            Property::DisableCropOptimization => PropertyValue::Boolean(
                self.disable_crop_optimization,
            ),
        }
    }

    /// Something of the frame is cut off on request.
    pub open spec fn user_cropped(self) -> bool {
        self.crop_left != 0 || self.crop_right != 0 || self.crop_top != 0 || self.crop_bottom != 0
    }

    pub fn new() -> (r: Self)
        ensures
            r == (Settings {
                border_radius_px: 0,
                corner_smoothing_pct: 0,
                padding_px: 0,
                crop_left: 0,
                crop_right: 0,
                crop_top: 0,
                crop_bottom: 0,
                disable_crop_optimization: true,
            }),
    {
        Settings {
            border_radius_px: 0,
            corner_smoothing_pct: 0,
            padding_px: 0,
            crop_left: 0,
            crop_right: 0,
            crop_top: 0,
            crop_bottom: 0,
            disable_crop_optimization: true,
        }
    }

    /// Changes one setting, and no other.
    pub fn set_property(&mut self, property: Property, value: PropertyValue)
        requires
            property.takes(value),
        ensures
            final(self).value(property) == value,
            forall|other: Property|
                other != property ==> #[trigger] final(self).value(other) == old(self).value(other),
    {
        match (property, value) {
            (Property::BorderRadiusPx, PropertyValue::Double(v)) => {
                self.border_radius_px = v;
            },
            (Property::CornerSmoothingPct, PropertyValue::Double(v)) => {
                self.corner_smoothing_pct = v;
            },
            (Property::PaddingPx, PropertyValue::Int(v)) => {
                self.padding_px = v;
            },
            (Property::CropLeft, PropertyValue::Int(v)) => {
                self.crop_left = v;
            },
            (Property::CropRight, PropertyValue::Int(v)) => {
                self.crop_right = v;
            },
            (Property::CropTop, PropertyValue::Int(v)) => {
                self.crop_top = v;
            },
            (Property::CropBottom, PropertyValue::Int(v)) => {
                self.crop_bottom = v;
            },
            (Property::DisableCropOptimization, PropertyValue::Boolean(v)) => {
                self.disable_crop_optimization = v;
            },
            _ => {},
        }
    }

    pub fn property(&self, property: Property) -> (r: PropertyValue)
        ensures
            r == self.value(property),
    {
        match property {
            Property::BorderRadiusPx => PropertyValue::Double(self.border_radius_px),
            Property::CornerSmoothingPct => PropertyValue::Double(self.corner_smoothing_pct),
            Property::PaddingPx => PropertyValue::Int(self.padding_px),
            Property::CropLeft => PropertyValue::Int(self.crop_left),
            Property::CropRight => PropertyValue::Int(self.crop_right),
            Property::CropTop => PropertyValue::Int(self.crop_top),
            Property::CropBottom => PropertyValue::Int(self.crop_bottom),
            Property::DisableCropOptimization => PropertyValue::Boolean(
                self.disable_crop_optimization,
            ),
        }
    }
}

/// What is known of the stream that is reshaped.
#[derive(Clone, Copy, Debug, PartialEq, Eq, Structural)]
pub struct State {
    pub in_info: Option<VideoInfo>,
    pub out_info: Option<VideoInfo>,
    /// Wanted position of the image, taking padding into account.
    pub compositor_position: Option<PositionRect>,
    /// Output size of the compositor itself.
    pub compositor_size: Option<Size>,
}

/// Caps that a size is asked for: whether they are fixed, and what they say of
/// frames.
#[derive(Clone, Copy, Debug, PartialEq, Eq, Structural)]
pub struct InputCaps {
    pub fixed: bool,
    pub info: Option<VideoInfo>,
}

/// Why there are no sizes.
#[derive(Clone, Copy, Debug, PartialEq, Eq, Structural)]
pub enum SizesError {
    /// The caps do not give a size.
    NotNegotiated,
    /// There are neither caps nor a stream, which is to be reported.
    NoStateYet,
}

/// The sizes that positions are computed from.
#[derive(Clone, Copy, Debug, PartialEq, Eq, Structural)]
pub struct FrameSizes {
    /// The frames that come in.
    pub input: Size,
    /// The compositor.
    pub compositor: Size,
    /// The frames that come in, once that is agreed upon; the compositor
    /// before.
    pub in_frame: Size,
    /// The frames that go out, once that is agreed upon; the compositor before.
    pub out_frame: Size,
}

pub open spec fn info_size(info: VideoInfo) -> Size {
    Size { width: info.width as i64, height: info.height as i64 }
}

impl State {
    /// What is known of the frames that come in: what was agreed upon, or else
    /// what the caps say.
    pub open spec fn input(self, caps: Option<InputCaps>) -> Result<VideoInfo, SizesError> {
        match self.in_info {
            Some(info) => Ok(info),
            None => match caps {
                Some(caps) => if caps.fixed && caps.info is Some {
                    Ok(caps.info->0)
                } else {
                    Err(SizesError::NotNegotiated)
                },
                None => Err(SizesError::NoStateYet),
            },
        }
    }

    pub open spec fn sizes(self, caps: Option<InputCaps>) -> Result<FrameSizes, SizesError> {
        match self.input(caps) {
            Ok(info) => {
                let compositor = match self.compositor_size {
                    Some(size) => size,
                    None => info_size(info),
                };
                Ok(
                    FrameSizes {
                        input: info_size(info),
                        compositor,
                        in_frame: match self.in_info {
                            Some(info) => info_size(info),
                            None => compositor,
                        },
                        out_frame: match self.out_info {
                            Some(info) => info_size(info),
                            None => compositor,
                        },
                    },
                )
            },
            Err(e) => Err(e),
        }
    }
}

/// What a coordinate consists of, along one axis.
#[derive(Clone, Copy, Debug, PartialEq, Eq, Structural)]
pub enum Term {
    /// By how much the wanted position is off a whole pixel.
    Fraction,
    Padding,
    /// Where the image starts and how large it is, in the compositor.
    ImageStart,
    ImageSize,
    /// Where the frame starts and how large it is, in the compositor: the
    /// image with its padding.
    RectStart,
    RectSize,
    /// The size of the frames that go out, less the padding on both sides.
    OutFrameLessPadding,
    /// How far the compositor's end is from the image's; below zero where the
    /// image sticks out.
    ImageOverhang,
    /// How far the compositor's end is from the frame's.
    RectOverhang,
    /// What is cut off at the start of the input on request.
    CropStart,
    /// Where the input ends once its end was cut off on request.
    SourceEnd,
    /// `ImageStart` turned round, in pixels of the input.
    ScaledImageStart,
    /// `ImageOverhang` in pixels of the input.
    ScaledImageOverhang,
}

/// How the image and its frame lie in the compositor, along one axis.
#[derive(Clone, Copy, Debug, PartialEq, Eq, Structural)]
pub struct AxisFacts {
    /// The image has a size above zero.
    pub image_sized: bool,
    /// The image, or its frame, starts before the compositor does.
    pub image_before_start: bool,
    pub rect_before_start: bool,
    /// The image, or its frame, ends after the compositor does.
    pub image_past_end: bool,
    pub rect_past_end: bool,
}

/// The rectangles of one axis. Where the image is drawn is set to zero if it
/// is less than a pixel from there.
#[derive(Debug)]
pub struct AxisRects {
    /// The part of the input that is drawn.
    pub src_start: Vec<Term>,
    pub src_end: Vec<Term>,
    /// Where it is drawn.
    pub dst_start: Vec<Term>,
    pub dst_size: Vec<Term>,
    /// Where the whole image would be drawn.
    pub original_start: Vec<Term>,
    pub original_size: Vec<Term>,
    /// Where the frame is in the compositor.
    pub out_start: Vec<Term>,
    pub out_size: Vec<Term>,
}

/// Which part of the input is drawn, and where.
#[derive(Debug)]
pub struct TranslationRects {
    /// Only a part of the input is drawn.
    pub cropped: bool,
    pub horizontal: AxisRects,
    pub vertical: AxisRects,
}

/// How large the image is drawn before anything of it is cut off.
pub open spec fn base_size(facts: AxisFacts) -> Term {
    if facts.image_sized {
        Term::ImageSize
    } else {
        Term::OutFrameLessPadding
    }
}

/// The term if the condition holds.
pub open spec fn term_if(condition: bool, term: Term) -> Seq<Term> {
    if condition {
        seq![term]
    } else {
        seq![]
    }
}

impl AxisRects {
    /// The rectangles of an axis, where what sticks out of the compositor is
    /// not drawn if `optimize` holds.
    pub open spec fn follows(&self, optimize: bool, facts: AxisFacts) -> bool {
        let cut = optimize && facts.image_before_start;
        let frame_cut = optimize && facts.rect_before_start && !cut;
        &&& self.src_start@ == seq![Term::CropStart] + term_if(cut, Term::ScaledImageStart)
        &&& self.src_end@ == seq![Term::SourceEnd] + term_if(
            optimize && facts.image_past_end,
            Term::ScaledImageOverhang,
        )
        &&& self.dst_start@ == seq![Term::Fraction] + term_if(frame_cut, Term::ImageStart)
            + term_if(!cut && !frame_cut, Term::Padding)
        &&& self.dst_size@ == seq![base_size(facts)] + term_if(cut, Term::ImageStart) + term_if(
            optimize && facts.image_past_end,
            Term::ImageOverhang,
        )
        &&& self.original_start@ == seq![Term::Fraction] + term_if(
            cut || frame_cut,
            Term::ImageStart,
        ) + term_if(!cut && !frame_cut, Term::Padding)
        &&& self.original_size@ == seq![base_size(facts)]
        &&& self.out_start@ == seq![Term::RectStart]
        &&& self.out_size@ == seq![Term::RectSize] + term_if(cut || frame_cut, Term::RectStart)
            + term_if(optimize && facts.rect_past_end, Term::RectOverhang)
    }

    fn compute(optimize: bool, facts: &AxisFacts) -> (r: AxisRects)
        ensures
            r.follows(optimize, *facts),
    {
        let base = if facts.image_sized {
            Term::ImageSize
        } else {
            Term::OutFrameLessPadding
        };
        let mut rects = AxisRects {
            src_start: vec![Term::CropStart],
            src_end: vec![Term::SourceEnd],
            dst_start: vec![Term::Fraction],
            dst_size: vec![base],
            original_start: vec![Term::Fraction],
            original_size: vec![base],
            out_start: vec![Term::RectStart],
            out_size: vec![Term::RectSize],
        };
        if optimize {
            if facts.image_before_start {
                rects.src_start.push(Term::ScaledImageStart);
                rects.dst_size.push(Term::ImageStart);
                rects.original_start.push(Term::ImageStart);
                rects.out_size.push(Term::RectStart);
            } else if facts.rect_before_start {
                rects.dst_start.push(Term::ImageStart);
                rects.original_start.push(Term::ImageStart);
                rects.out_size.push(Term::RectStart);
            } else {
                rects.dst_start.push(Term::Padding);
                rects.original_start.push(Term::Padding);
            }
            if facts.image_past_end {
                rects.src_end.push(Term::ScaledImageOverhang);
                rects.dst_size.push(Term::ImageOverhang);
            }
            if facts.rect_past_end {
                rects.out_size.push(Term::RectOverhang);
            }
        } else {
            rects.dst_start.push(Term::Padding);
            rects.original_start.push(Term::Padding);
        }
        proof {
            let cut = optimize && facts.image_before_start;
            let frame_cut = optimize && facts.rect_before_start && !cut;
            assert(rects.src_start@ =~= seq![Term::CropStart] + term_if(
                cut,
                Term::ScaledImageStart,
            ));
            assert(rects.src_end@ =~= seq![Term::SourceEnd] + term_if(
                optimize && facts.image_past_end,
                Term::ScaledImageOverhang,
            ));
            assert(rects.dst_start@ =~= seq![Term::Fraction] + term_if(
                frame_cut,
                Term::ImageStart,
            ) + term_if(!cut && !frame_cut, Term::Padding));
            assert(rects.dst_size@ =~= seq![base_size(*facts)] + term_if(cut, Term::ImageStart)
                + term_if(optimize && facts.image_past_end, Term::ImageOverhang));
            assert(rects.original_start@ =~= seq![Term::Fraction] + term_if(
                cut || frame_cut,
                Term::ImageStart,
            ) + term_if(!cut && !frame_cut, Term::Padding));
            assert(rects.original_size@ =~= seq![base_size(*facts)]);
            assert(rects.out_start@ =~= seq![Term::RectStart]);
            assert(rects.out_size@ =~= seq![Term::RectSize] + term_if(
                cut || frame_cut,
                Term::RectStart,
            ) + term_if(optimize && facts.rect_past_end, Term::RectOverhang));
        }
        rects
    }
}

/// How far the output extends along one axis: whether that is nothing at all,
/// and the extent in whole pixels, rounded up.
#[derive(Clone, Copy, Debug, PartialEq, Eq, Structural)]
pub struct Extent {
    pub empty: bool,
    pub pixels: i32,
}

/// The width and the height that caps give, or are to be given.
#[derive(Clone, Copy, Debug, PartialEq, Eq, Structural)]
pub struct CapsSize {
    pub width: Option<i32>,
    pub height: Option<i32>,
}

/// Which image is drawn.
#[derive(Clone, Copy, Debug, PartialEq, Eq, Structural)]
pub enum ImageChoice {
    /// The whole input.
    Whole,
    /// The part of it that is to be drawn.
    Subset,
    /// A transparent pixel, uploaded to the GPU, in place of an empty part.
    GpuFallback,
    /// A transparent pixel in memory, in place of an empty part.
    RasterFallback,
}

/// What the metadata of the output says of its position in the compositor.
#[derive(Clone, Copy, Debug, PartialEq, Eq, Structural)]
pub struct CompositionMeta {
    /// The size is that of what is left of the frame, not that of the frame.
    pub final_size: bool,
    /// The position is zero along the axis, since what was before is cut off.
    pub x_at_zero: bool,
    pub y_at_zero: bool,
    /// The original position is given too, together with what was cut off.
    pub original: bool,
}

/// A length along an axis less what is cut off on both ends, with padding.
pub open spec fn reshaped_length(length: int, crop_start: int, crop_end: int, padding: int) -> int {
    length - crop_start - crop_end + 2 * padding
}

/// The reshaped length can be computed in the given order.
pub open spec fn fits(length: i32, crop_start: i32, crop_end: i32, padding: i32) -> bool {
    &&& i32::MIN <= length - crop_start <= i32::MAX
    &&& i32::MIN <= length - crop_start - crop_end <= i32::MAX
    &&& i32::MIN <= 2 * padding <= i32::MAX
    &&& i32::MIN <= reshaped_length(
        length as int,
        crop_start as int,
        crop_end as int,
        padding as int,
    ) <= i32::MAX
}

/// The last of the structures that give both a width and a height.
pub open spec fn last_size(structures: Seq<CapsSize>) -> Option<Size>
    decreases structures.len(),
{
    if structures.len() == 0 {
        None
    } else {
        match (structures.last().width, structures.last().height) {
            (Some(width), Some(height)) => Some(
                Size { width: width as i64, height: height as i64 },
            ),
            _ => last_size(structures.drop_last()),
        }
    }
}

/// What the elements that reshape video decide in common.
#[derive(Clone, Copy, Debug, PartialEq, Eq, Structural)]
pub struct ReshapeCommon {
    pub settings: Settings,
    pub state: State,
}

impl ReshapeCommon {
    /// What sticks out of the compositor is not drawn.
    pub open spec fn optimizes(&self) -> bool {
        !self.settings.disable_crop_optimization
    }

    pub fn new() -> (r: Self)
        ensures
            r.settings.disable_crop_optimization,
            forall|property: Property| #[trigger]
                r.settings.value(property) == (match property {
                    Property::BorderRadiusPx | Property::CornerSmoothingPct => PropertyValue::Double(
                        0,
                    ),
                    Property::DisableCropOptimization => PropertyValue::Boolean(true),
                    _ => PropertyValue::Int(0),
                }),
            r.state == (State {
                in_info: None,
                out_info: None,
                compositor_position: None,
                compositor_size: None,
            }),
    {
        ReshapeCommon {
            settings: Settings::new(),
            state: State {
                in_info: None,
                out_info: None,
                compositor_position: None,
                compositor_size: None,
            },
        }
    }

    /// Takes over what both sides agreed upon; fails where either is not
    /// understood.
    pub fn set_caps(&mut self, in_info: Option<VideoInfo>, out_info: Option<VideoInfo>) -> (r: bool)
        ensures
            r == (in_info is Some && out_info is Some),
            final(self).settings == old(self).settings,
            final(self).state == (if r {
                State { in_info, out_info, ..old(self).state }
            } else {
                old(self).state
            }),
    {
        if in_info.is_some() && out_info.is_some() {
            self.state.in_info = in_info;
            self.state.out_info = out_info;
            true
        } else {
            false
        }
    }

    /// The sizes that positions are computed from.
    pub fn frame_sizes(&self, caps: Option<InputCaps>) -> (r: Result<FrameSizes, SizesError>)
        ensures
            r == self.state.sizes(caps),
    {
        let info = match self.state.in_info {
            Some(info) => info,
            None => match caps {
                Some(caps) => {
                    if !caps.fixed {
                        return Err(SizesError::NotNegotiated);
                    }
                    match caps.info {
                        Some(info) => info,
                        None => {
                            return Err(SizesError::NotNegotiated);
                        },
                    }
                },
                None => {
                    return Err(SizesError::NoStateYet);
                },
            },
        };
        let input = Size { width: info.width as i64, height: info.height as i64 };
        let compositor = match self.state.compositor_size {
            Some(size) => size,
            None => input,
        };
        let in_frame = if self.state.in_info.is_some() {
            input
        } else {
            compositor
        };
        let out_frame = match self.state.out_info {
            Some(info) => Size { width: info.width as i64, height: info.height as i64 },
            None => compositor,
        };
        Ok(FrameSizes { input, compositor, in_frame, out_frame })
    }

    /// Which part of the input is drawn, and where, when the image and its
    /// frame lie in the compositor as given.
    pub fn compute_src_image_and_dest_rects(
        &self,
        horizontal: &AxisFacts,
        vertical: &AxisFacts,
    ) -> (r: TranslationRects)
        ensures
            r.cropped == (self.optimizes() || self.settings.user_cropped()),
            r.horizontal.follows(self.optimizes(), *horizontal),
            r.vertical.follows(self.optimizes(), *vertical),
    {
        let optimize = !self.settings.disable_crop_optimization;
        let user_cropped = self.settings.crop_left != 0 || self.settings.crop_right != 0
            || self.settings.crop_top != 0 || self.settings.crop_bottom != 0;
        TranslationRects {
            cropped: optimize || user_cropped,
            horizontal: AxisRects::compute(optimize, horizontal),
            vertical: AxisRects::compute(optimize, vertical),
        }
    }

    /// The size of the output: that of the frame as it was computed, if it
    /// could be; or else that of the wanted position, which is `position`.
    pub fn compute_output_size(
        &self,
        computed: Option<(Extent, Extent)>,
        position: (i32, i32),
    ) -> (r: CapsSize)
        ensures
            r == (match computed {
                Some((width, height)) => CapsSize {
                    width: if width.empty {
                        None
                    } else {
                        Some(width.pixels)
                    },
                    height: if height.empty {
                        None
                    } else {
                        Some(height.pixels)
                    },
                },
                None => if self.state.compositor_position is Some {
                    CapsSize { width: Some(position.0), height: Some(position.1) }
                } else {
                    CapsSize { width: None, height: None }
                },
            }),
    {
        match computed {
            Some((width, height)) => CapsSize {
                width: if width.empty {
                    None
                } else {
                    Some(width.pixels)
                },
                height: if height.empty {
                    None
                } else {
                    Some(height.pixels)
                },
            },
            None => if self.state.compositor_position.is_some() {
                CapsSize { width: Some(position.0), height: Some(position.1) }
            } else {
                CapsSize { width: None, height: None }
            },
        }
    }

    /// The size of the output is known, or can be computed.
    pub open spec fn transformable(&self, size: CapsSize, output: CapsSize) -> bool {
        output.width is None && output.height is None ==> {
            &&& size.width matches Some(width) ==> fits(
                width,
                self.settings.crop_left,
                self.settings.crop_right,
                self.settings.padding_px,
            )
            &&& size.height matches Some(height) ==> fits(
                height,
                self.settings.crop_top,
                self.settings.crop_bottom,
                self.settings.padding_px,
            )
        }
    }

    fn length_fits(length: Option<i32>, crop_start: i32, crop_end: i32, padding: i32) -> (r: bool)
        ensures
            r == (length matches Some(length) ==> fits(length, crop_start, crop_end, padding)),
    {
        match length {
            Some(length) => {
                let min: i64 = i32::MIN as i64;
                let max: i64 = i32::MAX as i64;
                let cropped: i64 = length as i64 - crop_start as i64;
                let left: i64 = cropped - crop_end as i64;
                let padded: i64 = 2 * padding as i64;
                min <= cropped && cropped <= max && min <= left && left <= max && min <= padded
                    && padded <= max && min <= left + padded && left + padded <= max
            },
            None => true,
        }
    }

    /// Whether `transform_size` may be called with these arguments.
    pub fn can_transform_size(&self, size: CapsSize, output: CapsSize) -> (r: bool)
        ensures
            r == self.transformable(size, output),
    {
        let settings = &self.settings;
        output.width.is_some() || output.height.is_some() || (Self::length_fits(
            size.width,
            settings.crop_left,
            settings.crop_right,
            settings.padding_px,
        ) && Self::length_fits(
            size.height,
            settings.crop_top,
            settings.crop_bottom,
            settings.padding_px,
        ))
    }

    /// The size in the caps of the output for a size in those of the input,
    /// when the output is `output` large as far as that is known. Where
    /// nothing is known of it, what is given is cropped and padded.
    pub fn transform_size(&self, size: CapsSize, output: CapsSize) -> (r: CapsSize)
        requires
            self.transformable(size, output),
        ensures
            if output.width is None && output.height is None {
                &&& r.width is Some == size.width is Some
                &&& r.height is Some == size.height is Some
                &&& r.width matches Some(width) ==> width == reshaped_length(
                    size.width->0 as int,
                    self.settings.crop_left as int,
                    self.settings.crop_right as int,
                    self.settings.padding_px as int,
                )
                &&& r.height matches Some(height) ==> height == reshaped_length(
                    size.height->0 as int,
                    self.settings.crop_top as int,
                    self.settings.crop_bottom as int,
                    self.settings.padding_px as int,
                )
            } else {
                &&& r.width == (if output.width is Some {
                    output.width
                } else {
                    size.width
                })
                &&& r.height == (if output.height is Some {
                    output.height
                } else {
                    size.height
                })
            },
    {
        if output.width.is_none() && output.height.is_none() {
            let width: Option<i32> = match size.width {
                Some(width) => Some(
                    width - self.settings.crop_left - self.settings.crop_right + 2
                        * self.settings.padding_px,
                ),
                None => None,
            };
            let height: Option<i32> = match size.height {
                Some(height) => Some(
                    height - self.settings.crop_top - self.settings.crop_bottom + 2
                        * self.settings.padding_px,
                ),
                None => None,
            };
            CapsSize { width, height }
        } else {
            CapsSize {
                width: if output.width.is_some() {
                    output.width
                } else {
                    size.width
                },
                height: if output.height.is_some() {
                    output.height
                } else {
                    size.height
                },
            }
        }
    }

    /// Takes note of where the compositor is going to put the next frame.
    /// Tells whether that changed, so that the output has to be negotiated
    /// anew.
    pub fn submit_input_buffer(&mut self, position: Option<PositionRect>) -> (r: bool)
        ensures
            r == !(match (old(self).state.compositor_position, position) {
                (None, None) => true,
                (Some(before), Some(now)) => before.same(now),
                _ => false,
            }),
            final(self).settings == old(self).settings,
            final(self).state == (if r {
                State { compositor_position: position, ..old(self).state }
            } else {
                old(self).state
            }),
    {
        let same = match (self.state.compositor_position, position) {
            (None, None) => true,
            (Some(before), Some(now)) => before.equals(&now),
            _ => false,
        };
        if !same {
            self.state.compositor_position = position;
        }
        !same
    }

    /// Takes over the size of the compositor from the structures of the caps
    /// that its track is restricted to.
    pub fn setup_compositor_size(&mut self, structures: &Vec<CapsSize>)
        ensures
            final(self).settings == old(self).settings,
            final(self).state == (State {
                compositor_size: last_size(structures@),
                ..old(self).state
            }),
    {
        let mut size: Option<Size> = None;
        let mut i: usize = 0;
        proof {
            assert(structures@.take(0) =~= Seq::<CapsSize>::empty());
        }
        while i < structures.len()
            invariant
                i <= structures.len(),
                size == last_size(structures@.take(i as int)),
            decreases structures.len() - i,
        {
            proof {
                assert(structures@.take(i + 1).drop_last() =~= structures@.take(i as int));
            }
            if let (Some(width), Some(height)) = (structures[i].width, structures[i].height) {
                size = Some(Size { width: width as i64, height: height as i64 });
            }
            i += 1;
        }
        proof {
            assert(structures@.take(structures@.len() as int) =~= structures@);
        }
        self.state.compositor_size = size;
    }

    /// Which image is drawn: `subset` tells whether the part of the input that
    /// is to be drawn could be made, `gpu` whether drawing goes to the GPU.
    pub fn choose_image(rects: &TranslationRects, subset: bool, gpu: bool) -> (r: ImageChoice)
        ensures
            r == (if !rects.cropped {
                ImageChoice::Whole
            } else if subset {
                ImageChoice::Subset
            } else if gpu {
                ImageChoice::GpuFallback
            } else {
                ImageChoice::RasterFallback
            }),
    {
        if !rects.cropped {
            ImageChoice::Whole
        } else if subset {
            ImageChoice::Subset
        } else if gpu {
            ImageChoice::GpuFallback
        } else {
            ImageChoice::RasterFallback
        }
    }

    /// What the metadata of the output says of its position, if there is a
    /// wanted one: `rects_known` tells whether the rectangles could be
    /// computed, and the others whether the wanted position is below zero.
    pub fn copy_metadata(&self, rects_known: bool, left_negative: bool, top_negative: bool) -> (r:
        Option<CompositionMeta>)
        ensures
            r == (if self.state.compositor_position is Some {
                let cut = self.optimizes() && rects_known;
                Some(
                    CompositionMeta {
                        final_size: cut,
                        x_at_zero: cut && left_negative,
                        y_at_zero: cut && top_negative,
                        original: cut,
                    },
                )
            } else {
                None
            }),
    {
        if self.state.compositor_position.is_none() {
            return None;
        }
        let cut = !self.settings.disable_crop_optimization && rects_known;
        Some(
            CompositionMeta {
                final_size: cut,
                x_at_zero: cut && left_negative,
                y_at_zero: cut && top_negative,
                original: cut,
            },
        )
    }
}

/// How an image with its padding lies in the compositor, along one axis, in
/// exact numbers. Lengths of the input, which are `input`, the crops and the two
/// scaled ones, and lengths of the output each have a unit of their own, small
/// enough that all of them are whole.
pub struct AxisValues {
    pub fraction: int,
    pub padding: int,
    pub image_start: int,
    pub image_end: int,
    pub rect_start: int,
    pub rect_end: int,
    pub compositor: int,
    pub out_frame: int,
    pub input: int,
    pub crop_start: int,
    pub crop_end: int,
    pub scaled_start: int,
    pub scaled_overhang: int,
}

impl AxisValues {
    pub open spec fn facts(self) -> AxisFacts {
        AxisFacts {
            image_sized: self.image_end > self.image_start,
            image_before_start: self.image_start < 0,
            rect_before_start: self.rect_start < 0,
            image_past_end: self.image_end > self.compositor,
            rect_past_end: self.rect_end > self.compositor,
        }
    }

    pub open spec fn value(self, term: Term) -> int {
        match term {
            Term::Fraction => self.fraction,
            Term::Padding => self.padding,
            Term::ImageStart => self.image_start,
            Term::ImageSize => self.image_end - self.image_start,
            Term::RectStart => self.rect_start,
            Term::RectSize => self.rect_end - self.rect_start,
            Term::OutFrameLessPadding => self.out_frame - 2 * self.padding,
            Term::ImageOverhang => self.compositor - self.image_end,
            Term::RectOverhang => self.compositor - self.rect_end,
            Term::CropStart => self.crop_start,
            Term::SourceEnd => self.input - self.crop_end,
            Term::ScaledImageStart => -self.scaled_start,
            Term::ScaledImageOverhang => self.scaled_overhang,
        }
    }

    /// What sticks out of the compositor was scaled to pixels of the input: the
    /// whole image stands for the whole input.
    pub open spec fn scaled(self) -> bool {
        let base = self.value(base_size(self.facts()));
        &&& self.scaled_start * base == self.image_start * self.input
        &&& self.scaled_overhang * base == (self.compositor - self.image_end) * self.input
    }

    pub open spec fn sum(self, terms: Seq<Term>) -> int
        decreases terms.len(),
    {
        if terms.len() == 0 {
            0
        } else {
            self.sum(terms.drop_last()) + self.value(terms.last())
        }
    }
}

pub open spec fn max(a: int, b: int) -> int {
    if a > b {
        a
    } else {
        b
    }
}

pub open spec fn min(a: int, b: int) -> int {
    if a < b {
        a
    } else {
        b
    }
}

proof fn lemma_sum_if(v: AxisValues, terms: Seq<Term>, condition: bool, term: Term)
    ensures
        v.sum(terms + term_if(condition, term)) == v.sum(terms) + (if condition {
            v.value(term)
        } else {
            0
        }),
{
    if condition {
        assert((terms + seq![term]).drop_last() =~= terms);
    } else {
        assert(terms + Seq::<Term>::empty() =~= terms);
    }
}

proof fn lemma_sum_one(v: AxisValues, term: Term)
    ensures
        v.sum(seq![term]) == v.value(term),
{
    assert(seq![term].drop_last() =~= Seq::<Term>::empty());
    assert(v.sum(Seq::<Term>::empty()) == 0);
}

/// What sticks out of the compositor is cut off: an image that has a size is
/// drawn as large as the part of it that lies inside, and the output is as
/// large as the part of the frame that lies inside, unless the padding is so
/// far below zero that the image starts before the compositor and its frame
/// does not.
pub proof fn law_only_the_visible_part_is_drawn(rects: AxisRects, v: AxisValues)
    requires
        rects.follows(true, v.facts()),
    ensures
        v.image_start < v.image_end ==> v.sum(rects.dst_size@) == min(v.image_end, v.compositor)
            - max(v.image_start, 0),
        !(v.image_start < 0 < v.rect_start) ==> v.sum(rects.out_size@) == min(
            v.rect_end,
            v.compositor,
        ) - max(v.rect_start, 0),
{
    let facts = v.facts();
    let cut = facts.image_before_start;
    let frame_cut = facts.rect_before_start && !cut;
    lemma_sum_one(v, Term::ImageSize);
    lemma_sum_if(v, seq![Term::ImageSize], cut, Term::ImageStart);
    lemma_sum_if(
        v,
        seq![Term::ImageSize] + term_if(cut, Term::ImageStart),
        facts.image_past_end,
        Term::ImageOverhang,
    );
    lemma_sum_one(v, Term::RectSize);
    lemma_sum_if(v, seq![Term::RectSize], cut || frame_cut, Term::RectStart);
    lemma_sum_if(
        v,
        seq![Term::RectSize] + term_if(cut || frame_cut, Term::RectStart),
        facts.rect_past_end,
        Term::RectOverhang,
    );
}

/// Without the optimization nothing but what was asked for is cut off: an image
/// that has a size is drawn whole, behind its padding, in the whole frame.
pub proof fn law_without_optimization_all_is_drawn(rects: AxisRects, v: AxisValues)
    requires
        rects.follows(false, v.facts()),
    ensures
        v.image_start < v.image_end ==> v.sum(rects.dst_size@) == v.image_end - v.image_start,
        v.sum(rects.out_size@) == v.rect_end - v.rect_start,
        v.sum(rects.dst_start@) == v.fraction + v.padding,
        v.sum(rects.src_start@) == v.crop_start,
        v.sum(rects.src_end@) == v.input - v.crop_end,
        rects.original_start@ == rects.dst_start@,
        rects.original_size@ == rects.dst_size@,
{
    let empty = Seq::<Term>::empty();
    let base = base_size(v.facts());
    assert(seq![base] + empty + empty =~= seq![base]);
    assert(seq![Term::RectSize] + empty + empty =~= seq![Term::RectSize]);
    assert(seq![Term::CropStart] + empty =~= seq![Term::CropStart]);
    assert(seq![Term::SourceEnd] + empty =~= seq![Term::SourceEnd]);
    lemma_sum_one(v, Term::ImageSize);
    lemma_sum_one(v, Term::RectSize);
    lemma_sum_one(v, Term::CropStart);
    lemma_sum_one(v, Term::SourceEnd);
    lemma_sum_one(v, Term::Fraction);
    assert(seq![Term::Fraction] + empty =~= seq![Term::Fraction]);
    lemma_sum_if(v, seq![Term::Fraction], true, Term::Padding);
}

/// What is drawn is drawn at the scale of the whole image: the part of the input
/// that is left, together with what was cut off on request, is to what is drawn
/// as the whole input is to the whole image.
pub proof fn law_drawn_part_keeps_the_scale(rects: AxisRects, v: AxisValues)
    requires
        rects.follows(true, v.facts()),
        v.scaled(),
    ensures
        (v.sum(rects.src_end@) - v.sum(rects.src_start@) + v.crop_start + v.crop_end) * v.sum(
            rects.original_size@,
        ) == v.sum(rects.dst_size@) * v.input,
        v.crop_start == 0 && v.crop_end == 0 ==> (v.sum(rects.src_end@) - v.sum(rects.src_start@))
            * v.sum(rects.original_size@) == v.sum(rects.dst_size@) * v.input,
{
    let facts = v.facts();
    let cut = facts.image_before_start;
    let past = facts.image_past_end;
    let base = base_size(facts);
    lemma_sum_one(v, Term::CropStart);
    lemma_sum_if(v, seq![Term::CropStart], cut, Term::ScaledImageStart);
    lemma_sum_one(v, Term::SourceEnd);
    lemma_sum_if(v, seq![Term::SourceEnd], past, Term::ScaledImageOverhang);
    lemma_sum_one(v, base);
    lemma_sum_if(v, seq![base], cut, Term::ImageStart);
    lemma_sum_if(
        v,
        seq![base] + term_if(cut, Term::ImageStart),
        past,
        Term::ImageOverhang,
    );
    let size = v.value(base);
    let start = if cut {
        v.image_start
    } else {
        0
    };
    let scaled_start = if cut {
        v.scaled_start
    } else {
        0
    };
    let overhang = if past {
        v.compositor - v.image_end
    } else {
        0
    };
    let scaled_overhang = if past {
        v.scaled_overhang
    } else {
        0
    };
    let input = v.input;
    assert(0 * size == 0 && 0 * input == 0) by (nonlinear_arith);
    assert((input + scaled_overhang + scaled_start) * size == (size + start + overhang) * input)
        by (nonlinear_arith)
        requires
            scaled_start * size == start * input,
            scaled_overhang * size == overhang * input,
    ;
}

/// The drawn part and the whole image are aligned: the drawn part starts where
/// the whole image would, unless that is before the start of the compositor,
/// in which case it starts at its first whole pixel.
pub proof fn law_drawn_part_is_aligned(rects: AxisRects, v: AxisValues)
    requires
        rects.follows(true, v.facts()),
    ensures
        v.sum(rects.dst_start@) == v.sum(rects.original_start@) - min(v.image_start, 0),
{
    let facts = v.facts();
    let cut = facts.image_before_start;
    let frame_cut = facts.rect_before_start && !cut;
    lemma_sum_one(v, Term::Fraction);
    lemma_sum_if(v, seq![Term::Fraction], frame_cut, Term::ImageStart);
    lemma_sum_if(
        v,
        seq![Term::Fraction] + term_if(frame_cut, Term::ImageStart),
        !cut && !frame_cut,
        Term::Padding,
    );
    lemma_sum_if(v, seq![Term::Fraction], cut || frame_cut, Term::ImageStart);
    lemma_sum_if(
        v,
        seq![Term::Fraction] + term_if(cut || frame_cut, Term::ImageStart),
        !cut && !frame_cut,
        Term::Padding,
    );
}

impl AxisValues {
    /// The frame is the image with its padding on both sides.
    pub open spec fn framed(self) -> bool {
        &&& self.padding >= 0
        &&& self.image_start == self.rect_start + self.padding
        &&& self.image_end == self.rect_end - self.padding
    }

    /// How long the whole image is when it is drawn.
    pub open spec fn whole(self) -> int {
        if self.image_start < self.image_end {
            self.image_end - self.image_start
        } else {
            self.out_frame - 2 * self.padding
        }
    }

    /// Along the axis, the output is what lies inside of the compositor. The
    /// image is drawn in it where the image lies, only as far as it is inside,
    /// and the part of the input that is drawn is the one that lies there; what
    /// was cut off on request is cut off besides.
    pub open spec fn drawn_inside(self, rects: AxisRects) -> bool {
        let base = self.whole();
        &&& self.sum(rects.dst_start@) == self.fraction + max(self.image_start, 0) - max(
            self.rect_start,
            0,
        )
        &&& self.sum(rects.dst_size@) == base + min(self.image_start, 0) + min(
            self.compositor - self.image_end,
            0,
        )
        &&& self.sum(rects.original_start@) == self.fraction + self.image_start - max(
            self.rect_start,
            0,
        )
        &&& self.sum(rects.original_size@) == base
        &&& self.sum(rects.out_start@) == self.rect_start
        &&& self.sum(rects.out_size@) == min(self.rect_end, self.compositor) - max(
            self.rect_start,
            0,
        )
        &&& (self.sum(rects.src_start@) - self.crop_start) * base == max(-self.image_start, 0)
            * self.input
        &&& (self.sum(rects.src_end@) + self.crop_end) * base == (base + min(
            self.compositor - self.image_end,
            0,
        )) * self.input
    }

    /// Along the axis, the output is the whole frame, and the whole image is
    /// drawn behind its padding; only what was cut off on request is missing.
    pub open spec fn drawn_whole(self, rects: AxisRects) -> bool {
        &&& self.sum(rects.dst_start@) == self.fraction + self.padding
        &&& self.sum(rects.dst_size@) == self.whole()
        &&& self.sum(rects.original_start@) == self.fraction + self.padding
        &&& self.sum(rects.original_size@) == self.whole()
        &&& self.sum(rects.out_start@) == self.rect_start
        &&& self.sum(rects.out_size@) == self.rect_end - self.rect_start
        &&& self.sum(rects.src_start@) == self.crop_start
        &&& self.sum(rects.src_end@) == self.input - self.crop_end
    }
}

proof fn lemma_axis_is_drawn_inside(rects: AxisRects, v: AxisValues)
    requires
        rects.follows(true, v.facts()),
        v.framed(),
        v.scaled(),
    ensures
        v.drawn_inside(rects),
{
    let facts = v.facts();
    let cut = facts.image_before_start;
    let frame_cut = facts.rect_before_start && !cut;
    let past = facts.image_past_end;
    let base = base_size(facts);
    law_drawn_part_is_aligned(rects, v);
    law_only_the_visible_part_is_drawn(rects, v);
    lemma_sum_one(v, Term::Fraction);
    lemma_sum_if(v, seq![Term::Fraction], frame_cut, Term::ImageStart);
    let drawn = seq![Term::Fraction] + term_if(frame_cut, Term::ImageStart);
    lemma_sum_if(v, drawn, !cut && !frame_cut, Term::Padding);
    lemma_sum_one(v, Term::CropStart);
    lemma_sum_if(v, seq![Term::CropStart], cut, Term::ScaledImageStart);
    lemma_sum_one(v, Term::SourceEnd);
    lemma_sum_if(v, seq![Term::SourceEnd], past, Term::ScaledImageOverhang);
    lemma_sum_one(v, Term::RectStart);
    lemma_sum_one(v, base);
    lemma_sum_if(v, seq![base], cut, Term::ImageStart);
    lemma_sum_if(v, seq![base] + term_if(cut, Term::ImageStart), past, Term::ImageOverhang);
    let size = v.whole();
    let input = v.input;
    let start = v.scaled_start;
    let overhang = v.scaled_overhang;
    assert(0 * size == 0 && 0 * input == 0) by (nonlinear_arith);
    assert((-start) * size == -(start * size) && (-v.image_start) * input == -(v.image_start
        * input)) by (nonlinear_arith);
    assert((input + overhang) * size == input * size + overhang * size) by (nonlinear_arith);
    assert((size + (v.compositor - v.image_end)) * input == size * input + (v.compositor
        - v.image_end) * input) by (nonlinear_arith);
    assert(input * size == size * input) by (nonlinear_arith);
}

proof fn lemma_axis_is_drawn_whole(rects: AxisRects, v: AxisValues)
    requires
        rects.follows(false, v.facts()),
    ensures
        v.drawn_whole(rects),
{
    law_without_optimization_all_is_drawn(rects, v);
    lemma_sum_one(v, base_size(v.facts()));
    lemma_sum_one(v, Term::RectStart);
}

/// With the optimization, what is drawn along each axis is what lies inside of
/// the compositor along that axis, where it lies there, whatever lies along the
/// other one.
pub proof fn law_image_is_drawn_where_it_lies(
    common: ReshapeCommon,
    horizontal: AxisValues,
    vertical: AxisValues,
    r: TranslationRects,
)
    requires
        !common.settings.disable_crop_optimization,
        horizontal.framed() && horizontal.scaled(),
        vertical.framed() && vertical.scaled(),
        call_ensures(
            ReshapeCommon::compute_src_image_and_dest_rects,
            (&common, &horizontal.facts(), &vertical.facts()),
            r,
        ),
    ensures
        r.cropped,
        horizontal.drawn_inside(r.horizontal),
        vertical.drawn_inside(r.vertical),
{
    lemma_axis_is_drawn_inside(r.horizontal, horizontal);
    lemma_axis_is_drawn_inside(r.vertical, vertical);
}

/// Without the optimization, what is drawn is the whole image; it is a part of
/// the input exactly where something is cut off on request.
pub proof fn law_image_is_drawn_whole(
    common: ReshapeCommon,
    horizontal: AxisValues,
    vertical: AxisValues,
    r: TranslationRects,
)
    requires
        common.settings.disable_crop_optimization,
        call_ensures(
            ReshapeCommon::compute_src_image_and_dest_rects,
            (&common, &horizontal.facts(), &vertical.facts()),
            r,
        ),
    ensures
        r.cropped <==> !(common.settings.crop_left == 0 && common.settings.crop_right == 0
            && common.settings.crop_top == 0 && common.settings.crop_bottom == 0),
        horizontal.drawn_whole(r.horizontal),
        vertical.drawn_whole(r.vertical),
{
    lemma_axis_is_drawn_whole(r.horizontal, horizontal);
    lemma_axis_is_drawn_whole(r.vertical, vertical);
}

/// Where all of the frame lies inside of the compositor, and nothing is cut off
/// on request, the optimization makes no difference.
pub proof fn law_optimization_leaves_what_is_inside(
    common: ReshapeCommon,
    plain: ReshapeCommon,
    v: AxisValues,
    r: TranslationRects,
    s: TranslationRects,
)
    requires
        !common.settings.disable_crop_optimization,
        plain.settings.disable_crop_optimization,
        0 <= v.rect_start,
        0 <= v.image_start,
        v.rect_end <= v.compositor,
        v.image_end <= v.compositor,
        call_ensures(
            ReshapeCommon::compute_src_image_and_dest_rects,
            (&common, &v.facts(), &v.facts()),
            r,
        ),
        call_ensures(
            ReshapeCommon::compute_src_image_and_dest_rects,
            (&plain, &v.facts(), &v.facts()),
            s,
        ),
    ensures
        r.horizontal.dst_start@ == s.horizontal.dst_start@,
        r.horizontal.dst_size@ == s.horizontal.dst_size@,
        r.horizontal.src_start@ == s.horizontal.src_start@,
        r.horizontal.src_end@ == s.horizontal.src_end@,
        r.horizontal.out_start@ == s.horizontal.out_start@,
        r.horizontal.out_size@ == s.horizontal.out_size@,
        r.horizontal.original_start@ == s.horizontal.original_start@,
        r.horizontal.original_size@ == s.horizontal.original_size@,
{
}

/// Every pixel that is cut off on request makes the output a pixel smaller, and
/// every pixel of padding makes it two pixels larger, where the size of the
/// output is not known otherwise.
pub proof fn law_output_is_cropped_and_padded(
    common: ReshapeCommon,
    size: CapsSize,
    output: CapsSize,
    r: CapsSize,
)
    requires
        output.width is None,
        output.height is None,
        call_ensures(ReshapeCommon::transform_size, (&common, size, output), r),
    ensures
        size.width is Some <==> r.width is Some,
        size.height is Some <==> r.height is Some,
        size.width is Some ==> r.width->0 + common.settings.crop_left + common.settings.crop_right
            == size.width->0 + common.settings.padding_px + common.settings.padding_px,
        size.height is Some ==> r.height->0 + common.settings.crop_top
            + common.settings.crop_bottom == size.height->0 + common.settings.padding_px
            + common.settings.padding_px,
{
}

/// A known size of the output counts, and nothing is added to it.
pub proof fn law_known_output_size_counts(
    common: ReshapeCommon,
    size: CapsSize,
    output: CapsSize,
    r: CapsSize,
)
    requires
        output.width is Some || output.height is Some,
        call_ensures(ReshapeCommon::transform_size, (&common, size, output), r),
    ensures
        output.width is Some ==> r.width == output.width,
        output.height is Some ==> r.height == output.height,
        output.width is None ==> r.width == size.width,
        output.height is None ==> r.height == size.height,
{
}

/// The size that was computed is the size of the output, as far as it is not
/// empty. Where nothing was computed, the output has the size of the wanted
/// position, or none if there is no such position.
pub proof fn law_output_has_the_computed_size(
    common: ReshapeCommon,
    width: Extent,
    height: Extent,
    position: (i32, i32),
    r: CapsSize,
    guessed: CapsSize,
)
    requires
        call_ensures(
            ReshapeCommon::compute_output_size,
            (&common, Some((width, height)), position),
            r,
        ),
        call_ensures(ReshapeCommon::compute_output_size, (&common, None, position), guessed),
    ensures
        r.width is None <==> width.empty,
        r.height is None <==> height.empty,
        r.width is Some ==> r.width == Some(width.pixels),
        r.height is Some ==> r.height == Some(height.pixels),
        common.state.compositor_position is Some ==> guessed.width == Some(position.0)
            && guessed.height == Some(position.1),
        common.state.compositor_position is None ==> guessed.width is None && guessed.height
            is None,
{
}

/// Frames that were agreed upon count before caps, and the size of the
/// compositor stands in for whatever is not known yet.
pub proof fn law_known_sizes_count(
    common: ReshapeCommon,
    caps: Option<InputCaps>,
    r: Result<FrameSizes, SizesError>,
)
    requires
        call_ensures(ReshapeCommon::frame_sizes, (&common, caps), r),
    ensures
        common.state.in_info matches Some(info) ==> (r matches Ok(sizes) && sizes.input.width
            == info.width && sizes.input.height == info.height && sizes.in_frame == sizes.input),
        common.state.in_info is None && caps is None ==> r == Err::<FrameSizes, SizesError>(
            SizesError::NoStateYet,
        ),
        common.state.in_info is None && caps is Some ==> {
            &&& r is Ok <==> caps->0.fixed && caps->0.info is Some
            &&& r is Err ==> r->Err_0 == SizesError::NotNegotiated
            &&& r matches Ok(sizes) ==> sizes.input.width == caps->0.info->0.width
                && sizes.input.height == caps->0.info->0.height && sizes.in_frame
                == sizes.compositor
        },
        r matches Ok(sizes) ==> {
            &&& common.state.compositor_size is Some ==> Some(sizes.compositor)
                == common.state.compositor_size
            &&& common.state.compositor_size is None ==> sizes.compositor == sizes.input
            &&& common.state.out_info matches Some(info) ==> sizes.out_frame.width == info.width
                && sizes.out_frame.height == info.height
            &&& common.state.out_info is None ==> sizes.out_frame == sizes.compositor
        },
{
}

/// A position that is submitted a second time changes nothing, unless a
/// coordinate of it is no number.
pub proof fn law_same_position_is_not_negotiated_again(
    first: &mut ReshapeCommon,
    second: &mut ReshapeCommon,
    position: PositionRect,
    changed: bool,
    again: bool,
)
    requires
        !position.left.nan() && !position.top.nan() && !position.right.nan()
            && !position.bottom.nan(),
        call_ensures(ReshapeCommon::submit_input_buffer, (first, Some(position)), changed),
        *second == *final(first),
        call_ensures(ReshapeCommon::submit_input_buffer, (second, Some(position)), again),
    ensures
        !again,
        *final(second) == *final(first),
        changed ==> final(first).state.compositor_position == Some(position),
        !changed ==> *final(first) == *old(first),
        old(first).state.compositor_position is None ==> changed,
{
}

/// A position that differs in any coordinate, or is given up, is taken over and
/// told; nothing else is touched.
pub proof fn law_other_position_is_negotiated(
    common: &mut ReshapeCommon,
    position: Option<PositionRect>,
    changed: bool,
)
    requires
        call_ensures(ReshapeCommon::submit_input_buffer, (common, position), changed),
    ensures
        final(common).settings == old(common).settings,
        final(common).state.in_info == old(common).state.in_info,
        final(common).state.out_info == old(common).state.out_info,
        final(common).state.compositor_size == old(common).state.compositor_size,
        position is None && old(common).state.compositor_position is None ==> !changed,
        position is Some != old(common).state.compositor_position is Some ==> changed,
        position is Some && old(common).state.compositor_position is Some ==> {
            let now = position->0;
            let before = old(common).state.compositor_position->0;
            changed <==> !(now.left.same(before.left) && now.top.same(before.top)
                && now.right.same(before.right) && now.bottom.same(before.bottom))
        },
        changed ==> final(common).state.compositor_position == position,
{
}

/// The compositor has the size of the last structure that gives both lengths;
/// where none does, its size is not known.
pub proof fn law_compositor_has_the_last_full_size(
    common: &mut ReshapeCommon,
    structures: Vec<CapsSize>,
    i: int,
)
    requires
        call_ensures(ReshapeCommon::setup_compositor_size, (common, &structures), ()),
        0 <= i < structures@.len(),
        structures@[i].width is Some && structures@[i].height is Some,
        forall|j: int|
            i < j < structures@.len() ==> !((#[trigger] structures@[j]).width is Some
                && structures@[j].height is Some),
    ensures
        final(common).state.compositor_size matches Some(size) && size.width
            == structures@[i].width->0 && size.height == structures@[i].height->0,
        final(common).state.in_info == old(common).state.in_info,
        final(common).state.out_info == old(common).state.out_info,
        final(common).state.compositor_position == old(common).state.compositor_position,
        final(common).settings == old(common).settings,
{
    lemma_last_size(structures@, i);
}

proof fn lemma_last_size(structures: Seq<CapsSize>, i: int)
    requires
        0 <= i < structures.len(),
        structures[i].width is Some && structures[i].height is Some,
        forall|j: int|
            i < j < structures.len() ==> !((#[trigger] structures[j]).width is Some
                && structures[j].height is Some),
    ensures
        last_size(structures) == Some(
            Size {
                width: structures[i].width->0 as i64,
                height: structures[i].height->0 as i64,
            },
        ),
    decreases structures.len(),
{
    if i < structures.len() - 1 {
        let front = structures.drop_last();
        assert(structures.last() == structures[structures.len() - 1]);
        assert forall|j: int| i < j < front.len() implies !((#[trigger] front[j]).width is Some
            && front[j].height is Some) by {
            assert(front[j] == structures[j]);
        }
        lemma_last_size(front, i);
    }
}

/// Structures none of which gives both lengths leave the size of the compositor
/// unknown.
pub proof fn law_compositor_has_no_partial_size(
    common: &mut ReshapeCommon,
    structures: Vec<CapsSize>,
)
    requires
        call_ensures(ReshapeCommon::setup_compositor_size, (common, &structures), ()),
        forall|j: int|
            0 <= j < structures@.len() ==> !((#[trigger] structures@[j]).width is Some
                && structures@[j].height is Some),
    ensures
        final(common).state.compositor_size is None,
{
    lemma_no_last_size(structures@);
}

proof fn lemma_no_last_size(structures: Seq<CapsSize>)
    requires
        forall|j: int|
            0 <= j < structures.len() ==> !((#[trigger] structures[j]).width is Some
                && structures[j].height is Some),
    ensures
        last_size(structures) is None,
    decreases structures.len(),
{
    if structures.len() > 0 {
        let front = structures.drop_last();
        assert(structures.last() == structures[structures.len() - 1]);
        assert forall|j: int| 0 <= j < front.len() implies !((#[trigger] front[j]).width is Some
            && front[j].height is Some) by {
            assert(front[j] == structures[j]);
        }
        lemma_no_last_size(front);
    }
}

/// The whole input is drawn exactly where no part of it was asked for; a
/// transparent pixel takes the place of a part that could not be made, on the
/// side that draws.
pub proof fn law_part_is_drawn_where_it_can_be(
    rects: TranslationRects,
    subset: bool,
    gpu: bool,
    r: ImageChoice,
)
    requires
        call_ensures(ReshapeCommon::choose_image, (&rects, subset, gpu), r),
    ensures
        r is Whole <==> !rects.cropped,
        r is Subset <==> rects.cropped && subset,
        r is GpuFallback <==> rects.cropped && !subset && gpu,
        r is RasterFallback <==> rects.cropped && !subset && !gpu,
{
}

/// The metadata speaks of what is left of the frame only where something may
/// have been cut off; and only along an axis on which the frame starts before
/// the compositor is its position zero.
pub proof fn law_metadata_tells_what_was_cut_off(
    common: ReshapeCommon,
    known: bool,
    left: bool,
    top: bool,
    r: Option<CompositionMeta>,
)
    requires
        call_ensures(ReshapeCommon::copy_metadata, (&common, known, left, top), r),
    ensures
        r is Some <==> common.state.compositor_position is Some,
        r matches Some(meta) ==> {
            &&& meta.final_size == meta.original
            &&& meta.original <==> known && !common.settings.disable_crop_optimization
            &&& meta.x_at_zero <==> meta.original && left
            &&& meta.y_at_zero <==> meta.original && top
        },
{
}

/// What both sides agreed upon is taken over whole or not at all.
pub proof fn law_caps_are_taken_over_together(
    common: &mut ReshapeCommon,
    in_info: Option<VideoInfo>,
    out_info: Option<VideoInfo>,
    r: bool,
)
    requires
        call_ensures(ReshapeCommon::set_caps, (common, in_info, out_info), r),
    ensures
        r <==> in_info is Some && out_info is Some,
        r ==> final(common).state.in_info == in_info && final(common).state.out_info == out_info,
        !r ==> *final(common) == *old(common),
        final(common).settings == old(common).settings,
        final(common).state.compositor_position == old(common).state.compositor_position,
        final(common).state.compositor_size == old(common).state.compositor_size,
{
}

/// A setting that was changed is read back, and every other one reads as before.
pub proof fn law_settings_are_read_back(
    settings: &mut Settings,
    property: Property,
    value: PropertyValue,
    other: Property,
    before: PropertyValue,
    after: PropertyValue,
    own: PropertyValue,
)
    requires
        other != property,
        call_ensures(Settings::property, (&*settings, other), before),
        call_ensures(Settings::set_property, (settings, property, value), ()),
        call_ensures(Settings::property, (&*final(settings), other), after),
        call_ensures(Settings::property, (&*final(settings), property), own),
    ensures
        own == value,
        after == before,
{
}

/// The name of a setting leads to that setting.
pub proof fn law_settings_are_found_by_name(name: &str, property: Property, r: Option<Property>)
    requires
        name@ == property.text(),
        call_ensures(Property::from_name, (name,), r),
    ensures
        r == Some(property),
{
    if r is Some {
        law_property_names_are_distinct(property, r->0);
    }
}

/// Each name stands for the value that it names.
pub proof fn law_settings_have_their_names(settings: Settings, property: Property, r: PropertyValue)
    requires
        call_ensures(Settings::property, (&settings, property), r),
    ensures
        property.text() == "border-radius-px"@ ==> r == PropertyValue::Double(
            settings.border_radius_px,
        ),
        property.text() == "corner-smoothing-pct"@ ==> r == PropertyValue::Double(
            settings.corner_smoothing_pct,
        ),
        property.text() == "padding-px"@ ==> r == PropertyValue::Int(settings.padding_px),
        property.text() == "crop-left"@ ==> r == PropertyValue::Int(settings.crop_left),
        property.text() == "crop-right"@ ==> r == PropertyValue::Int(settings.crop_right),
        property.text() == "crop-top"@ ==> r == PropertyValue::Int(settings.crop_top),
        property.text() == "crop-bottom"@ ==> r == PropertyValue::Int(settings.crop_bottom),
        property.text() == "disable-crop-optimization"@ ==> r == PropertyValue::Boolean(
            settings.disable_crop_optimization,
        ),
{
    if property.text() == Property::BorderRadiusPx.text() {
        law_property_names_are_distinct(property, Property::BorderRadiusPx);
    }
    if property.text() == Property::CornerSmoothingPct.text() {
        law_property_names_are_distinct(property, Property::CornerSmoothingPct);
    }
    if property.text() == Property::PaddingPx.text() {
        law_property_names_are_distinct(property, Property::PaddingPx);
    }
    if property.text() == Property::CropLeft.text() {
        law_property_names_are_distinct(property, Property::CropLeft);
    }
    if property.text() == Property::CropRight.text() {
        law_property_names_are_distinct(property, Property::CropRight);
    }
    if property.text() == Property::CropTop.text() {
        law_property_names_are_distinct(property, Property::CropTop);
    }
    if property.text() == Property::CropBottom.text() {
        law_property_names_are_distinct(property, Property::CropBottom);
    }
    if property.text() == Property::DisableCropOptimization.text() {
        law_property_names_are_distinct(property, Property::DisableCropOptimization);
    }
}

/// A new element leaves frames as they are: nothing is cut off or added, and
/// nothing is known yet.
pub proof fn law_new_element_changes_nothing(r: ReshapeCommon)
    requires
        call_ensures(ReshapeCommon::new, (), r),
    ensures
        r.settings.crop_left == 0 && r.settings.crop_right == 0 && r.settings.crop_top == 0
            && r.settings.crop_bottom == 0 && r.settings.padding_px == 0,
        r.settings.border_radius_px == 0 && r.settings.corner_smoothing_pct == 0,
        r.settings.disable_crop_optimization,
        r.state.in_info is None && r.state.out_info is None,
        r.state.compositor_position is None && r.state.compositor_size is None,
{
    assert(r.settings.value(Property::CropLeft) == PropertyValue::Int(0));
    assert(r.settings.value(Property::CropRight) == PropertyValue::Int(0));
    assert(r.settings.value(Property::CropTop) == PropertyValue::Int(0));
    assert(r.settings.value(Property::CropBottom) == PropertyValue::Int(0));
    assert(r.settings.value(Property::PaddingPx) == PropertyValue::Int(0));
    assert(r.settings.value(Property::BorderRadiusPx) == PropertyValue::Double(0));
    assert(r.settings.value(Property::CornerSmoothingPct) == PropertyValue::Double(0));
}

/// Numbers are the same if their bits are, but for the two zeroes, and for what
/// is no number.
pub proof fn law_singles_compare_like_numbers(a: Single, b: Single, r: bool, back: bool, own: bool)
    requires
        call_ensures(Single::equals, (&a, &b), r),
        call_ensures(Single::equals, (&b, &a), back),
        call_ensures(Single::equals, (&a, &a), own),
    ensures
        r == back,
        r && a.bits != b.bits ==> a.bits % 0x8000_0000 == 0 && b.bits % 0x8000_0000 == 0,
        a.bits % 0x8000_0000 == 0 && b.bits % 0x8000_0000 == 0 ==> r,
        own <==> a.bits % 0x8000_0000 <= 0x7f80_0000,
{
}

/// Positions are equal where each of their sides is.
pub proof fn law_positions_compare_by_sides(
    a: PositionRect,
    b: PositionRect,
    r: bool,
    left: bool,
    top: bool,
    right: bool,
    bottom: bool,
)
    requires
        call_ensures(PositionRect::equals, (&a, &b), r),
        call_ensures(Single::equals, (&a.left, &b.left), left),
        call_ensures(Single::equals, (&a.top, &b.top), top),
        call_ensures(Single::equals, (&a.right, &b.right), right),
        call_ensures(Single::equals, (&a.bottom, &b.bottom), bottom),
    ensures
        r <==> left && top && right && bottom,
{
}

/// A size can be cropped and padded where nothing on the way there is too large, and
/// where the output is known there is nothing to do.
pub proof fn law_sizes_that_fit_are_transformed(
    element: ReshapeCommon,
    size: CapsSize,
    output: CapsSize,
    r: bool,
)
    requires
        call_ensures(ReshapeCommon::can_transform_size, (&element, size, output), r),
    ensures
        output.width is Some || output.height is Some ==> r,
        output.width is None && output.height is None ==> (r <==> {
            let s = element.settings;
            &&& size.width matches Some(length) ==> {
                &&& i32::MIN <= length - s.crop_left <= i32::MAX
                &&& i32::MIN <= length - s.crop_left - s.crop_right <= i32::MAX
                &&& i32::MIN <= s.padding_px + s.padding_px <= i32::MAX
                &&& i32::MIN <= length - s.crop_left - s.crop_right + 2 * s.padding_px <= i32::MAX
            }
            &&& size.height matches Some(length) ==> {
                &&& i32::MIN <= length - s.crop_top <= i32::MAX
                &&& i32::MIN <= length - s.crop_top - s.crop_bottom <= i32::MAX
                &&& i32::MIN <= s.padding_px + s.padding_px <= i32::MAX
                &&& i32::MIN <= length - s.crop_top - s.crop_bottom + 2 * s.padding_px <= i32::MAX
            }
        }),
{
}

/// Whatever the padding is, below zero too: an image that starts before the compositor is
/// drawn from the first pixel on, without what lies before; one whose frame alone does is
/// drawn where it starts; and any other one behind its padding. The output ends where the
/// frame or the compositor does, and starts with the frame if nothing is cut off there.
pub proof fn law_cut_image_is_drawn_from_the_first_pixel(
    common: ReshapeCommon,
    v: AxisValues,
    other: AxisFacts,
    r: TranslationRects,
    s: TranslationRects,
)
    requires
        !common.settings.disable_crop_optimization,
        v.scaled(),
        call_ensures(
            ReshapeCommon::compute_src_image_and_dest_rects,
            (&common, &v.facts(), &other),
            r,
        ),
        call_ensures(
            ReshapeCommon::compute_src_image_and_dest_rects,
            (&common, &other, &v.facts()),
            s,
        ),
    ensures
        v.drawn_from_the_start(r.horizontal),
        v.drawn_from_the_start(s.vertical),
{
    lemma_axis_is_drawn_from_the_start(r.horizontal, v);
    lemma_axis_is_drawn_from_the_start(s.vertical, v);
}

impl AxisValues {
    /// Along the axis, what is before the start of the compositor and past its end is cut
    /// off, and what is left is drawn from the start, from where the image starts, or from
    /// behind the padding.
    pub open spec fn drawn_from_the_start(self, rects: AxisRects) -> bool {
        let base = self.whole();
        let end = min(self.rect_end, self.compositor);
        &&& self.image_start < 0 ==> {
            &&& self.sum(rects.dst_start@) == self.fraction
            &&& self.sum(rects.original_start@) == self.fraction + self.image_start
            &&& self.sum(rects.out_size@) == end
        }
        &&& self.image_start >= 0 && self.rect_start < 0 ==> {
            &&& self.sum(rects.dst_start@) == self.fraction + self.image_start
            &&& self.sum(rects.original_start@) == self.fraction + self.image_start
            &&& self.sum(rects.out_size@) == end
        }
        &&& self.image_start >= 0 && self.rect_start >= 0 ==> {
            &&& self.sum(rects.dst_start@) == self.fraction + self.padding
            &&& self.sum(rects.original_start@) == self.fraction + self.padding
            &&& self.sum(rects.out_size@) == end - self.rect_start
        }
        &&& self.sum(rects.dst_size@) == base + min(self.image_start, 0) + min(
            self.compositor - self.image_end,
            0,
        )
        &&& self.sum(rects.original_size@) == base
        &&& self.sum(rects.out_start@) == self.rect_start
        &&& self.image_start >= 0 ==> self.sum(rects.src_start@) == self.crop_start
        &&& self.image_start < 0 ==> (self.crop_start - self.sum(rects.src_start@)) * base
            == self.image_start * self.input
        &&& self.image_end <= self.compositor ==> self.sum(rects.src_end@) == self.input
            - self.crop_end
        &&& self.image_end > self.compositor ==> (self.sum(rects.src_end@) + self.crop_end
            - self.input) * base == (self.compositor - self.image_end) * self.input
    }
}

proof fn lemma_axis_is_drawn_from_the_start(rects: AxisRects, v: AxisValues)
    requires
        rects.follows(true, v.facts()),
        v.scaled(),
    ensures
        v.drawn_from_the_start(rects),
{
    let facts = v.facts();
    let cut = facts.image_before_start;
    let frame_cut = facts.rect_before_start && !cut;
    let past = facts.image_past_end;
    let base = base_size(facts);
    lemma_sum_one(v, Term::Fraction);
    lemma_sum_if(v, seq![Term::Fraction], frame_cut, Term::ImageStart);
    let drawn = seq![Term::Fraction] + term_if(frame_cut, Term::ImageStart);
    lemma_sum_if(v, drawn, !cut && !frame_cut, Term::Padding);
    lemma_sum_if(v, seq![Term::Fraction], cut || frame_cut, Term::ImageStart);
    let whole = seq![Term::Fraction] + term_if(cut || frame_cut, Term::ImageStart);
    lemma_sum_if(v, whole, !cut && !frame_cut, Term::Padding);
    lemma_sum_one(v, Term::RectSize);
    lemma_sum_if(v, seq![Term::RectSize], cut || frame_cut, Term::RectStart);
    lemma_sum_if(
        v,
        seq![Term::RectSize] + term_if(cut || frame_cut, Term::RectStart),
        facts.rect_past_end,
        Term::RectOverhang,
    );
    lemma_sum_one(v, Term::CropStart);
    lemma_sum_if(v, seq![Term::CropStart], cut, Term::ScaledImageStart);
    lemma_sum_one(v, Term::SourceEnd);
    lemma_sum_if(v, seq![Term::SourceEnd], past, Term::ScaledImageOverhang);
    lemma_sum_one(v, Term::RectStart);
    lemma_sum_one(v, base);
    lemma_sum_if(v, seq![base], cut, Term::ImageStart);
    lemma_sum_if(v, seq![base] + term_if(cut, Term::ImageStart), past, Term::ImageOverhang);
}

/// Every new setting is zero, but for the one that says that nothing is cut off.
pub proof fn law_new_settings_cut_nothing_off(settings: Settings, property: Property,
    r: PropertyValue)
    requires
        call_ensures(Settings::new, (), settings),
        call_ensures(Settings::property, (&settings, property), r),
    ensures
        r == PropertyValue::Boolean(true) || r == PropertyValue::Int(0) || r
            == PropertyValue::Double(0),
        property is DisableCropOptimization <==> r is Boolean,
        property is BorderRadiusPx || property is CornerSmoothingPct <==> r is Double,
{
}

} // verus!

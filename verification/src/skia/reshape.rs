//! The element that reshapes frames in memory.
use vstd::prelude::*;

use crate::skia::reshape_common::{ReshapeCommon, VideoInfo};
use crate::values::FlowError;

verus! {

/// Reshapes frames in memory.
#[derive(Clone, Copy, Debug, PartialEq, Eq, Structural)]
pub struct SkiaReshape {
    pub common: ReshapeCommon,
}

impl SkiaReshape {
    /// What frames to draw: none if they are invisible; else those that were
    /// agreed upon.
    pub fn transform_frame_begin(&self, invisible: bool) -> (r: Result<
        Option<VideoInfo>,
        FlowError,
    >)
        ensures
            r == (if invisible {
                Ok::<Option<VideoInfo>, FlowError>(None)
            } else {
                match self.common.state.out_info {
                    Some(info) => Ok(Some(info)),
                    None => Err(FlowError::NotNegotiated),
                }
            }),
    {
        if invisible {
            return Ok(None);
        }
        match self.common.state.out_info {
            Some(info) => Ok(Some(info)),
            None => Err(FlowError::NotNegotiated),
        }
    }

    /// Whether a frame's memory is large enough to be drawn on: its rows have
    /// `row_bytes` bytes where `min_row_bytes` are needed, and it has
    /// `plane_bytes` bytes in all, if it could be mapped, where `needed_bytes`
    /// are needed.
    pub fn transform_frame_check(
        row_bytes: usize,
        min_row_bytes: usize,
        plane_bytes: Option<usize>,
        needed_bytes: usize,
    ) -> (r: Result<(), FlowError>)
        ensures
            r == (if row_bytes >= min_row_bytes && (plane_bytes matches Some(bytes) && bytes
                >= needed_bytes) {
                Ok::<(), FlowError>(())
            } else {
                Err(FlowError::Error)
            }),
    {
        if row_bytes < min_row_bytes {
            return Err(FlowError::Error);
        }
        match plane_bytes {
            Some(bytes) => if bytes < needed_bytes {
                Err(FlowError::Error)
            } else {
                Ok(())
            },
            None => Err(FlowError::Error),
        }
    }
}

/// An invisible frame is not drawn, whatever was agreed upon; a visible one is drawn as
/// was agreed upon, and fails without an agreement.
pub proof fn law_visible_frames_are_drawn(
    element: SkiaReshape,
    hidden: Result<Option<VideoInfo>, FlowError>,
    shown: Result<Option<VideoInfo>, FlowError>,
)
    requires
        call_ensures(SkiaReshape::transform_frame_begin, (&element, true), hidden),
        call_ensures(SkiaReshape::transform_frame_begin, (&element, false), shown),
    ensures
        hidden matches Ok(None),
        element.common.state.out_info matches Some(info) ==> shown == Ok::<
            Option<VideoInfo>,
            FlowError,
        >(Some(info)),
        element.common.state.out_info is None ==> shown is Err && shown->Err_0 is NotNegotiated,
{
}

/// Memory that is large enough is drawn on, and so is larger memory; a byte less in its
/// rows or in all is too little, and so is memory that could not be mapped.
pub proof fn law_larger_memory_is_large_enough(
    row: usize,
    min_row: usize,
    plane: usize,
    needed: usize,
    unmapped: Result<(), FlowError>,
    r: Result<(), FlowError>,
)
    requires
        call_ensures(SkiaReshape::transform_frame_check, (row, min_row, None, needed), unmapped),
        call_ensures(SkiaReshape::transform_frame_check, (row, min_row, Some(plane), needed), r),
    ensures
        unmapped is Err && unmapped->Err_0 is Error,
        r is Ok <==> min_row <= row && needed <= plane,
        r is Err ==> r->Err_0 is Error,
{
}

} // verus!

//! Prompts for common vision tasks.
use vstd::prelude::*;
use crate::text::concat3;

verus! {

/// Object detection with bounding boxes.
pub const OBJECT_DETECTION: &'static str = "Detect all prominent items in the image. Return a JSON array where each object has 'box_2d' as [ymin, xmin, ymax, xmax] normalized to 0-1000, and 'label' with a descriptive name.";

/// Segmentation with masks.
pub const SEGMENTATION: &'static str = "Give the segmentation masks for all objects. Return a JSON array where each entry has 'box_2d' as [ymin, xmin, ymax, xmax] normalized to 0-1000, 'mask' as a base64 PNG, and 'label'.";

/// What follows the objects in a detection prompt.
pub const DETECT_TAIL: &'static str = " in the image. Return a JSON array where each object has 'box_2d' as [ymin, xmin, ymax, xmax] normalized to 0-1000, and 'label'.";

/// What follows the objects in a segmentation prompt.
pub const SEGMENT_TAIL: &'static str = ". Return a JSON array where each entry has 'box_2d' as [ymin, xmin, ymax, xmax] normalized to 0-1000, 'mask' as base64 PNG, and 'label'.";

/// A prompt to detect the given objects.
pub fn detect_objects(objects: &str) -> (r: String)
    ensures
        r@ == "Detect "@ + objects@ + DETECT_TAIL@,
{
    concat3("Detect ", objects, DETECT_TAIL)
}

/// A prompt to segment the given objects.
pub fn segment_objects(objects: &str) -> (r: String)
    ensures
        r@ == "Give the segmentation masks for "@ + objects@ + SEGMENT_TAIL@,
{
    concat3("Give the segmentation masks for ", objects, SEGMENT_TAIL)
}

} // verus!

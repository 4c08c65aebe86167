//! Object detection and segmentation results.
use vstd::prelude::*;
use crate::text::{strip_prefix_or_self, without_prefix};

verus! {

/// A bounding box with coordinates normalized to 0-1000.
#[derive(Debug, Clone)]
pub struct BoundingBox2D {
    /// The coordinates `[ymin, xmin, ymax, xmax]`, normalized to 0-1000.
    pub box_2d: [i32; 4],
    /// Label of the detected object.
    pub label: String,
}

/// A segmentation mask: a bounding box, a label and a base64-encoded PNG mask.
#[derive(Debug, Clone)]
pub struct SegmentationMask {
    /// The coordinates `[ymin, xmin, ymax, xmax]`, normalized to 0-1000.
    pub box_2d: [i32; 4],
    /// Label of the segmented object.
    pub label: String,
    /// Base64-encoded PNG mask (a probability map 0-255), which the API prefixes
    /// with `data:image/png;base64,`.
    pub mask: String,
}

impl SegmentationMask {
    /// The base64 mask data without its data URI prefix.
    pub fn mask_base64(&self) -> (r: &str)
        ensures
            r@ == without_prefix(self.mask@, "data:image/png;base64,"@),
    {
        strip_prefix_or_self(self.mask.as_str(), "data:image/png;base64,")
    }
}

} // verus!

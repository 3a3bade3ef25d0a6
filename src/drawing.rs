use vstd::prelude::*;

verus! {

/// An exact angle of `num / den` thousandths of a degree, counter-clockwise
/// from the positive x-axis in the math frame.
#[derive(Clone, Copy, Debug, PartialEq, Eq, Structural)]
pub struct Angle {
    pub num: i64,
    pub den: u64,
}

/// Which end of a text run sits at its anchor point.
#[derive(Clone, Copy, Debug, PartialEq, Eq, Structural)]
pub enum Anchor {
    Start,
    End,
}

/// A radial line of one node: it starts `distance_from_center` from the
/// center along `angle` and runs `length` further outward.
/// Distances are in millionths of a unit.
#[derive(Clone, Copy, Debug, PartialEq, Eq, Structural)]
pub struct Segment {
    pub depth: u32,
    pub sibling: u64,
    pub angle: Angle,
    pub distance_from_center: i64,
    pub length: i64,
}

/// The arc bounding one ring: from `start_angle` to `end_angle` (thousandths of
/// a degree) at `radius` (millionths of a unit), taking the long sweep when
/// `long_way` holds.
#[derive(Clone, Copy, Debug, PartialEq, Eq, Structural)]
pub struct Sector {
    pub depth: u32,
    pub radius: i64,
    pub start_angle: i64,
    pub end_angle: i64,
    pub long_way: bool,
}

/// A text label of one node, drawn at `distance_from_center` (millionths of a
/// unit, along the x-axis from the center, negative on the inner half) and
/// `y_offset` above the center (thousandths), then rotated by `rotation` about
/// the center. `font_size` is in thousandths of a unit.
#[derive(Clone, Debug, PartialEq, Eq)]
pub struct Label {
    pub depth: u32,
    pub sibling: u64,
    pub content_index: usize,
    pub angle: Angle,
    pub rotation: Angle,
    pub anchor: Anchor,
    pub distance_from_center: i64,
    pub y_offset: i64,
    pub font_size: i64,
    pub text: String,
}

/// The three drawing passes of one layout.
#[derive(Clone, Debug, PartialEq, Eq)]
pub struct DrawingGroups {
    pub segments: Vec<Segment>,
    pub sectors: Vec<Sector>,
    pub labels: Vec<Label>,
}

/// Why a layout could not be built.
#[derive(Clone, Copy, Debug, PartialEq, Eq, Structural)]
pub enum LayoutError {
    /// The content array does not hold one entry per node.
    ContentSizeMismatch,
    /// A layout parameter is out of range.
    InvalidConfiguration,
}

} // verus!

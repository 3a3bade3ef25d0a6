use vstd::prelude::*;

use crate::drawing::{Angle, Anchor, DrawingGroups, Label, LayoutError, Segment, Sector};
use crate::position::Position;

verus! {

/// Deepest tree whose node numbers and angles this library computes exactly.
pub const MAX_DEPTH: u32 = 30;

/// Largest magnitude of a length, font size or modifier, in thousandths of a unit.
pub const LENGTH_BOUND: i64 = 100_000_000;

/// Largest magnitude of an angle, in thousandths of a degree.
pub const ANGLE_BOUND: i64 = 100_000_000;

/// A span wider than this (in thousandths of a degree) takes the long arc sweep.
pub const LONG_WAY_THRESHOLD: i64 = 135_000;

/// A right angle, in thousandths of a degree.
pub const QUARTER_TURN: i64 = 90_000;

/// A full turn, in thousandths of a degree.
pub const FULL_TURN: i64 = 360_000;

/// 2 raised to `d`.
pub open spec fn two_to(d: nat) -> nat
    decreases d,
{
    if d == 0 {
        1
    } else {
        2 * two_to((d - 1) as nat)
    }
}

pub proof fn lemma_two_to_pos(d: nat)
    ensures
        two_to(d) >= 1,
    decreases d,
{
    if d > 0 {
        lemma_two_to_pos((d - 1) as nat);
    }
}

pub proof fn lemma_two_to_mono(a: nat, b: nat)
    requires
        a <= b,
    ensures
        two_to(a) <= two_to(b),
    decreases b,
{
    if a < b {
        lemma_two_to_mono(a, (b - 1) as nat);
        lemma_two_to_pos((b - 1) as nat);
    }
}

pub proof fn lemma_two_to_31()
    ensures
        two_to(31) == 2147483648,
{
    reveal_with_fuel(two_to, 32);
}

/// Bounds on every power of two that a tree of at most `MAX_DEPTH` levels uses.
pub proof fn lemma_two_to_bound(d: nat)
    requires
        d <= MAX_DEPTH + 1,
    ensures
        1 <= two_to(d) <= 2147483648,
{
    lemma_two_to_pos(d);
    lemma_two_to_mono(d, 31);
    lemma_two_to_31();
}

/// Computes 2 raised to `d`.
pub fn two_pow(d: u32) -> (r: u64)
    requires
        d <= MAX_DEPTH + 1,
    ensures
        r == two_to(d as nat),
{
    let mut r: u64 = 1;
    let mut k: u32 = 0;
    while k < d
        invariant
            k <= d <= MAX_DEPTH + 1,
            r == two_to(k as nat),
        decreases d - k,
    {
        proof {
            lemma_two_to_bound((k + 1) as nat);
        }
        r = r * 2;
        k = k + 1;
    }
    r
}

/// Number of nodes at depths `1..=n` of a perfect binary tree of depth `n`.
pub open spec fn content_len(n: nat) -> int {
    two_to(n + 1) - 2
}

/// Position in the breadth-first content array of node `sibling` at `depth`.
pub open spec fn heap_index_spec(depth: nat, sibling: int) -> int {
    two_to(depth) + sibling - 2
}

/// Flat content-array position of the node with 0-based index `sibling`
/// among the nodes at `depth`.
pub fn heap_index(depth: u32, sibling: u64) -> (r: usize)
    requires
        1 <= depth <= MAX_DEPTH,
        sibling < two_to(depth as nat),
    ensures
        r == heap_index_spec(depth as nat, sibling as int),
{
    proof {
        lemma_two_to_bound(depth as nat);
        lemma_two_to_bound((depth - 1) as nat);
    }
    let m = two_pow(depth);
    (m + sibling - 2) as usize
}

/// The default content: node `k` of the breadth-first order carries the number `k + 1`.
pub fn create_content(num_segments: u32) -> (r: Vec<u64>)
    requires
        num_segments <= MAX_DEPTH,
    ensures
        r@.len() == content_len(num_segments as nat),
        forall|k: int| 0 <= k < r@.len() ==> r@[k] == k + 1,
{
    let mut content: Vec<u64> = Vec::new();
    let mut depth: u32 = 1;
    proof {
        reveal_with_fuel(two_to, 2);
    }
    while depth <= num_segments
        invariant
            1 <= depth <= num_segments + 1,
            num_segments <= MAX_DEPTH,
            content@.len() == two_to(depth as nat) - 2,
            forall|k: int| 0 <= k < content@.len() ==> content@[k] == k + 1,
        decreases num_segments + 1 - depth,
    {
        proof {
            lemma_two_to_bound(depth as nat);
            lemma_two_to_bound((depth + 1) as nat);
        }
        let max = two_pow(depth);
        let mut i: u64 = 0;
        while i < max
            invariant
                1 <= depth <= num_segments <= MAX_DEPTH,
                max == two_to(depth as nat),
                max <= 2147483648,
                i <= max,
                content@.len() == two_to(depth as nat) - 2 + i,
                forall|k: int| 0 <= k < content@.len() ==> content@[k] == k + 1,
            decreases max - i,
        {
            content.push(max + i - 1);
            i = i + 1;
        }
        depth = depth + 1;
    }
    content
}


pub open spec fn abs_int(x: int) -> int {
    if x < 0 {
        -x
    } else {
        x
    }
}

pub open spec fn within(v: int, bound: int) -> bool {
    -bound <= v <= bound
}

proof fn lemma_mul_within(a: int, b: int, ba: int, bb: int)
    requires
        within(a, ba),
        within(b, bb),
    ensures
        within(a * b, ba * bb),
{
    assert(-(ba * bb) <= a * b <= ba * bb) by (nonlinear_arith)
        requires
            -ba <= a <= ba,
            -bb <= b <= bb,
    ;
}

fn is_within(v: i64, bound: i64) -> (r: bool)
    requires
        bound >= 0,
    ensures
        r == within(v as int, bound as int),
{
    -bound <= v && v <= bound
}

/// Whether `initial - modifier * 2^d` is positive for every depth `d` in `1..=n`.
fn fonts_positive(initial: i64, modifier: i64, n: u32) -> (r: bool)
    requires
        n <= MAX_DEPTH,
        within(modifier as int, LENGTH_BOUND as int),
        within(initial as int, LENGTH_BOUND as int),
    ensures
        r == forall|d: nat| 1 <= d <= n ==> initial - modifier * two_to(d) > 0,
{
    let mut depth: u32 = 1;
    while depth <= n
        invariant
            n <= MAX_DEPTH,
            within(modifier as int, LENGTH_BOUND as int),
            within(initial as int, LENGTH_BOUND as int),
            1 <= depth <= n + 1,
            forall|d: nat| 1 <= d < depth ==> initial - modifier * two_to(d) > 0,
        decreases n + 1 - depth,
    {
        proof {
            lemma_two_to_bound(depth as nat);
            lemma_mul_within(modifier as int, two_to(depth as nat) as int, LENGTH_BOUND as int, 2147483648);
        }
        let max = two_pow(depth);
        if initial - modifier * (max as i64) <= 0 {
            assert(initial - modifier * two_to(depth as nat) <= 0);
            return false;
        }
        depth = depth + 1;
    }
    true
}

/// A half-circle tree on a page `width` wide and `height` tall (thousandths of
/// a unit): centered horizontally on the bottom margin, spanning 0 to 180
/// degrees with uniform rings that together reach `margin` from the sides.
pub open spec fn page_tree(
    width: i64,
    height: i64,
    margin: i64,
    num_segments: u32,
    line_width: i64,
    x_offset: i64,
    initial_text_y_offset: i64,
    text_y_modifier: i64,
    font_family: String,
    initial_font_size: i64,
    font_size_modifier: i64,
) -> CircularBinaryTree {
    CircularBinaryTree {
        center: Position { x: (width / 2) as i64, y: margin, height },
        segment_width: ((width / 2 - margin) / (num_segments as int)) as i64,
        segment_width_multiplier: 1000,
        num_segments,
        line_width,
        start_angle: 0,
        end_angle: 180_000,
        text_x_offset: (-x_offset) as i64,
        initial_text_y_offset,
        text_y_modifier,
        font_family,
        initial_font_size,
        font_size_modifier,
    }
}

/// Layout parameters of a circular binary tree.
///
/// Lengths, offsets, font sizes and their modifiers are in thousandths of a
/// unit; the radial width multiplier is in thousandths (1000 keeps every ring
/// as wide as the first); angles are in thousandths of a degree.
#[derive(Clone, Debug)]
pub struct CircularBinaryTree {
    pub center: Position,
    pub segment_width: i64,
    pub segment_width_multiplier: i64,
    pub num_segments: u32,
    pub line_width: i64,
    pub start_angle: i64,
    pub end_angle: i64,
    pub text_x_offset: i64,
    pub initial_text_y_offset: i64,
    pub text_y_modifier: i64,
    pub font_family: String,
    pub initial_font_size: i64,
    pub font_size_modifier: i64,
}

impl CircularBinaryTree {
    /// Every quantity lies in the range in which the layout is computed exactly.
    pub open spec fn wf(self) -> bool {
        &&& self.center.wf()
        &&& self.num_segments <= MAX_DEPTH
        &&& within(self.segment_width as int, LENGTH_BOUND as int)
        &&& within(self.segment_width_multiplier as int, LENGTH_BOUND as int)
        &&& within(self.line_width as int, LENGTH_BOUND as int)
        &&& within(self.start_angle as int, ANGLE_BOUND as int)
        &&& within(self.end_angle as int, ANGLE_BOUND as int)
        &&& within(self.text_x_offset as int, LENGTH_BOUND as int)
        &&& within(self.initial_text_y_offset as int, LENGTH_BOUND as int)
        &&& within(self.text_y_modifier as int, LENGTH_BOUND as int)
        &&& within(self.initial_font_size as int, LENGTH_BOUND as int)
        &&& within(self.font_size_modifier as int, LENGTH_BOUND as int)
    }

    /// Font size of the labels at `depth`, which holds `2^depth` nodes.
    pub open spec fn font_size_at(self, depth: nat) -> int {
        self.initial_font_size - self.font_size_modifier * two_to(depth)
    }

    /// Vertical label offset at `depth`.
    pub open spec fn y_offset_at(self, depth: nat) -> int {
        self.initial_text_y_offset - self.text_y_modifier * two_to(depth)
    }

    /// A usable configuration: in range, with a positive ring width, at least
    /// one generation, and a positive font size at every depth.
    pub open spec fn valid(self) -> bool {
        &&& self.wf()
        &&& self.segment_width > 0
        &&& self.num_segments >= 1
        &&& forall|d: nat| 1 <= d <= self.num_segments ==> #[trigger] self.font_size_at(d) > 0
    }

    /// Radius, in millionths of a unit, at which the band of `depth` starts.
    pub open spec fn band_radius(self, depth: int) -> int {
        depth * self.segment_width * self.segment_width_multiplier
    }

    /// Whether the span is wide enough for the arcs to take the long sweep.
    pub open spec fn long_way(self) -> bool {
        abs_int(self.end_angle - self.start_angle) > LONG_WAY_THRESHOLD
    }

    pub fn new(
        center: Position,
        segment_width: i64,
        segment_width_multiplier: i64,
        num_segments: u32,
        line_width: i64,
        start_angle: i64,
        end_angle: i64,
        text_x_offset: i64,
        initial_text_y_offset: i64,
        text_y_modifier: i64,
        font_family: String,
        initial_font_size: i64,
        font_size_modifier: i64,
    ) -> (r: Result<Self, LayoutError>)
        ensures
            match r {
                Ok(t) => {
                    &&& t.valid()
                    &&& t.center == center
                    &&& t.segment_width == segment_width
                    &&& t.segment_width_multiplier == segment_width_multiplier
                    &&& t.num_segments == num_segments
                    &&& t.line_width == line_width
                    &&& t.start_angle == start_angle
                    &&& t.end_angle == end_angle
                    &&& t.text_x_offset == text_x_offset
                    &&& t.initial_text_y_offset == initial_text_y_offset
                    &&& t.text_y_modifier == text_y_modifier
                    &&& t.font_family == font_family
                    &&& t.initial_font_size == initial_font_size
                    &&& t.font_size_modifier == font_size_modifier
                },
                Err(e) => {
                    &&& e == LayoutError::InvalidConfiguration
                    &&& !(CircularBinaryTree {
                        center,
                        segment_width,
                        segment_width_multiplier,
                        num_segments,
                        line_width,
                        start_angle,
                        end_angle,
                        text_x_offset,
                        initial_text_y_offset,
                        text_y_modifier,
                        font_family,
                        initial_font_size,
                        font_size_modifier,
                    }).valid()
                },
            },
    {
        let t = CircularBinaryTree {
            center,
            segment_width,
            segment_width_multiplier,
            num_segments,
            line_width,
            start_angle,
            end_angle,
            text_x_offset,
            initial_text_y_offset,
            text_y_modifier,
            font_family,
            initial_font_size,
            font_size_modifier,
        };
        let in_range = is_within(center.x, crate::position::COORD_BOUND) && is_within(
            center.y,
            crate::position::COORD_BOUND,
        ) && 0 <= center.height && center.height <= crate::position::COORD_BOUND
            && num_segments <= MAX_DEPTH && is_within(segment_width, LENGTH_BOUND) && is_within(
            segment_width_multiplier,
            LENGTH_BOUND,
        ) && is_within(line_width, LENGTH_BOUND) && is_within(start_angle, ANGLE_BOUND)
            && is_within(end_angle, ANGLE_BOUND) && is_within(text_x_offset, LENGTH_BOUND)
            && is_within(initial_text_y_offset, LENGTH_BOUND) && is_within(
            text_y_modifier,
            LENGTH_BOUND,
        ) && is_within(initial_font_size, LENGTH_BOUND) && is_within(
            font_size_modifier,
            LENGTH_BOUND,
        );
        if !in_range || segment_width <= 0 || num_segments == 0 {
            return Err(LayoutError::InvalidConfiguration);
        }
        if !fonts_positive(initial_font_size, font_size_modifier, num_segments) {
            proof {
                if t.valid() {
                    assert forall|d: nat| 1 <= d <= num_segments implies initial_font_size
                        - font_size_modifier * two_to(d) > 0 by {
                        assert(t.font_size_at(d) > 0);
                    }
                }
            }
            return Err(LayoutError::InvalidConfiguration);
        }
        Ok(t)
    }

    /// The tree that `page_tree` describes, or `InvalidConfiguration` when the
    /// page is empty or out of range, the margin leaves no room for the rings,
    /// `num_segments` is zero, or that tree is not valid. `x_offset` moves labels outward; it is stored negated as the
    /// radial text offset.
    pub fn for_page(
        width: i64,
        height: i64,
        margin: i64,
        num_segments: u32,
        line_width: i64,
        x_offset: i64,
        initial_text_y_offset: i64,
        text_y_modifier: i64,
        font_family: String,
        initial_font_size: i64,
        font_size_modifier: i64,
    ) -> (r: Result<Self, LayoutError>)
        ensures
            match r {
                Ok(t) => {
                    &&& t.valid()
                    &&& t == page_tree(
                        width,
                        height,
                        margin,
                        num_segments,
                        line_width,
                        x_offset,
                        initial_text_y_offset,
                        text_y_modifier,
                        font_family,
                        initial_font_size,
                        font_size_modifier,
                    )
                },
                Err(e) => {
                    &&& e == LayoutError::InvalidConfiguration
                    &&& !{
                        &&& 0 < width <= LENGTH_BOUND
                        &&& 0 < height <= LENGTH_BOUND
                        &&& 0 <= margin < width / 2
                        &&& within(x_offset as int, LENGTH_BOUND as int)
                        &&& num_segments >= 1
                        &&& page_tree(
                            width,
                            height,
                            margin,
                            num_segments,
                            line_width,
                            x_offset,
                            initial_text_y_offset,
                            text_y_modifier,
                            font_family,
                            initial_font_size,
                            font_size_modifier,
                        ).valid()
                    }
                },
            },
    {
        if width <= 0 || width > LENGTH_BOUND || height <= 0 || height > LENGTH_BOUND || margin < 0
            || !is_within(x_offset, LENGTH_BOUND) || num_segments == 0 {
            return Err(LayoutError::InvalidConfiguration);
        }
        let half = width / 2;
        if margin >= half {
            return Err(LayoutError::InvalidConfiguration);
        }
        let center = Position::new(half, margin, height);
        let segment_width = (half - margin) / (num_segments as i64);
        CircularBinaryTree::new(
            center,
            segment_width,
            1000,
            num_segments,
            line_width,
            0,
            180_000,
            -x_offset,
            initial_text_y_offset,
            text_y_modifier,
            font_family,
            initial_font_size,
            font_size_modifier,
        )
    }

    /// Radius at which the band of `depth` starts, in millionths of a unit.
    fn band_radius_at(&self, depth: u32) -> (r: i64)
        requires
            self.wf(),
            depth <= MAX_DEPTH + 1,
        ensures
            r == self.band_radius(depth as int),
            within(r as int, 31 * LENGTH_BOUND * LENGTH_BOUND),
    {
        proof {
            lemma_mul_within(depth as int, self.segment_width as int, 31, LENGTH_BOUND as int);
            lemma_mul_within(
                depth as int * self.segment_width,
                self.segment_width_multiplier as int,
                31 * LENGTH_BOUND,
                LENGTH_BOUND as int,
            );
        }
        (depth as i64) * self.segment_width * self.segment_width_multiplier
    }

    /// The radial line of node `sibling` at `depth`: along the bisector of the
    /// node's slot, from the start of its band out to the outer edge.
    pub open spec fn segment_spec(self, depth: nat, sibling: int) -> Segment {
        let den = two_to(depth + 1);
        Segment {
            depth: depth as u32,
            sibling: sibling as u64,
            angle: Angle {
                num: (self.start_angle * den + (self.end_angle - self.start_angle) * (2 * sibling
                    + 1)) as i64,
                den: den as u64,
            },
            distance_from_center: self.band_radius(depth as int) as i64,
            length: self.band_radius(self.num_segments - depth) as i64,
        }
    }

    /// The segments of the subtree rooted at node `sibling` of `depth`, in
    /// pre-order: the node, then its first child's subtree, then its second's.
    pub open spec fn segments_from(self, depth: nat, sibling: int) -> Seq<Segment>
        decreases self.num_segments - depth,
    {
        if depth >= self.num_segments {
            Seq::empty()
        } else {
            seq![self.segment_spec(depth, sibling)] + self.segments_from(depth + 1, 2 * sibling)
                + self.segments_from(depth + 1, 2 * sibling + 1)
        }
    }

    /// All radial segments, starting from the notional root at depth 0.
    pub open spec fn segments_spec(self) -> Seq<Segment> {
        self.segments_from(0, 0)
    }

    fn segments_inner(&self, depth: u32, sibling: u64, out: &mut Vec<Segment>)
        requires
            self.wf(),
            depth <= self.num_segments,
            sibling < two_to(depth as nat),
        ensures
            final(out)@ == old(out)@ + self.segments_from(depth as nat, sibling as int),
        decreases self.num_segments - depth,
    {
        if depth >= self.num_segments {
            assert(old(out)@ + self.segments_from(depth as nat, sibling as int) =~= old(out)@);
            return;
        }
        proof {
            lemma_two_to_bound(depth as nat);
            lemma_two_to_bound((depth + 1) as nat);
            assert(two_to((depth + 1) as nat) == 2 * two_to(depth as nat));
            lemma_mul_within(
                self.start_angle as int,
                two_to((depth + 1) as nat) as int,
                ANGLE_BOUND as int,
                2147483648,
            );
            lemma_mul_within(
                (self.end_angle - self.start_angle) as int,
                2 * sibling + 1,
                2 * ANGLE_BOUND,
                2147483648,
            );
        }
        let den = two_pow(depth + 1);
        let span = self.end_angle - self.start_angle;
        let num = self.start_angle * (den as i64) + span * ((2 * sibling + 1) as i64);
        let distance_from_center = self.band_radius_at(depth);
        let length = self.band_radius_at(self.num_segments - depth);
        out.push(
            Segment { depth, sibling, angle: Angle { num, den }, distance_from_center, length },
        );
        self.segments_inner(depth + 1, 2 * sibling, out);
        self.segments_inner(depth + 1, 2 * sibling + 1, out);
        assert(final(out)@ =~= old(out)@ + self.segments_from(depth as nat, sibling as int));
    }

    /// The radial lines of all nodes at depths `0..num_segments`.
    pub fn generate_segments(&self) -> (r: Vec<Segment>)
        requires
            self.wf(),
        ensures
            r@ == self.segments_spec(),
    {
        let mut segments: Vec<Segment> = Vec::new();
        self.segments_inner(0, 0, &mut segments);
        assert(segments@ =~= self.segments_spec());
        segments
    }

    /// Angular width of the whole span, in thousandths of a degree.
    pub open spec fn span_width(self) -> int {
        abs_int(self.end_angle - self.start_angle)
    }

    /// Whether node `sibling` of `depth` lies on the outer half, where its
    /// slot-boundary angle is under a right angle.
    pub open spec fn on_outer_half(self, depth: nat, sibling: int) -> bool {
        self.start_angle * two_to(depth) + sibling * self.span_width() < QUARTER_TURN * two_to(
            depth,
        )
    }

    /// `two_to(depth)` times the angle at which the label of node `sibling` of
    /// `depth` is drawn: the slot's start on the outer half, and the mirrored
    /// slot measured from the end angle on the inner half.
    pub open spec fn label_angle_num(self, depth: nat, sibling: int) -> int {
        if self.on_outer_half(depth, sibling) {
            self.start_angle * two_to(depth) + sibling * self.span_width()
        } else {
            self.end_angle * two_to(depth) + (sibling + 1) * self.span_width()
        }
    }

    /// The label of node `sibling` of `depth`, carrying its entry of `content`.
    pub open spec fn label_spec(self, content: Seq<String>, depth: nat, sibling: int) -> Label {
        let max = two_to(depth);
        let outer = self.on_outer_half(depth, sibling);
        let num = self.label_angle_num(depth, sibling);
        let index = heap_index_spec(depth, sibling);
        let offset = self.band_radius(depth as int) + 1000 * self.text_x_offset;
        Label {
            depth: depth as u32,
            sibling: sibling as u64,
            content_index: index as usize,
            angle: Angle { num: num as i64, den: max as u64 },
            rotation: Angle { num: (FULL_TURN * max - num) as i64, den: max as u64 },
            anchor: if outer {
                Anchor::End
            } else {
                Anchor::Start
            },
            distance_from_center: (if outer {
                offset
            } else {
                -offset
            }) as i64,
            y_offset: self.y_offset_at(depth) as i64,
            font_size: self.font_size_at(depth) as i64,
            text: content[index],
        }
    }

    /// The labels of all nodes at depths `1..=depth`, depth by depth, each
    /// depth in sibling order.
    pub open spec fn labels_upto(self, content: Seq<String>, depth: nat) -> Seq<Label>
        decreases depth,
    {
        if depth == 0 {
            Seq::empty()
        } else {
            self.labels_upto(content, (depth - 1) as nat) + Seq::new(
                two_to(depth),
                |i: int| self.label_spec(content, depth, i),
            )
        }
    }

    /// The labels of all nodes.
    pub open spec fn labels_spec(self, content: Seq<String>) -> Seq<Label> {
        self.labels_upto(content, self.num_segments as nat)
    }

    fn label_at(&self, content: &Vec<String>, depth: u32, sibling: u64) -> (r: Label)
        requires
            self.wf(),
            1 <= depth <= self.num_segments,
            sibling < two_to(depth as nat),
            content@.len() == content_len(self.num_segments as nat),
        ensures
            r == self.label_spec(content@, depth as nat, sibling as int),
    {
        proof {
            lemma_two_to_bound(depth as nat);
            lemma_two_to_bound((depth + 1) as nat);
            lemma_two_to_mono((depth + 1) as nat, (self.num_segments + 1) as nat);
            assert(two_to((depth + 1) as nat) == 2 * two_to(depth as nat));
            lemma_mul_within(
                self.start_angle as int,
                two_to(depth as nat) as int,
                ANGLE_BOUND as int,
                1073741824,
            );
            lemma_mul_within(
                self.end_angle as int,
                two_to(depth as nat) as int,
                ANGLE_BOUND as int,
                1073741824,
            );
            lemma_mul_within(sibling as int, self.span_width(), 1073741824, 2 * ANGLE_BOUND);
            lemma_mul_within(sibling + 1, self.span_width(), 1073741824, 2 * ANGLE_BOUND);
            lemma_mul_within(
                self.text_y_modifier as int,
                two_to(depth as nat) as int,
                LENGTH_BOUND as int,
                1073741824,
            );
            lemma_mul_within(
                self.font_size_modifier as int,
                two_to(depth as nat) as int,
                LENGTH_BOUND as int,
                1073741824,
            );
        }
        let max = two_pow(depth);
        let span = self.end_angle - self.start_angle;
        let span_width = if span < 0 {
            -span
        } else {
            span
        };
        let outer_num = self.start_angle * (max as i64) + (sibling as i64) * span_width;
        let outer = outer_num < QUARTER_TURN * (max as i64);
        let num = if outer {
            outer_num
        } else {
            self.end_angle * (max as i64) + ((sibling + 1) as i64) * span_width
        };
        let index = heap_index(depth, sibling);
        let offset = self.band_radius_at(depth) + 1000 * self.text_x_offset;
        Label {
            depth,
            sibling,
            content_index: index,
            angle: Angle { num, den: max },
            rotation: Angle { num: FULL_TURN * (max as i64) - num, den: max },
            anchor: if outer {
                Anchor::End
            } else {
                Anchor::Start
            },
            distance_from_center: if outer {
                offset
            } else {
                -offset
            },
            y_offset: self.initial_text_y_offset - self.text_y_modifier * (max as i64),
            font_size: self.initial_font_size - self.font_size_modifier * (max as i64),
            text: content[index].clone(),
        }
    }

    /// The labels of all nodes, or `ContentSizeMismatch` when `content` does not
    /// hold exactly one entry per node.
    pub fn generate_labels(&self, content: &Vec<String>) -> (r: Result<Vec<Label>, LayoutError>)
        requires
            self.wf(),
        ensures
            match r {
                Ok(labels) => content@.len() == content_len(self.num_segments as nat)
                    && labels@ == self.labels_spec(content@),
                Err(e) => e == LayoutError::ContentSizeMismatch && content@.len() != content_len(
                    self.num_segments as nat,
                ),
            },
    {
        proof {
            lemma_two_to_bound((self.num_segments + 1) as nat);
        }
        let expected = two_pow(self.num_segments + 1) - 2;
        if content.len() as u64 != expected {
            return Err(LayoutError::ContentSizeMismatch);
        }
        let mut labels: Vec<Label> = Vec::new();
        let mut depth: u32 = 1;
        while depth <= self.num_segments
            invariant
                self.wf(),
                content@.len() == content_len(self.num_segments as nat),
                1 <= depth <= self.num_segments + 1,
                labels@ == self.labels_upto(content@, (depth - 1) as nat),
            decreases self.num_segments + 1 - depth,
        {
            proof {
                lemma_two_to_bound(depth as nat);
            }
            let max = two_pow(depth);
            let mut i: u64 = 0;
            while i < max
                invariant
                    self.wf(),
                    content@.len() == content_len(self.num_segments as nat),
                    1 <= depth <= self.num_segments,
                    max == two_to(depth as nat),
                    i <= max,
                    labels@ == self.labels_upto(content@, (depth - 1) as nat) + Seq::new(
                        i as nat,
                        |k: int| self.label_spec(content@, depth as nat, k),
                    ),
                decreases max - i,
            {
                let label = self.label_at(content, depth, i);
                labels.push(label);
                proof {
                    assert(labels@ =~= self.labels_upto(content@, (depth - 1) as nat) + Seq::new(
                        (i + 1) as nat,
                        |k: int| self.label_spec(content@, depth as nat, k),
                    ));
                }
                i = i + 1;
            }
            assert(labels@ =~= self.labels_upto(content@, depth as nat));
            depth = depth + 1;
        }
        Ok(labels)
    }

    /// The bounding arc of the ring at `depth`.
    pub open spec fn sector_spec(self, depth: int) -> Sector {
        Sector {
            depth: depth as u32,
            radius: self.band_radius(depth) as i64,
            start_angle: self.start_angle,
            end_angle: self.end_angle,
            long_way: self.long_way(),
        }
    }

    /// One arc per depth `0..=num_segments`, innermost first.
    pub open spec fn sectors_spec(self) -> Seq<Sector> {
        Seq::new((self.num_segments + 1) as nat, |d: int| self.sector_spec(d))
    }

    fn long_way_exec(&self) -> (r: bool)
        requires
            self.wf(),
        ensures
            r == self.long_way(),
    {
        let span = self.end_angle - self.start_angle;
        let abs_span = if span < 0 {
            -span
        } else {
            span
        };
        abs_span > LONG_WAY_THRESHOLD
    }

    /// The bounding arcs of all rings.
    pub fn generate_sectors(&self) -> (r: Vec<Sector>)
        requires
            self.wf(),
        ensures
            r@ == self.sectors_spec(),
    {
        let long_way = self.long_way_exec();
        let mut sectors: Vec<Sector> = Vec::new();
        let mut depth: u32 = 0;
        while depth <= self.num_segments
            invariant
                self.wf(),
                long_way == self.long_way(),
                depth <= self.num_segments + 1,
                sectors@ =~= Seq::new(depth as nat, |d: int| self.sector_spec(d)),
            decreases self.num_segments + 1 - depth,
        {
            let radius = self.band_radius_at(depth);
            sectors.push(
                Sector {
                    depth,
                    radius,
                    start_angle: self.start_angle,
                    end_angle: self.end_angle,
                    long_way,
                },
            );
            depth = depth + 1;
        }
        assert(sectors@ =~= self.sectors_spec());
        sectors
    }

    /// `groups` is the layout of this tree with `content`.
    pub open spec fn layout_matches(self, content: Seq<String>, groups: DrawingGroups) -> bool {
        &&& groups.segments@ == self.segments_spec()
        &&& groups.sectors@ == self.sectors_spec()
        &&& groups.labels@ == self.labels_spec(content)
    }

    /// The segments, sectors and labels of the tree, or `ContentSizeMismatch`
    /// (and nothing else) when `content` does not hold exactly one entry per node.
    pub fn compute_layout(&self, content: &Vec<String>) -> (r: Result<DrawingGroups, LayoutError>)
        requires
            self.wf(),
        ensures
            match r {
                Ok(groups) => content@.len() == content_len(self.num_segments as nat)
                    && self.layout_matches(content@, groups),
                Err(e) => e == LayoutError::ContentSizeMismatch && content@.len() != content_len(
                    self.num_segments as nat,
                ),
            },
    {
        match self.generate_labels(content) {
            Ok(labels) => {
                let segments = self.generate_segments();
                let sectors = self.generate_sectors();
                Ok(DrawingGroups { segments, sectors, labels })
            },
            Err(e) => Err(e),
        }
    }
}

/// The subtree below node `sibling` of `depth` holds `2^(n - depth) - 1`
/// segments, one per node at depths `depth..n`.
pub proof fn lemma_segments_from_len(t: CircularBinaryTree, depth: nat, sibling: int)
    requires
        depth <= t.num_segments,
    ensures
        t.segments_from(depth, sibling).len() == two_to((t.num_segments - depth) as nat) - 1,
    decreases t.num_segments - depth,
{
    if depth < t.num_segments {
        lemma_segments_from_len(t, depth + 1, 2 * sibling);
        lemma_segments_from_len(t, depth + 1, 2 * sibling + 1);
        assert(two_to((t.num_segments - depth) as nat) == 2 * two_to(
            (t.num_segments - (depth + 1)) as nat,
        ));
    }
}

/// A tree of `num_segments` generations draws `2^num_segments - 1` radial
/// segments: one for each node at depths `0..num_segments`, the notional root
/// included.
pub proof fn lemma_segment_count(t: CircularBinaryTree)
    requires
        t.wf(),
    ensures
        t.segments_spec().len() == two_to(t.num_segments as nat) - 1,
{
    lemma_segments_from_len(t, 0, 0);
}

/// A tree of `num_segments` generations draws `num_segments + 1` arcs.
pub proof fn lemma_sector_count(t: CircularBinaryTree)
    requires
        t.wf(),
    ensures
        t.sectors_spec().len() == t.num_segments + 1,
{
}

/// The labels of depths `1..=depth` number `2^(depth+1) - 2`, and the `k`-th
/// of them shows entry `k` of the content.
pub proof fn lemma_labels_upto(t: CircularBinaryTree, content: Seq<String>, depth: nat)
    requires
        depth <= MAX_DEPTH,
    ensures
        t.labels_upto(content, depth).len() == two_to(depth + 1) - 2,
        forall|k: int|
            0 <= k < t.labels_upto(content, depth).len() ==> {
                &&& (#[trigger] t.labels_upto(content, depth)[k]).content_index == k
                &&& t.labels_upto(content, depth)[k].text == content[k]
            },
    decreases depth,
{
    reveal_with_fuel(two_to, 2);
    lemma_two_to_bound(depth + 1);
    if depth > 0 {
        lemma_labels_upto(t, content, (depth - 1) as nat);
        let prev = t.labels_upto(content, (depth - 1) as nat);
        assert(two_to(depth + 1) == 2 * two_to(depth));
        assert forall|k: int| 0 <= k < t.labels_upto(content, depth).len() implies {
            &&& (#[trigger] t.labels_upto(content, depth)[k]).content_index == k
            &&& t.labels_upto(content, depth)[k].text == content[k]
        } by {
            if k >= prev.len() {
                let i = k - prev.len();
                assert(t.labels_upto(content, depth)[k] == t.label_spec(content, depth, i));
                assert(heap_index_spec(depth, i) == k);
            } else {
                assert(t.labels_upto(content, depth)[k] == prev[k]);
            }
        }
    }
}

/// A tree of `num_segments` generations draws one label per content entry, and
/// label `k` is the one that shows entry `k`: the map from labels to content
/// positions is a bijection onto `0..content_len(num_segments)`.
pub proof fn lemma_label_content_bijection(t: CircularBinaryTree, content: Seq<String>)
    requires
        t.wf(),
    ensures
        t.labels_spec(content).len() == content_len(t.num_segments as nat),
        forall|k: int|
            0 <= k < t.labels_spec(content).len() ==> {
                &&& (#[trigger] t.labels_spec(content)[k]).content_index == k
                &&& t.labels_spec(content)[k].text == content[k]
            },
{
    lemma_labels_upto(t, content, t.num_segments as nat);
}

/// Two layouts computed from the same tree and the same content are identical.
pub proof fn lemma_layout_idempotent(
    t: CircularBinaryTree,
    content: Seq<String>,
    first: DrawingGroups,
    second: DrawingGroups,
)
    requires
        t.wf(),
        t.layout_matches(content, first),
        t.layout_matches(content, second),
    ensures
        first.segments@ == second.segments@,
        first.sectors@ == second.sectors@,
        first.labels@ == second.labels@,
{
}

} // verus!

//! The scene: every element of the drawing with its place and size.
//!
//! Lengths and coordinates are whole numbers of thousandths of a pixel. The
//! origin is the top left corner of the canvas, and `y` grows downwards.

use crate::data::{lemma_magnitude_prefix, magnitude, MAX_MAGNITUDE, VALUE_DIGITS};
use crate::geometry::PIXEL;
use crate::layout::{RenderData, RenderPlan};
use crate::text::{fixed_text, magnitude_of, push_fixed};
use crate::tool::StackedBarChartTool;
use vstd::arithmetic::div_mod::{
    lemma_fundamental_div_mod, lemma_fundamental_div_mod_converse, lemma_hoist_over_denominator,
    lemma_mod_bound,
};
use vstd::prelude::*;

verus! {

/// A point of the canvas.
#[derive(Clone, Copy, Debug, PartialEq, Eq, Structural)]
pub struct Point {
    pub x: i128,
    pub y: i128,
}

/// A text and the point it is anchored at.
#[derive(Clone, Debug)]
pub struct Label {
    pub text: String,
    pub x: i128,
    pub y: i128,
}

/// One layer of a bar: a rectangle that starts at its lower left corner
/// `(x, y)`, is `width` wide and rises by `height`. `category` is the index
/// of the layer, which picks its colour.
#[derive(Clone, Copy, Debug, PartialEq, Eq, Structural)]
pub struct Segment {
    pub category: usize,
    pub x: i128,
    pub y: i128,
    pub width: i128,
    pub height: i128,
}

/// A bar: its layers, bottom first.
#[derive(Clone, Debug)]
pub struct Bar {
    pub segments: Vec<Segment>,
}

/// An entry of the legend: a square swatch in the colour of the category
/// with index `category`, with its upper left corner at `(x, y)`, and the
/// name of the category.
#[derive(Clone, Debug)]
pub struct Swatch {
    pub category: usize,
    pub x: i128,
    pub y: i128,
    pub size: u32,
    pub corner_radius: u32,
    pub label: Label,
}

/// The drawing. Its parts are painted in this order, each over the ones
/// before: the style sheet, the bars, the axis, the labels under the bars,
/// the labels along the value axis, the title, the legend.
#[derive(Clone, Debug)]
pub struct Scene {
    pub width: i128,
    pub height: i128,
    pub styles: Vec<String>,
    pub bars: Vec<Bar>,
    pub axis: Vec<Point>,
    pub x_labels: Vec<Label>,
    pub y_labels: Vec<Label>,
    pub title: Label,
    pub legend: Vec<Swatch>,
}

/// What a `Label` holds, as mathematical values.
pub struct LabelView {
    pub text: Seq<char>,
    pub x: int,
    pub y: int,
}

/// What a `Segment` holds, as mathematical values.
pub struct SegmentView {
    pub category: int,
    pub x: int,
    pub y: int,
    pub width: int,
    pub height: int,
}

/// What a `Swatch` holds, as mathematical values.
pub struct SwatchView {
    pub category: int,
    pub x: int,
    pub y: int,
    pub size: int,
    pub corner_radius: int,
    pub label: LabelView,
}

/// What a `Scene` holds, as mathematical values.
pub struct SceneView {
    pub width: int,
    pub height: int,
    pub styles: Seq<Seq<char>>,
    pub bars: Seq<Seq<SegmentView>>,
    pub axis: Seq<(int, int)>,
    pub x_labels: Seq<LabelView>,
    pub y_labels: Seq<LabelView>,
    pub title: LabelView,
    pub legend: Seq<SwatchView>,
}

impl View for Label {
    type V = LabelView;

    open spec fn view(&self) -> LabelView {
        LabelView { text: self.text@, x: self.x as int, y: self.y as int }
    }
}

impl View for Segment {
    type V = SegmentView;

    open spec fn view(&self) -> SegmentView {
        SegmentView {
            category: self.category as int,
            x: self.x as int,
            y: self.y as int,
            width: self.width as int,
            height: self.height as int,
        }
    }
}

impl View for Bar {
    type V = Seq<SegmentView>;

    open spec fn view(&self) -> Seq<SegmentView> {
        self.segments@.map_values(|segment: Segment| segment@)
    }
}

impl View for Swatch {
    type V = SwatchView;

    open spec fn view(&self) -> SwatchView {
        SwatchView {
            category: self.category as int,
            x: self.x as int,
            y: self.y as int,
            size: self.size as int,
            corner_radius: self.corner_radius as int,
            label: self.label@,
        }
    }
}

impl View for Scene {
    type V = SceneView;

    open spec fn view(&self) -> SceneView {
        SceneView {
            width: self.width as int,
            height: self.height as int,
            styles: self.styles@.map_values(|rule: String| rule@),
            bars: self.bars@.map_values(|bar: Bar| bar@),
            axis: self.axis@.map_values(|point: Point| (point.x as int, point.y as int)),
            x_labels: self.x_labels@.map_values(|label: Label| label@),
            y_labels: self.y_labels@.map_values(|label: Label| label@),
            title: self.title@,
            legend: self.legend@.map_values(|swatch: Swatch| swatch@),
        }
    }
}

/// The distance of the labels under the bars from the axis.
pub const X_LABEL_DROP: u32 = 15_000;

/// The distance of the value labels from the axis, to its left.
pub const Y_LABEL_INSET: u32 = 10_000;

/// How far a value label sits below the height of its tick.
pub const Y_LABEL_DROP: u32 = 5_000;

/// The width of the canvas: the bars' columns between the side margins.
pub open spec fn canvas_width(plan: RenderPlan) -> int {
    plan.gutter.left + plan.bars.len() * plan.x_axis_item_width + plan.gutter.right
}

/// The height of the canvas: the axis between the plot's margins, and under
/// them the legend between its own.
pub open spec fn canvas_height(plan: RenderPlan) -> int {
    plan.gutter.bottom + plan.gutter.top + plan.y_axis_height + (plan.legend_gutter.bottom
        + plan.legend_gutter.top) + plan.legend_rect_size
}

/// The length of the value axis in value units.
pub open spec fn axis_span(plan: RenderPlan) -> int {
    plan.y_axis_range.max - plan.y_axis_range.min
}

/// The height on the canvas of the value `value`: its share of the axis,
/// rounded down. An axis without extent gives every value the height zero.
pub open spec fn scale(plan: RenderPlan, value: int) -> int {
    if axis_span(plan) == 0 {
        0
    } else {
        value * plan.y_axis_height / axis_span(plan)
    }
}

/// The `y` of the foot of the value axis, where the bars stand.
pub open spec fn baseline(plan: RenderPlan) -> int {
    plan.gutter.top + plan.y_axis_height
}

/// The axis: down the left of the plot, then along its foot.
pub open spec fn axis_points(plan: RenderPlan) -> Seq<(int, int)> {
    seq![
        (plan.gutter.left as int, plan.gutter.top as int),
        (plan.gutter.left as int, baseline(plan)),
        (canvas_width(plan) - plan.gutter.right, baseline(plan)),
    ]
}

/// The label under the bar with index `index`: in the middle of its column.
pub open spec fn x_label_at(plan: RenderPlan, index: int) -> LabelView {
    LabelView {
        text: plan.bars[index].label,
        x: plan.gutter.left + index * plan.x_axis_item_width + plan.x_axis_item_width / 2,
        y: baseline(plan) + X_LABEL_DROP,
    }
}

/// The number of ticks on the value axis: one at each end of every interval.
pub open spec fn tick_count(plan: RenderPlan) -> int {
    axis_span(plan) / (plan.y_axis_interval as int) + 1
}

/// The label of the tick with index `index`, counted from the foot of the
/// axis: the value there, at the height of the tick in whole pixels.
pub open spec fn y_label_at(plan: RenderPlan, index: int) -> LabelView {
    let above = index * plan.y_axis_interval;
    LabelView {
        text: fixed_text(
            above + plan.y_axis_range.min,
            VALUE_DIGITS as nat,
            plan.y_axis_decimal_places as nat,
        ),
        x: plan.gutter.left - Y_LABEL_INSET,
        y: baseline(plan) - scale(plan, above) / (PIXEL as int) * PIXEL + Y_LABEL_DROP,
    }
}

/// How far the first `count` layers of a bar with these values rise.
pub open spec fn raised(plan: RenderPlan, values: Seq<i64>, count: int) -> int
    decreases count,
{
    if count <= 0 {
        0
    } else {
        raised(plan, values, count - 1) + scale(plan, values[count - 1] as int)
    }
}

/// The width of a bar: half of its column.
pub open spec fn bar_width(plan: RenderPlan) -> int {
    (plan.x_axis_item_width / 2) as int
}

/// The layer with index `layer` of the bar with index `index`: as high as its
/// value, standing on the layers before it.
pub open spec fn segment_at(plan: RenderPlan, index: int, layer: int) -> SegmentView {
    let values = plan.bars[index].values;
    SegmentView {
        category: layer,
        x: plan.gutter.left + index * plan.x_axis_item_width + bar_width(plan) / 2,
        y: baseline(plan) - raised(plan, values, layer),
        width: bar_width(plan),
        height: scale(plan, values[layer] as int),
    }
}

/// The bar with index `index`.
pub open spec fn bar_at(plan: RenderPlan, index: int) -> Seq<SegmentView> {
    Seq::new(plan.bars[index].values.len(), |layer: int| segment_at(plan, index, layer))
}

/// The distance from one legend entry to the next: the canvas between the
/// legend's side margins, shared out over as many places as there are bars.
pub open spec fn legend_step(plan: RenderPlan) -> int {
    if plan.bars.len() == 0 {
        0
    } else {
        (canvas_width(plan) - (plan.legend_gutter.right + plan.legend_gutter.left)) / (
        plan.bars.len() as int)
    }
}

/// The `y` of the top of the legend's swatches.
pub open spec fn legend_top(plan: RenderPlan) -> int {
    plan.gutter.bottom + plan.gutter.top + plan.y_axis_height + plan.legend_gutter.top
}

/// The legend entry of the category with index `index`.
pub open spec fn swatch_at(plan: RenderPlan, index: int) -> SwatchView {
    let x = plan.legend_gutter.left + index * legend_step(plan);
    SwatchView {
        category: index,
        x,
        y: legend_top(plan),
        size: plan.legend_rect_size as int,
        corner_radius: plan.legend_rect_corner_radius as int,
        label: LabelView {
            text: plan.categories[index],
            x,
            y: legend_top(plan) + plan.legend_rect_size * 3 / 2,
        },
    }
}

/// The title: centred over the canvas, halfway down the top margin.
pub open spec fn title_label(plan: RenderPlan) -> LabelView {
    LabelView { text: plan.title, x: canvas_width(plan) / 2, y: (plan.gutter.top / 2) as int }
}

/// The scene of a plan.
pub open spec fn scene_of(plan: RenderPlan) -> SceneView {
    SceneView {
        width: canvas_width(plan),
        height: canvas_height(plan),
        styles: plan.styles,
        bars: Seq::new(plan.bars.len(), |index: int| bar_at(plan, index)),
        axis: axis_points(plan),
        x_labels: Seq::new(plan.bars.len(), |index: int| x_label_at(plan, index)),
        y_labels: Seq::new(tick_count(plan) as nat, |index: int| y_label_at(plan, index)),
        title: title_label(plan),
        legend: Seq::new(plan.categories.len(), |index: int| swatch_at(plan, index)),
    }
}

/// The canvas of the scene of a plan is as wide as the bars' columns and the
/// two side margins together.
pub proof fn lemma_canvas_width(plan: RenderPlan)
    ensures
        scene_of(plan).width == plan.gutter.left + plan.bars.len() * plan.x_axis_item_width
            + plan.gutter.right,
        scene_of(plan).bars.len() == plan.bars.len(),
{
}

/// A quotient rounded down is no further from zero than the dividend, and on
/// the same side of it.
pub proof fn lemma_quotient_bounds(dividend: int, divisor: int)
    requires
        divisor >= 1,
    ensures
        dividend >= 0 ==> 0 <= dividend / divisor <= dividend,
        dividend < 0 ==> dividend <= dividend / divisor < 0,
{
    let q = dividend / divisor;
    let r = dividend % divisor;
    lemma_fundamental_div_mod(dividend, divisor);
    lemma_mod_bound(dividend, divisor);
    assert(dividend >= 0 ==> 0 <= q <= dividend) by (nonlinear_arith)
        requires
            dividend == divisor * q + r,
            0 <= r < divisor,
    ;
    assert(dividend < 0 ==> dividend <= q < 0) by (nonlinear_arith)
        requires
            dividend == divisor * q + r,
            0 <= r < divisor,
    ;
}

/// The quotient of `dividend` by a positive `divisor`, rounded down.
pub fn floor_div(dividend: i128, divisor: i128) -> (quotient: i128)
    requires
        divisor > 0,
    ensures
        quotient == dividend as int / divisor as int,
{
    if dividend >= 0 {
        dividend / divisor
    } else {
        let size: u128 = magnitude_of(dividend);
        let wide: u128 = divisor as u128;
        let q: u128 = size / wide;
        let r: u128 = size % wide;
        proof {
            lemma_fundamental_div_mod(size as int, wide as int);
            lemma_quotient_bounds(size as int, wide as int);
        }
        if r == 0 {
            proof {
                assert(q >= 1) by (nonlinear_arith)
                    requires
                        size == wide * q + r,
                        r == 0,
                        size >= 1,
                        wide >= 1,
                ;
                assert(dividend as int == (-q) * wide + 0) by (nonlinear_arith)
                    requires
                        size == wide * q + r,
                        r == 0,
                        dividend == -size,
                ;
                lemma_fundamental_div_mod_converse(dividend as int, divisor as int, -q, 0);
            }
            -((q - 1) as i128) - 1
        } else {
            proof {
                assert(wide >= 2 && q <= size / 2) by (nonlinear_arith)
                    requires
                        size == wide * q + r,
                        0 < r < wide,
                        q >= 0,
                ;
                assert(dividend as int == (-q - 1) * wide + (wide - r)) by (nonlinear_arith)
                    requires
                        size == wide * q + r,
                        dividend == -size,
                ;
                lemma_fundamental_div_mod_converse(
                    dividend as int,
                    divisor as int,
                    -q - 1,
                    wide - r,
                );
            }
            -(q as i128) - 1
        }
    }
}

/// A height on the canvas is no further from zero than the value times the
/// height of the axis.
pub proof fn lemma_scale_bounds(plan: RenderPlan, value: int)
    requires
        plan.well_formed(),
    ensures
        value >= 0 ==> 0 <= scale(plan, value) <= value * plan.y_axis_height,
        value < 0 ==> value * plan.y_axis_height <= scale(plan, value) <= 0,
{
    let height = plan.y_axis_height as int;
    assert(value >= 0 ==> value * height >= 0) by (nonlinear_arith)
        requires
            height >= 0,
    ;
    assert(value < 0 ==> value * height <= 0) by (nonlinear_arith)
        requires
            height >= 0,
    ;
    if axis_span(plan) != 0 {
        lemma_quotient_bounds(value * height, axis_span(plan));
    }
}

/// The height on the canvas of a value of the plan.
pub fn scale_to(rd: &RenderData, value: i64) -> (height: i128)
    requires
        rd@.well_formed(),
    ensures
        height == scale(rd@, value as int),
{
    let span: i128 = rd.y_axis_range.max as i128 - rd.y_axis_range.min as i128;
    if span == 0 {
        0
    } else {
        assert(-0x1_0000_0000_0000_0000_0000_0000 <= (value as i128) * (rd.y_axis_height as i128)
            <= 0x1_0000_0000_0000_0000_0000_0000) by (nonlinear_arith)
            requires
                -0x8000_0000_0000_0000 <= value < 0x8000_0000_0000_0000,
                0 <= rd.y_axis_height < 0x1_0000_0000,
        ;
        floor_div((value as i128) * (rd.y_axis_height as i128), span)
    }
}

/// The layers of a bar rise no further than the magnitudes of their values
/// times the height of the axis.
pub proof fn lemma_raised_bounds(plan: RenderPlan, values: Seq<i64>, count: int)
    requires
        plan.well_formed(),
        0 <= count <= values.len(),
    ensures
        -magnitude(values.take(count)) * plan.y_axis_height <= raised(plan, values, count)
            <= magnitude(values.take(count)) * plan.y_axis_height,
    decreases count,
{
    let height = plan.y_axis_height as int;
    if count > 0 {
        lemma_raised_bounds(plan, values, count - 1);
        let value = values[count - 1] as int;
        lemma_scale_bounds(plan, value);
        assert(values.take(count).drop_last() =~= values.take(count - 1));
        let before = magnitude(values.take(count - 1));
        let size = if value < 0 { -value } else { value };
        assert((before + size) * height == before * height + size * height) by (nonlinear_arith);
        assert(-(before + size) * height == -before * height - size * height) by (nonlinear_arith);
        assert(value < 0 ==> size * height == -(value * height)) by (nonlinear_arith)
            requires
                value < 0 ==> size == -value,
        ;
    } else {
        assert(magnitude(values.take(0)) * height == 0) by (nonlinear_arith)
            requires
                magnitude(values.take(0)) == 0,
        ;
        assert(-magnitude(values.take(0)) * height == 0) by (nonlinear_arith)
            requires
                magnitude(values.take(0)) == 0,
        ;
    }
}

/// The bar with index `index` of a plan.
pub fn build_bar(rd: &RenderData, index: usize) -> (built: Bar)
    requires
        rd@.well_formed(),
        index < rd.bar_data.len(),
    ensures
        built@ == bar_at(rd@, index as int),
{
    let values: &Vec<i64> = &rd.bar_data[index].values;
    let width: i128 = (rd.x_axis_item_width / 2) as i128;
    assert(0 <= (index as i128) * (rd.x_axis_item_width as i128)
        <= 0x1_0000_0000_0000_0000_0000_0000) by (nonlinear_arith)
        requires
            0 <= index <= 0xffff_ffff_ffff_ffff,
            0 <= rd.x_axis_item_width < 0x1_0000_0000,
    ;
    let x: i128 = rd.gutter.left as i128 + (index as i128) * (rd.x_axis_item_width as i128) + width
        / 2;
    let foot: i128 = rd.gutter.top as i128 + rd.y_axis_height as i128;
    let mut y: i128 = foot;
    let mut segments: Vec<Segment> = Vec::new();
    let mut layer: usize = 0;
    proof {
        assert(rd@.bars[index as int].values == values@);
    }
    while layer < values.len()
        invariant
            rd@.well_formed(),
            index < rd.bar_data.len(),
            rd@.bars[index as int].values == values@,
            magnitude(values@) <= MAX_MAGNITUDE,
            layer <= values.len(),
            width == bar_width(rd@),
            x == rd.gutter.left + index * rd.x_axis_item_width + bar_width(rd@) / 2,
            foot == baseline(rd@),
            y == foot - raised(rd@, values@, layer as int),
            segments@.len() == layer,
            forall|k: int|
                0 <= k < layer ==> (#[trigger] segments@[k])@ == segment_at(rd@, index as int, k),
        decreases values.len() - layer,
    {
        proof {
            lemma_raised_bounds(rd@, values@, layer as int);
            lemma_raised_bounds(rd@, values@, layer + 1);
            lemma_magnitude_prefix(values@, layer as int);
            lemma_magnitude_prefix(values@, layer + 1);
            let height = rd.y_axis_height as int;
            let a = magnitude(values@.take(layer as int));
            let b = magnitude(values@.take(layer + 1));
            assert(a * height <= 0x1_0000_0000_0000_0000_0000_0000 && b * height
                <= 0x1_0000_0000_0000_0000_0000_0000) by (nonlinear_arith)
                requires
                    0 <= a <= 1_000_000_000_000_000_000,
                    0 <= b <= 1_000_000_000_000_000_000,
                    0 <= height < 0x1_0000_0000,
            ;
            assert(-a * height == -(a * height) && -b * height == -(b * height))
                by (nonlinear_arith);
        }
        let height: i128 = scale_to(rd, values[layer]);
        segments.push(Segment { category: layer, x, y, width, height });
        y = y - height;
        layer = layer + 1;
    }
    let built = Bar { segments };
    built
}

/// The labels under the bars of a plan.
pub fn build_x_labels(rd: &RenderData) -> (labels: Vec<Label>)
    ensures
        labels@.map_values(|label: Label| label@) == Seq::new(
            rd@.bars.len(),
            |index: int| x_label_at(rd@, index),
        ),
{
    let y: i128 = rd.gutter.top as i128 + rd.y_axis_height as i128 + X_LABEL_DROP as i128;
    let mut labels: Vec<Label> = Vec::new();
    let mut index: usize = 0;
    while index < rd.bar_data.len()
        invariant
            index <= rd.bar_data.len(),
            y == baseline(rd@) + X_LABEL_DROP,
            labels@.len() == index,
            forall|k: int| 0 <= k < index ==> (#[trigger] labels@[k])@ == x_label_at(rd@, k),
        decreases rd.bar_data.len() - index,
    {
        assert(0 <= (index as i128) * (rd.x_axis_item_width as i128)
            <= 0x1_0000_0000_0000_0000_0000_0000) by (nonlinear_arith)
            requires
                0 <= index <= 0xffff_ffff_ffff_ffff,
                0 <= rd.x_axis_item_width < 0x1_0000_0000,
        ;
        let x: i128 = rd.gutter.left as i128 + (index as i128) * (rd.x_axis_item_width as i128) + (
        rd.x_axis_item_width / 2) as i128;
        labels.push(Label { text: rd.bar_data[index].label.clone(), x, y });
        index = index + 1;
    }
    assert(labels@.map_values(|label: Label| label@) =~= Seq::new(
        rd@.bars.len(),
        |index: int| x_label_at(rd@, index),
    ));
    labels
}

/// Every tick lies on the axis: it stands no higher above the foot of the
/// axis than the axis is long, at a value within the range.
pub proof fn lemma_ticks_on_axis(plan: RenderPlan, index: int)
    requires
        plan.well_formed(),
        0 <= index < tick_count(plan),
    ensures
        0 <= index * plan.y_axis_interval <= axis_span(plan),
        0 <= scale(plan, index * plan.y_axis_interval) <= plan.y_axis_height,
{
    let span = axis_span(plan);
    let interval = plan.y_axis_interval as int;
    let height = plan.y_axis_height as int;
    let above = index * interval;
    lemma_fundamental_div_mod(span, interval);
    lemma_mod_bound(span, interval);
    let q = span / interval;
    assert(0 <= index * interval <= span) by (nonlinear_arith)
        requires
            0 <= index <= q,
            span == interval * q + span % interval,
            0 <= span % interval,
            interval > 0,
    ;
    lemma_scale_bounds(plan, above);
    if span != 0 {
        assert(above * height <= span * height) by (nonlinear_arith)
            requires
                0 <= above <= span,
                height >= 0,
        ;
        vstd::arithmetic::div_mod::lemma_div_is_ordered(above * height, span * height, span);
        vstd::arithmetic::div_mod::lemma_div_multiples_vanish(height, span);
        assert(span * height == height * span) by (nonlinear_arith);
    }
}

/// The layers of a bar stand on one another: each starts where the one
/// below it ends, and the first starts at the foot of the axis.
pub proof fn lemma_layers_stack(plan: RenderPlan, index: int, layer: int)
    requires
        layer >= 0,
    ensures
        segment_at(plan, index, 0).y == baseline(plan),
        segment_at(plan, index, layer + 1).y == segment_at(plan, index, layer).y - segment_at(
            plan,
            index,
            layer,
        ).height,
        segment_at(plan, index, layer + 1).x == segment_at(plan, index, layer).x,
{
    let values = plan.bars[index].values;
    assert(raised(plan, values, layer + 1) == raised(plan, values, layer) + scale(
        plan,
        values[layer] as int,
    ));
}

/// The labels along the value axis of a plan.
pub fn build_y_labels(rd: &RenderData) -> (labels: Vec<Label>)
    requires
        rd@.well_formed(),
    ensures
        labels@.map_values(|label: Label| label@) == Seq::new(
            tick_count(rd@) as nat,
            |index: int| y_label_at(rd@, index),
        ),
{
    let span: i128 = rd.y_axis_range.max as i128 - rd.y_axis_range.min as i128;
    let interval: i128 = rd.y_axis_interval as i128;
    let count: i128 = span / interval + 1;
    let x: i128 = rd.gutter.left as i128 - Y_LABEL_INSET as i128;
    let foot: i128 = rd.gutter.top as i128 + rd.y_axis_height as i128;
    proof {
        lemma_quotient_bounds(span as int, interval as int);
    }
    let mut labels: Vec<Label> = Vec::new();
    let mut index: i128 = 0;
    while index < count
        invariant
            rd@.well_formed(),
            0 <= index <= count <= 0x1_0000_0000_0000_0000,
            span == axis_span(rd@),
            interval == rd.y_axis_interval,
            count == tick_count(rd@),
            x == rd.gutter.left - Y_LABEL_INSET,
            foot == baseline(rd@),
            labels@.len() == index,
            forall|k: int| 0 <= k < index ==> (#[trigger] labels@[k])@ == y_label_at(rd@, k),
        decreases count - index,
    {
        proof {
            lemma_ticks_on_axis(rd@, index as int);
        }
        let above: i128 = index * interval;
        proof {
            assert(0 <= above * (rd.y_axis_height as i128) <= 0x1_0000_0000_0000_0000_0000_0000)
                by (nonlinear_arith)
                requires
                    0 <= above <= 0x1_0000_0000_0000_0000,
                    0 <= rd.y_axis_height < 0x1_0000_0000,
            ;
        }
        let rise: i128 = if span == 0 {
            0
        } else {
            above * (rd.y_axis_height as i128) / span
        };
        let mut text = String::new();
        push_fixed(
            &mut text,
            above + rd.y_axis_range.min as i128,
            VALUE_DIGITS,
            rd.y_axis_decimal_places as u32,
        );
        let y: i128 = foot - rise / (PIXEL as i128) * (PIXEL as i128) + Y_LABEL_DROP as i128;
        labels.push(Label { text, x, y });
        index = index + 1;
    }
    assert(labels@.map_values(|label: Label| label@) =~= Seq::new(
        tick_count(rd@) as nat,
        |index: int| y_label_at(rd@, index),
    ));
    labels
}

/// The step of the legend is at most a column and the side margins wide.
pub proof fn lemma_legend_step_bounds(plan: RenderPlan)
    ensures
        -0x2_0000_0000 <= legend_step(plan) <= 0x3_0000_0000,
{
    let count = plan.bars.len() as int;
    if count > 0 {
        let column = plan.x_axis_item_width as int;
        let rest = plan.gutter.left + plan.gutter.right - (plan.legend_gutter.right
            + plan.legend_gutter.left);
        assert(canvas_width(plan) - (plan.legend_gutter.right + plan.legend_gutter.left) == rest
            + column * count) by (nonlinear_arith)
            requires
                canvas_width(plan) == plan.gutter.left + count * column + plan.gutter.right,
                rest == plan.gutter.left + plan.gutter.right - (plan.legend_gutter.right
                    + plan.legend_gutter.left),
        ;
        lemma_hoist_over_denominator(rest, column, count as nat);
        lemma_quotient_bounds(rest, count);
    }
}

/// The legend of a plan.
pub fn build_legend(rd: &RenderData) -> (legend: Vec<Swatch>)
    ensures
        legend@.map_values(|entry: Swatch| entry@) == Seq::new(
            rd@.categories.len(),
            |index: int| swatch_at(rd@, index),
        ),
{
    let bars: usize = rd.bar_data.len();
    assert(0 <= (bars as i128) * (rd.x_axis_item_width as i128)
        <= 0x1_0000_0000_0000_0000_0000_0000) by (nonlinear_arith)
        requires
            0 <= bars <= 0xffff_ffff_ffff_ffff,
            0 <= rd.x_axis_item_width < 0x1_0000_0000,
    ;
    let width: i128 = rd.gutter.left as i128 + (bars as i128) * (rd.x_axis_item_width as i128)
        + rd.gutter.right as i128;
    let step: i128 = if bars == 0 {
        0
    } else {
        floor_div(width - rd.legend_gutter.left_right() as i128, bars as i128)
    };
    let y: i128 = rd.gutter.top_bottom() as i128 + rd.y_axis_height as i128
        + rd.legend_gutter.top as i128;
    let text_y: i128 = y + (rd.legend_rect_size as i128) * 3 / 2;
    proof {
        lemma_legend_step_bounds(rd@);
    }
    let mut legend: Vec<Swatch> = Vec::new();
    let mut index: usize = 0;
    while index < rd.categories.len()
        invariant
            index <= rd.categories.len(),
            step == legend_step(rd@),
            -0x2_0000_0000 <= step <= 0x3_0000_0000,
            y == legend_top(rd@),
            text_y == legend_top(rd@) + rd.legend_rect_size * 3 / 2,
            legend@.len() == index,
            forall|k: int| 0 <= k < index ==> (#[trigger] legend@[k])@ == swatch_at(rd@, k),
        decreases rd.categories.len() - index,
    {
        assert(-0x10_0000_0000_0000_0000_0000_0000 <= (index as i128) * step
            <= 0x10_0000_0000_0000_0000_0000_0000) by (nonlinear_arith)
            requires
                0 <= index <= 0xffff_ffff_ffff_ffff,
                -0x2_0000_0000 <= step <= 0x3_0000_0000,
        ;
        let x: i128 = rd.legend_gutter.left as i128 + (index as i128) * step;
        legend.push(
            Swatch {
                category: index,
                x,
                y,
                size: rd.legend_rect_size,
                corner_radius: rd.legend_rect_corner_radius,
                label: Label { text: rd.categories[index].clone(), x, y: text_y },
            },
        );
        index = index + 1;
    }
    assert(legend@.map_values(|entry: Swatch| entry@) =~= Seq::new(
        rd@.categories.len(),
        |index: int| swatch_at(rd@, index),
    ));
    legend
}

impl StackedBarChartTool {
    /// Places every element of the chart of a plan on the canvas.
    pub fn build_scene(&self, rd: &RenderData) -> (scene: Scene)
        requires
            rd@.well_formed(),
        ensures
            scene@ == scene_of(rd@),
    {
        let count: usize = rd.bar_data.len();
        assert(0 <= (count as i128) * (rd.x_axis_item_width as i128)
            <= 0x1_0000_0000_0000_0000_0000_0000) by (nonlinear_arith)
            requires
                0 <= count <= 0xffff_ffff_ffff_ffff,
                0 <= rd.x_axis_item_width < 0x1_0000_0000,
        ;
        let width: i128 = rd.gutter.left as i128 + (count as i128) * (rd.x_axis_item_width as i128)
            + rd.gutter.right as i128;
        let height: i128 = rd.gutter.top_bottom() as i128 + rd.y_axis_height as i128
            + rd.legend_gutter.top_bottom() as i128 + rd.legend_rect_size as i128;
        let foot: i128 = rd.gutter.top as i128 + rd.y_axis_height as i128;
        let mut axis: Vec<Point> = Vec::new();
        axis.push(Point { x: rd.gutter.left as i128, y: rd.gutter.top as i128 });
        axis.push(Point { x: rd.gutter.left as i128, y: foot });
        axis.push(Point { x: width - rd.gutter.right as i128, y: foot });
        let mut bars: Vec<Bar> = Vec::new();
        let mut index: usize = 0;
        while index < count
            invariant
                rd@.well_formed(),
                count == rd.bar_data.len(),
                index <= count,
                bars@.len() == index,
                forall|k: int| 0 <= k < index ==> (#[trigger] bars@[k])@ == bar_at(rd@, k),
            decreases count - index,
        {
            bars.push(build_bar(rd, index));
            index = index + 1;
        }
        let title = Label { text: rd.title.clone(), x: width / 2, y: (rd.gutter.top / 2) as i128 };
        let scene = Scene {
            width,
            height,
            styles: rd.styles.clone(),
            bars,
            axis,
            x_labels: build_x_labels(rd),
            y_labels: build_y_labels(rd),
            title,
            legend: build_legend(rd),
        };
        proof {
            let drawn = scene_of(rd@);
            assert(scene@.bars =~= drawn.bars);
            assert(scene@.axis =~= drawn.axis);
        }
        scene
    }
}

} // verus!

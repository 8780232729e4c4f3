//! From chart data to a render plan: validation, colours, the value axis and
//! the fixed measures of the drawing.

use crate::axis::{
    axis_decimal_places, axis_interval, axis_max, axis_top, decade_of, lemma_axis_of_span,
    lemma_axis_top, MAX_INTERVALS, MIN_DECADE,
};
use crate::color::{
    hsv_rgb, hue_at, lemma_category_color_fits, lemma_hue_spacing, step_hue,
    CATEGORY_SATURATION, CATEGORY_VALUE, HUE_ONE,
};
use crate::data::{
    chart_error, find_short_item, first_oversized_from, first_short_from, is_oversized, is_short,
    lemma_first_oversized, lemma_first_short, lemma_sum_within_magnitude, magnitude,
    stacked_sum, sum_values, ChartData, ChartError, ChartView, ItemData, ItemView,
    MAX_MAGNITUDE, VALUE_DIGITS,
};
use crate::geometry::Gutter;
use crate::text::{
    lemma_radix_text_len, nat_text, pow10_u64, power, push_nat, push_radix, radix_text,
};
use crate::tool::StackedBarChartTool;
use vstd::prelude::*;
use vstd::string::*;

verus! {

/// The margin on each side of the plot.
pub const PLOT_MARGIN: u32 = 40_000;

/// The height of the value axis.
pub const Y_AXIS_HEIGHT: u32 = 300_000;

/// The width of the column that each bar stands in.
pub const X_AXIS_ITEM_WIDTH: u32 = 30_000;

/// The side of a legend swatch.
pub const LEGEND_RECT_SIZE: u32 = 20_000;

/// The corner radius of a legend swatch.
pub const LEGEND_RECT_CORNER_RADIUS: u32 = 3_000;

/// The number of style rules that do not depend on the data.
pub const FIXED_STYLES: usize = 5;

/// The two ends of the value axis.
#[derive(Clone, Copy, Debug, PartialEq, Eq, Structural)]
pub struct AxisRange {
    pub min: i64,
    pub max: i64,
}

/// One bar of the plan: its label and its stacked values, bottom first.
#[derive(Clone, Debug)]
pub struct BarData {
    pub label: String,
    pub values: Vec<i64>,
}

/// What a `BarData` holds, as mathematical sequences.
pub struct BarView {
    pub label: Seq<char>,
    pub values: Seq<i64>,
}

impl View for BarData {
    type V = BarView;

    open spec fn view(&self) -> BarView {
        BarView { label: self.label@, values: self.values@ }
    }
}

/// Everything the drawing is made from. Lengths are in thousandths of a
/// pixel, axis quantities in millionths.
#[derive(Clone, Debug)]
pub struct RenderData {
    pub title: String,
    pub categories: Vec<String>,
    pub gutter: Gutter,
    pub y_axis_height: u32,
    pub y_axis_range: AxisRange,
    pub y_axis_interval: i64,
    pub y_axis_decimal_places: usize,
    pub x_axis_item_width: u32,
    pub bar_data: Vec<BarData>,
    pub styles: Vec<String>,
    pub legend_gutter: Gutter,
    pub legend_rect_size: u32,
    pub legend_rect_corner_radius: u32,
}

/// What a `RenderData` holds, as mathematical values.
pub struct RenderPlan {
    pub title: Seq<char>,
    pub categories: Seq<Seq<char>>,
    pub gutter: Gutter,
    pub y_axis_height: u32,
    pub y_axis_range: AxisRange,
    pub y_axis_interval: i64,
    pub y_axis_decimal_places: usize,
    pub x_axis_item_width: u32,
    pub bars: Seq<BarView>,
    pub styles: Seq<Seq<char>>,
    pub legend_gutter: Gutter,
    pub legend_rect_size: u32,
    pub legend_rect_corner_radius: u32,
}

impl View for RenderData {
    type V = RenderPlan;

    open spec fn view(&self) -> RenderPlan {
        RenderPlan {
            title: self.title@,
            categories: self.categories@.map_values(|name: String| name@),
            gutter: self.gutter,
            y_axis_height: self.y_axis_height,
            y_axis_range: self.y_axis_range,
            y_axis_interval: self.y_axis_interval,
            y_axis_decimal_places: self.y_axis_decimal_places,
            x_axis_item_width: self.x_axis_item_width,
            bars: self.bar_data@.map_values(|bar: BarData| bar@),
            styles: self.styles@.map_values(|rule: String| rule@),
            legend_gutter: self.legend_gutter,
            legend_rect_size: self.legend_rect_size,
            legend_rect_corner_radius: self.legend_rect_corner_radius,
        }
    }
}

impl RenderPlan {
    /// What a plan must satisfy to be drawn: a positive interval, a range
    /// that does not end below its start, labels no more precise than the
    /// values, and bars whose values stay within `MAX_MAGNITUDE`.
    pub open spec fn well_formed(self) -> bool {
        &&& self.y_axis_interval > 0
        &&& self.y_axis_range.min <= self.y_axis_range.max
        &&& self.y_axis_decimal_places <= VALUE_DIGITS
        &&& forall|i: int|
            0 <= i < self.bars.len() ==> magnitude(#[trigger] self.bars[i].values)
                <= MAX_MAGNITUDE
    }
}

impl RenderData {
    /// Whether this plan can be drawn.
    pub fn is_well_formed(&self) -> (ok: bool)
        ensures
            ok == self@.well_formed(),
    {
        if self.y_axis_interval <= 0 || self.y_axis_range.min > self.y_axis_range.max
            || self.y_axis_decimal_places > VALUE_DIGITS as usize {
            return false;
        }
        let mut i: usize = 0;
        while i < self.bar_data.len()
            invariant
                i <= self.bar_data.len(),
                forall|k: int|
                    0 <= k < i ==> magnitude(#[trigger] self@.bars[k].values) <= MAX_MAGNITUDE,
            decreases self.bar_data.len() - i,
        {
            assert(self@.bars[i as int].values == self.bar_data[i as int].values@);
            if sum_values(&self.bar_data[i].values).is_none() {
                return false;
            }
            i = i + 1;
        }
        true
    }
}

/// The margin around the plot.
pub open spec fn plot_gutter() -> Gutter {
    Gutter { left: PLOT_MARGIN, top: PLOT_MARGIN, right: PLOT_MARGIN, bottom: PLOT_MARGIN }
}

/// The margin around the legend.
pub open spec fn legend_gutter() -> Gutter {
    Gutter { left: 40_000, top: 10_000, right: 10_000, bottom: 80_000 }
}

/// The style rule that gives the layer with index `index` its fill colour.
pub open spec fn category_rule(index: nat, rgb: u32) -> Seq<char> {
    ".category-"@ + nat_text(index) + "{fill:#"@ + radix_text(rgb as nat, 16, 6)
        + ";stroke-width:0}"@
}

/// The colour of the layer with index `index`, when the first hue is `seed`.
pub open spec fn category_color(seed: int, index: nat) -> u32 {
    hsv_rgb(hue_at(seed, index), CATEGORY_SATURATION as int, CATEGORY_VALUE as int)
}

/// The style rule at position `position` among those that every chart has.
pub open spec fn fixed_style(position: int) -> Seq<char> {
    if position == 0 {
        ".labels{fill:rgb(0,0,0);font-size:10;font-family:Arial}"@
    } else if position == 1 {
        ".title{font-family:Arial;font-size:12;text-anchor:middle;}"@
    } else if position == 2 {
        ".legend{font-family:Arial;font-size:12pt;text-anchor:left;}"@
    } else if position == 3 {
        ".axis{fill:none;stroke:rgb(0,0,0);stroke-width:1;}"@
    } else {
        ".y-labels{text-anchor:end;}"@
    }
}

/// The style rule at position `position` of the style sheet: first the
/// fixed rules, then one colour rule for each item.
pub open spec fn style_rule(seed: int, position: int) -> Seq<char> {
    if position < FIXED_STYLES {
        fixed_style(position)
    } else {
        category_rule(
            (position - FIXED_STYLES) as nat,
            category_color(seed, (position - FIXED_STYLES) as nat),
        )
    }
}

/// The style sheet of a chart with `items` items.
pub open spec fn style_rules(seed: int, items: nat) -> Seq<Seq<char>> {
    Seq::new(FIXED_STYLES as nat + items, |position: int| style_rule(seed, position))
}

/// The bar that an item becomes.
pub open spec fn bar_of(item: ItemView) -> BarView {
    BarView { label: item.key, values: item.values }
}

/// The plan of a chart that `chart_error` accepts, with `seed` as the hue of
/// the first colour.
pub open spec fn render_plan(chart: ChartView, seed: int) -> RenderPlan {
    let top = axis_top(chart.items);
    RenderPlan {
        title: chart.title,
        categories: chart.categories,
        gutter: plot_gutter(),
        y_axis_height: Y_AXIS_HEIGHT,
        y_axis_range: AxisRange { min: 0, max: axis_max(top) as i64 },
        y_axis_interval: axis_interval(top) as i64,
        y_axis_decimal_places: axis_decimal_places(top) as usize,
        x_axis_item_width: X_AXIS_ITEM_WIDTH,
        bars: chart.items.map_values(|item: ItemView| bar_of(item)),
        styles: style_rules(seed, chart.items.len()),
        legend_gutter: legend_gutter(),
        legend_rect_size: LEGEND_RECT_SIZE,
        legend_rect_corner_radius: LEGEND_RECT_CORNER_RADIUS,
    }
}

/// What laying out a chart gives: the error it is rejected with, or its plan.
pub open spec fn layout_outcome(chart: ChartView, seed: int) -> Result<RenderPlan, ChartError> {
    match chart_error(chart) {
        Some(error) => Err(error),
        None => Ok(render_plan(chart, seed)),
    }
}

/// An item with fewer values than there are categories, with no such item
/// before it, has the chart rejected: the error names its index, the number
/// of categories and the number of its values.
pub proof fn lemma_short_item_is_rejected(chart: ChartView, seed: int, index: int)
    requires
        0 <= index < chart.items.len(),
        is_short(chart, index),
        forall|j: int| 0 <= j < index ==> !is_short(chart, j),
    ensures
        layout_outcome(chart, seed) == Err::<RenderPlan, ChartError>(
            ChartError::MissingValues {
                index: index as usize,
                expected: chart.categories.len() as usize,
                actual: chart.items[index].values.len() as usize,
            },
        ),
{
    lemma_first_short(chart, 0);
}

/// A chart is rejected for a lack of values only on account of an item that
/// has fewer values than there are categories: the item that the error
/// names is short, and a chart without short items gets no such error. So
/// no item with enough values has the chart rejected.
pub proof fn lemma_rejection_names_a_short_item(chart: ChartView, seed: int)
    requires
        chart.items.len() <= usize::MAX,
    ensures
        match layout_outcome(chart, seed) {
            Err(ChartError::MissingValues { index, expected, actual }) => {
                &&& index < chart.items.len()
                &&& is_short(chart, index as int)
            },
            _ => true,
        },
        (forall|j: int| 0 <= j < chart.items.len() ==> !is_short(chart, j)) ==> !(layout_outcome(
            chart,
            seed,
        ) matches Err(ChartError::MissingValues { .. })),
{
    lemma_first_short(chart, 0);
}

/// The axis of an accepted chart starts at zero and ends at or above the
/// stacked sum of every item: on the least whole number of intervals, at
/// most `MAX_INTERVALS` of them, that reaches the largest sum. The interval
/// is positive, and the plan can be drawn.
pub proof fn lemma_range_covers_sums(chart: ChartView, seed: int)
    requires
        chart_error(chart) is None,
    ensures
        render_plan(chart, seed).y_axis_range.min == 0,
        forall|i: int|
            0 <= i < chart.items.len() ==> render_plan(chart, seed).y_axis_range.max
                >= stacked_sum(#[trigger] chart.items[i].values),
        render_plan(chart, seed).y_axis_interval > 0,
        render_plan(chart, seed).y_axis_range.max >= 0,
        render_plan(chart, seed).y_axis_range.max % render_plan(chart, seed).y_axis_interval == 0,
        render_plan(chart, seed).y_axis_range.max <= MAX_INTERVALS * render_plan(
            chart,
            seed,
        ).y_axis_interval,
        render_plan(chart, seed).y_axis_range.max < axis_top(chart.items) + render_plan(
            chart,
            seed,
        ).y_axis_interval,
        render_plan(chart, seed).well_formed(),
{
    lemma_accepted_chart(chart);
    lemma_axis_top(chart.items);
    lemma_axis_of_span(axis_top(chart.items));
    let plan = render_plan(chart, seed);
    assert forall|k: int| 0 <= k < plan.bars.len() implies magnitude(
        #[trigger] plan.bars[k].values,
    ) <= MAX_MAGNITUDE by {
        assert(plan.bars[k] == bar_of(chart.items[k]));
    }
}

/// The colour rule of every layer shows its colour in exactly six
/// hexadecimal digits, whatever hue on the wheel the colours start from.
pub proof fn lemma_colour_rule_has_six_digits(seed: int, index: nat)
    requires
        0 <= seed < HUE_ONE,
    ensures
        radix_text(category_color(seed, index) as nat, 16, 6).len() == 6,
        style_rule(seed, FIXED_STYLES + index) == ".category-"@ + nat_text(index) + "{fill:#"@
            + radix_text(category_color(seed, index) as nat, 16, 6) + ";stroke-width:0}"@,
{
    lemma_hue_spacing(seed, index);
    lemma_category_color_fits(hue_at(seed, index));
    assert(power(16, 6) == 0x100_0000) by {
        reveal_with_fuel(power, 7);
    }
    lemma_radix_text_len(category_color(seed, index) as nat, 16, 6);
}

/// No item of an accepted chart is short or oversized.
pub proof fn lemma_accepted_chart(chart: ChartView)
    requires
        chart_error(chart) is None,
    ensures
        forall|i: int| 0 <= i < chart.items.len() ==> !is_short(chart, i),
        forall|i: int|
            0 <= i < chart.items.len() ==> magnitude(#[trigger] chart.items[i].values)
                <= MAX_MAGNITUDE,
{
    lemma_first_short(chart, 0);
    lemma_first_oversized(chart, 0);
    assert forall|i: int| 0 <= i < chart.items.len() implies magnitude(
        #[trigger] chart.items[i].values,
    ) <= MAX_MAGNITUDE by {
        assert(!is_oversized(chart, i));
    }
}

/// The style rule for the layer with index `index`.
pub fn category_style(index: usize, rgb: u32) -> (rule: String)
    ensures
        rule@ == category_rule(index as nat, rgb),
{
    let mut rule = String::from_str(".category-");
    push_nat(&mut rule, index as u128);
    rule.append("{fill:#");
    push_radix(&mut rule, rgb as u128, 16, 6);
    rule.append(";stroke-width:0}");
    rule
}

/// The style rules that every chart has.
pub fn fixed_styles() -> (styles: Vec<String>)
    ensures
        styles@.len() == FIXED_STYLES,
        forall|position: int|
            0 <= position < FIXED_STYLES ==> (#[trigger] styles@[position])@ == fixed_style(
                position,
            ),
{
    let mut styles: Vec<String> = Vec::new();
    styles.push(String::from_str(".labels{fill:rgb(0,0,0);font-size:10;font-family:Arial}"));
    styles.push(String::from_str(".title{font-family:Arial;font-size:12;text-anchor:middle;}"));
    styles.push(String::from_str(".legend{font-family:Arial;font-size:12pt;text-anchor:left;}"));
    styles.push(String::from_str(".axis{fill:none;stroke:rgb(0,0,0);stroke-width:1;}"));
    styles.push(String::from_str(".y-labels{text-anchor:end;}"));
    styles
}

impl StackedBarChartTool {
    /// Lays out a chart. `hue_seed` is the hue of the first category colour.
    ///
    /// A chart with an item that has fewer values than there are categories
    /// is rejected for the first such item; otherwise a chart with an item
    /// whose values are too large is rejected for the first of those.
    /// Every other chart gets its plan.
    pub fn process_chart_data(&self, cd: &ChartData, hue_seed: u64) -> (result: Result<
        RenderData,
        ChartError,
    >)
        requires
            hue_seed < HUE_ONE,
        ensures
            match result {
                Ok(rd) => layout_outcome(cd@, hue_seed as int) == Ok::<RenderPlan, ChartError>(rd@)
                    && rd@.well_formed(),
                Err(error) => layout_outcome(cd@, hue_seed as int) == Err::<
                    RenderPlan,
                    ChartError,
                >(error),
            },
    {
        let count: usize = cd.items.len();
        if let Some(index) = find_short_item(cd) {
            return Err(
                ChartError::MissingValues {
                    index,
                    expected: cd.categories.len(),
                    actual: cd.items[index].values.len(),
                },
            );
        }
        let ghost seed = hue_seed as int;
        let mut styles: Vec<String> = fixed_styles();
        let mut bar_data: Vec<BarData> = Vec::new();
        let mut top: i64 = 0;
        let mut hue: u64 = hue_seed;
        let mut i: usize = 0;
        while i < count
            invariant
                count == cd.items.len(),
                i <= count,
                0 <= seed < HUE_ONE,
                first_short_from(cd@, 0) is None,
                first_oversized_from(cd@, 0) == first_oversized_from(cd@, i as int),
                forall|k: int|
                    0 <= k < i ==> magnitude(#[trigger] cd@.items[k].values) <= MAX_MAGNITUDE,
                top == axis_top(cd@.items.take(i as int)),
                0 <= top <= MAX_MAGNITUDE,
                hue == hue_at(seed, i as nat),
                hue < HUE_ONE,
                styles@.len() == FIXED_STYLES + i,
                forall|k: int|
                    0 <= k < styles@.len() ==> (#[trigger] styles@[k])@ == style_rule(seed, k),
                bar_data@.len() == i,
                forall|k: int|
                    0 <= k < i ==> (#[trigger] bar_data@[k])@ == bar_of(cd@.items[k]),
            decreases count - i,
        {
            let item: &ItemData = &cd.items[i];
            proof {
                assert(cd@.items.take(i + 1).drop_last() =~= cd@.items.take(i as int));
                lemma_sum_within_magnitude(item@.values);
                lemma_hue_spacing(seed, i as nat);
            }
            let sum: i64 = match sum_values(&item.values) {
                Some(sum) => sum,
                None => {
                    return Err(ChartError::ValueOutOfRange { index: i });
                },
            };
            if sum > top {
                top = sum;
            }
            let rgb: u32 = Self::hsv_to_rgb(hue, CATEGORY_SATURATION, CATEGORY_VALUE);
            styles.push(category_style(i, rgb));
            bar_data.push(BarData { label: item.key.clone(), values: item.values.clone() });
            hue = step_hue(hue);
            i = i + 1;
        }
        proof {
            assert(cd@.items.take(i as int) =~= cd@.items);
            lemma_axis_of_span(top as int);
        }
        let e: u32 = decade_of(top as u64);
        let interval: u64 = pow10_u64(e) / 20;
        let places: u32 = if e < VALUE_DIGITS + MIN_DECADE {
            VALUE_DIGITS + MIN_DECADE - e
        } else {
            0
        };
        let max: u64 = (top as u64 + interval - 1) / interval * interval;
        let rd = RenderData {
            title: cd.title.clone(),
            categories: cd.categories.clone(),
            gutter: Gutter {
                left: PLOT_MARGIN,
                top: PLOT_MARGIN,
                right: PLOT_MARGIN,
                bottom: PLOT_MARGIN,
            },
            y_axis_height: Y_AXIS_HEIGHT,
            y_axis_range: AxisRange { min: 0, max: max as i64 },
            y_axis_interval: interval as i64,
            y_axis_decimal_places: places as usize,
            x_axis_item_width: X_AXIS_ITEM_WIDTH,
            bar_data,
            styles,
            legend_gutter: Gutter { left: 40_000, top: 10_000, right: 10_000, bottom: 80_000 },
            legend_rect_size: LEGEND_RECT_SIZE,
            legend_rect_corner_radius: LEGEND_RECT_CORNER_RADIUS,
        };
        proof {
            let plan = render_plan(cd@, seed);
            assert(rd@.bars =~= plan.bars);
            assert(rd@.styles =~= plan.styles);
            assert forall|k: int| 0 <= k < rd@.bars.len() implies magnitude(
                #[trigger] rd@.bars[k].values,
            ) <= MAX_MAGNITUDE by {
                assert(rd@.bars[k] == bar_of(cd@.items[k]));
            }
        }
        Ok(rd)
    }
}

} // verus!

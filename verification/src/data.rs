//! The chart as its author describes it, and what can be wrong with it.
//!
//! Values are fixed-point numbers: an `i64` counts millionths, so `VALUE_ONE`
//! stands for 1 and `2_500_000` for 2.5.

use crate::text::{nat_text, push_nat};
use vstd::prelude::*;
use vstd::string::*;

verus! {

/// The number of decimal digits a value carries after the point.
pub const VALUE_DIGITS: u32 = 6;

/// The fixed-point representation of the value 1.
pub const VALUE_ONE: i64 = 1_000_000;

/// The most that the magnitudes of one item's values may add up to.
pub const MAX_MAGNITUDE: u64 = 1_000_000_000_000_000_000;

/// One bar: its label and the values stacked in it, bottom first.
#[derive(Clone, Debug)]
pub struct ItemData {
    pub key: String,
    pub values: Vec<i64>,
}

/// A chart: its title, the unit of its values, the names of the stacking
/// layers and one item for each bar.
#[derive(Clone, Debug)]
pub struct ChartData {
    pub title: String,
    pub units: String,
    pub categories: Vec<String>,
    pub items: Vec<ItemData>,
}

/// What an `ItemData` holds, as mathematical sequences.
pub struct ItemView {
    pub key: Seq<char>,
    pub values: Seq<i64>,
}

/// What a `ChartData` holds, as mathematical sequences.
pub struct ChartView {
    pub title: Seq<char>,
    pub units: Seq<char>,
    pub categories: Seq<Seq<char>>,
    pub items: Seq<ItemView>,
}

impl View for ItemData {
    type V = ItemView;

    open spec fn view(&self) -> ItemView {
        ItemView { key: self.key@, values: self.values@ }
    }
}

impl View for ChartData {
    type V = ChartView;

    open spec fn view(&self) -> ChartView {
        ChartView {
            title: self.title@,
            units: self.units@,
            categories: self.categories@.map_values(|name: String| name@),
            items: self.items@.map_values(|item: ItemData| item@),
        }
    }
}

/// Why a chart cannot be laid out.
#[derive(Clone, Copy, Debug, PartialEq, Eq, Structural)]
pub enum ChartError {
    /// The item at `index` has `actual` values where the categories ask for
    /// `expected`.
    MissingValues { index: usize, expected: usize, actual: usize },
    /// The magnitudes of the values of the item at `index` add up to more than
    /// `MAX_MAGNITUDE`.
    ValueOutOfRange { index: usize },
}

/// The sum of all values of an item: the height of its bar.
pub open spec fn stacked_sum(values: Seq<i64>) -> int
    decreases values.len(),
{
    if values.len() == 0 {
        0
    } else {
        stacked_sum(values.drop_last()) + values.last()
    }
}

/// The sum of the distances of an item's values from zero.
pub open spec fn magnitude(values: Seq<i64>) -> int
    decreases values.len(),
{
    if values.len() == 0 {
        0
    } else {
        magnitude(values.drop_last()) + (if values.last() < 0 {
            -values.last()
        } else {
            values.last() as int
        })
    }
}

/// Whether the item at `index` has fewer values than there are categories.
pub open spec fn is_short(chart: ChartView, index: int) -> bool {
    chart.items[index].values.len() < chart.categories.len()
}

/// Whether the values of the item at `index` are too large to lay out.
pub open spec fn is_oversized(chart: ChartView, index: int) -> bool {
    magnitude(chart.items[index].values) > MAX_MAGNITUDE
}

/// The index of the first item from `start` on that is short, if there is one.
pub open spec fn first_short_from(chart: ChartView, start: int) -> Option<int>
    decreases chart.items.len() - start,
{
    if start < 0 || start >= chart.items.len() {
        None
    } else if is_short(chart, start) {
        Some(start)
    } else {
        first_short_from(chart, start + 1)
    }
}

/// The index of the first item from `start` on that is oversized, if there is one.
pub open spec fn first_oversized_from(chart: ChartView, start: int) -> Option<int>
    decreases chart.items.len() - start,
{
    if start < 0 || start >= chart.items.len() {
        None
    } else if is_oversized(chart, start) {
        Some(start)
    } else {
        first_oversized_from(chart, start + 1)
    }
}

/// The error that a chart is rejected with, if it is rejected.
///
/// A chart with a short item is rejected for the first such item. A chart
/// whose items are all long enough is rejected for its first oversized item.
pub open spec fn chart_error(chart: ChartView) -> Option<ChartError> {
    match first_short_from(chart, 0) {
        Some(index) => Some(
            ChartError::MissingValues {
                index: index as usize,
                expected: chart.categories.len() as usize,
                actual: chart.items[index].values.len() as usize,
            },
        ),
        None => match first_oversized_from(chart, 0) {
            Some(index) => Some(ChartError::ValueOutOfRange { index: index as usize }),
            None => None,
        },
    }
}

/// The message of an error.
pub open spec fn error_text(error: ChartError) -> Seq<char> {
    match error {
        ChartError::MissingValues { index, expected, actual } => "Item "@ + nat_text(index as nat)
            + " needs "@ + nat_text(expected as nat) + " values and has "@ + nat_text(
            actual as nat,
        ),
        ChartError::ValueOutOfRange { index } => "Item "@ + nat_text(index as nat)
            + " has values too large to chart"@,
    }
}

/// The sum of an item's values is no further from zero than their magnitude.
pub proof fn lemma_sum_within_magnitude(values: Seq<i64>)
    ensures
        -magnitude(values) <= stacked_sum(values) <= magnitude(values),
    decreases values.len(),
{
    if values.len() > 0 {
        lemma_sum_within_magnitude(values.drop_last());
    }
}

/// The magnitude of the first `count` values is no more than that of all.
pub proof fn lemma_magnitude_prefix(values: Seq<i64>, count: int)
    requires
        0 <= count <= values.len(),
    ensures
        0 <= magnitude(values.take(count)) <= magnitude(values),
    decreases values.len(),
{
    if count == values.len() {
        assert(values.take(count) =~= values);
        if values.len() > 0 {
            lemma_magnitude_prefix(values.drop_last(), count - 1);
        }
    } else {
        lemma_magnitude_prefix(values.drop_last(), count);
        assert(values.drop_last().take(count) =~= values.take(count));
    }
}

/// No item before the first short one is short, and where there is no first
/// short item, no item is short.
pub proof fn lemma_first_short(chart: ChartView, start: int)
    requires
        0 <= start,
    ensures
        match first_short_from(chart, start) {
            Some(index) => {
                &&& start <= index < chart.items.len()
                &&& is_short(chart, index)
                &&& forall|j: int| start <= j < index ==> !is_short(chart, j)
            },
            None => forall|j: int| start <= j < chart.items.len() ==> !is_short(chart, j),
        },
    decreases chart.items.len() - start,
{
    if start < chart.items.len() && !is_short(chart, start) {
        lemma_first_short(chart, start + 1);
    }
}

/// No item before the first oversized one is oversized, and where there is
/// no first oversized item, no item is oversized.
pub proof fn lemma_first_oversized(chart: ChartView, start: int)
    requires
        0 <= start,
    ensures
        match first_oversized_from(chart, start) {
            Some(index) => {
                &&& start <= index < chart.items.len()
                &&& is_oversized(chart, index)
                &&& forall|j: int| start <= j < index ==> !is_oversized(chart, j)
            },
            None => forall|j: int| start <= j < chart.items.len() ==> !is_oversized(chart, j),
        },
    decreases chart.items.len() - start,
{
    if start < chart.items.len() && !is_oversized(chart, start) {
        lemma_first_oversized(chart, start + 1);
    }
}

/// The sum of an item's values, or `None` where their magnitudes add up to
/// more than `MAX_MAGNITUDE`.
pub fn sum_values(values: &Vec<i64>) -> (sum: Option<i64>)
    ensures
        match sum {
            Some(total) => magnitude(values@) <= MAX_MAGNITUDE && total == stacked_sum(values@),
            None => magnitude(values@) > MAX_MAGNITUDE,
        },
{
    let mut total: i64 = 0;
    let mut reach: u64 = 0;
    let mut i: usize = 0;
    while i < values.len()
        invariant
            i <= values.len(),
            reach == magnitude(values@.take(i as int)),
            reach <= MAX_MAGNITUDE,
            total == stacked_sum(values@.take(i as int)),
            -reach <= total <= reach,
        decreases values.len() - i,
    {
        let value: i64 = values[i];
        let size: u64 = if value < 0 {
            ((-(value + 1)) as u64) + 1
        } else {
            value as u64
        };
        proof {
            assert(values@.take(i + 1).drop_last() =~= values@.take(i as int));
            lemma_magnitude_prefix(values@, i + 1);
        }
        if size > MAX_MAGNITUDE - reach {
            return None;
        }
        reach = reach + size;
        total = total + value;
        i = i + 1;
    }
    proof {
        assert(values@.take(i as int) =~= values@);
    }
    Some(total)
}

/// The index of the first item with fewer values than there are categories.
pub fn find_short_item(chart: &ChartData) -> (found: Option<usize>)
    ensures
        match found {
            Some(index) => index < chart.items.len() && first_short_from(chart@, 0) == Some(
                index as int,
            ),
            None => first_short_from(chart@, 0) is None,
        },
{
    let mut i: usize = 0;
    while i < chart.items.len()
        invariant
            i <= chart.items.len(),
            first_short_from(chart@, 0) == first_short_from(chart@, i as int),
        decreases chart.items.len() - i,
    {
        if chart.items[i].values.len() < chart.categories.len() {
            return Some(i);
        }
        i = i + 1;
    }
    None
}

impl ChartError {
    /// The message of this error, as a person would read it.
    pub fn message(&self) -> (text: String)
        ensures
            text@ == error_text(*self),
    {
        let mut text = String::new();
        text.append("Item ");
        match *self {
            ChartError::MissingValues { index, expected, actual } => {
                push_nat(&mut text, index as u128);
                text.append(" needs ");
                push_nat(&mut text, expected as u128);
                text.append(" values and has ");
                push_nat(&mut text, actual as u128);
            },
            ChartError::ValueOutOfRange { index } => {
                push_nat(&mut text, index as u128);
                text.append(" has values too large to chart");
            },
        }
        text
    }
}

} // verus!

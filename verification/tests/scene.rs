use stacked_bar_chart::data::{ChartData, ItemData, VALUE_ONE};
use stacked_bar_chart::geometry::Gutter;
use stacked_bar_chart::layout::{AxisRange, BarData, RenderData};
use stacked_bar_chart::scene::{
    build_bar, build_legend, build_x_labels, build_y_labels, floor_div, scale_to, Point, Segment,
};
use stacked_bar_chart::tool::StackedBarChartTool;

fn quarters() -> ChartData {
    ChartData {
        title: "Quarters".to_string(),
        units: "units".to_string(),
        categories: vec!["Q1".to_string(), "Q2".to_string()],
        items: vec![
            ItemData { key: "A".to_string(), values: vec![10 * VALUE_ONE, 20 * VALUE_ONE] },
            ItemData { key: "B".to_string(), values: vec![5 * VALUE_ONE, 15 * VALUE_ONE] },
        ],
    }
}

fn plan_of(values: &[i64], range: AxisRange, interval: i64, places: usize) -> RenderData {
    RenderData {
        title: "T".to_string(),
        categories: vec!["c".to_string()],
        gutter: Gutter { left: 40_000, top: 40_000, right: 40_000, bottom: 40_000 },
        y_axis_height: 300_000,
        y_axis_range: range,
        y_axis_interval: interval,
        y_axis_decimal_places: places,
        x_axis_item_width: 30_000,
        bar_data: vec![BarData { label: "bar".to_string(), values: values.to_vec() }],
        styles: Vec::new(),
        legend_gutter: Gutter { left: 40_000, top: 10_000, right: 10_000, bottom: 80_000 },
        legend_rect_size: 20_000,
        legend_rect_corner_radius: 3_000,
    }
}

#[test]
fn bars_stand_on_the_axis_and_stack_upwards() {
    let tool = StackedBarChartTool::new();
    let rd = tool.process_chart_data(&quarters(), 0).unwrap();
    let scene = tool.build_scene(&rd);
    assert_eq!(scene.bars.len(), 2);
    assert_eq!(
        scene.bars[0].segments,
        vec![
            Segment { category: 0, x: 47_500, y: 340_000, width: 15_000, height: 100_000 },
            Segment { category: 1, x: 47_500, y: 240_000, width: 15_000, height: 200_000 },
        ]
    );
    assert_eq!(
        scene.bars[1].segments,
        vec![
            Segment { category: 0, x: 77_500, y: 340_000, width: 15_000, height: 50_000 },
            Segment { category: 1, x: 77_500, y: 290_000, width: 15_000, height: 150_000 },
        ]
    );
}

#[test]
fn the_axis_runs_down_the_left_and_along_the_foot() {
    let tool = StackedBarChartTool::new();
    let rd = tool.process_chart_data(&quarters(), 0).unwrap();
    let scene = tool.build_scene(&rd);
    assert_eq!(
        scene.axis,
        vec![
            Point { x: 40_000, y: 40_000 },
            Point { x: 40_000, y: 340_000 },
            Point { x: 100_000, y: 340_000 },
        ]
    );
    assert_eq!(scene.width, 140_000);
    assert_eq!(scene.height, 490_000);
    assert_eq!(scene.styles, rd.styles);
}

#[test]
fn labels_sit_under_the_middle_of_their_columns() {
    let tool = StackedBarChartTool::new();
    let rd = tool.process_chart_data(&quarters(), 0).unwrap();
    let scene = tool.build_scene(&rd);
    let labels: Vec<(&str, i128, i128)> =
        scene.x_labels.iter().map(|label| (label.text.as_str(), label.x, label.y)).collect();
    assert_eq!(labels, vec![("A", 55_000, 355_000), ("B", 85_000, 355_000)]);
}

#[test]
fn ticks_run_from_the_foot_to_the_top_of_the_axis() {
    let tool = StackedBarChartTool::new();
    let rd = tool.process_chart_data(&quarters(), 0).unwrap();
    let scene = tool.build_scene(&rd);
    let labels: Vec<(&str, i128, i128)> =
        scene.y_labels.iter().map(|label| (label.text.as_str(), label.x, label.y)).collect();
    assert_eq!(
        labels,
        vec![
            ("0", 30_000, 345_000),
            ("5", 30_000, 295_000),
            ("10", 30_000, 245_000),
            ("15", 30_000, 195_000),
            ("20", 30_000, 145_000),
            ("25", 30_000, 95_000),
            ("30", 30_000, 45_000),
        ]
    );
}

#[test]
fn ticks_sit_on_whole_pixels() {
    let rd = plan_of(&[7 * VALUE_ONE], AxisRange { min: 0, max: 7 * VALUE_ONE }, VALUE_ONE / 2, 1);
    let labels = build_y_labels(&rd);
    assert_eq!(labels.len(), 15);
    assert_eq!((labels[0].text.as_str(), labels[0].y), ("0.0", 345_000));
    // Half a unit is 21.428 pixels high.
    assert_eq!((labels[1].text.as_str(), labels[1].y), ("0.5", 324_000));
    assert_eq!((labels[2].text.as_str(), labels[2].y), ("1.0", 303_000));
    assert_eq!((labels[13].text.as_str(), labels[13].y), ("6.5", 67_000));
    assert_eq!((labels[14].text.as_str(), labels[14].y), ("7.0", 45_000));
}

#[test]
fn ticks_start_at_the_lower_end_of_the_range() {
    let rd = plan_of(&[], AxisRange { min: -1_500_000, max: 500_000 }, 250_000, 2);
    let labels = build_y_labels(&rd);
    let texts: Vec<&str> = labels.iter().map(|label| label.text.as_str()).collect();
    assert_eq!(
        texts,
        vec!["-1.50", "-1.25", "-1.00", "-0.75", "-0.50", "-0.25", "0.00", "0.25", "0.50"]
    );
    assert_eq!(labels[8].y, 45_000);
    // A label with fewer places than its value has is rounded.
    let rd = plan_of(&[], AxisRange { min: 0, max: 500_000 }, 250_000, 1);
    let labels = build_y_labels(&rd);
    let texts: Vec<&str> = labels.iter().map(|label| label.text.as_str()).collect();
    assert_eq!(texts, vec!["0.0", "0.2", "0.5"]);
    // A range that is not a whole number of intervals has no tick at its top.
    let rd = plan_of(&[], AxisRange { min: 0, max: 10 }, 4, 6);
    let labels = build_y_labels(&rd);
    let texts: Vec<&str> = labels.iter().map(|label| label.text.as_str()).collect();
    assert_eq!(texts, vec!["0.000000", "0.000004", "0.000008"]);
}

#[test]
fn the_title_is_centred_in_the_top_margin() {
    let tool = StackedBarChartTool::new();
    let rd = tool.process_chart_data(&quarters(), 0).unwrap();
    let scene = tool.build_scene(&rd);
    assert_eq!(scene.title.text, "Quarters");
    assert_eq!((scene.title.x, scene.title.y), (70_000, 20_000));
}

#[test]
fn the_legend_is_spread_by_the_number_of_bars() {
    let tool = StackedBarChartTool::new();
    let rd = tool.process_chart_data(&quarters(), 0).unwrap();
    let scene = tool.build_scene(&rd);
    assert_eq!(scene.legend.len(), 2);
    let first = &scene.legend[0];
    assert_eq!((first.category, first.x, first.y), (0, 40_000, 390_000));
    assert_eq!((first.size, first.corner_radius), (20_000, 3_000));
    assert_eq!((first.label.text.as_str(), first.label.x, first.label.y), ("Q1", 40_000, 420_000));
    let second = &scene.legend[1];
    assert_eq!((second.category, second.x, second.y), (1, 85_000, 390_000));
    assert_eq!(
        (second.label.text.as_str(), second.label.x, second.label.y),
        ("Q2", 85_000, 420_000)
    );
}

#[test]
fn the_legend_step_is_rounded_down() {
    let mut rd = plan_of(&[], AxisRange { min: 0, max: 0 }, 5, 0);
    rd.bar_data = (0..7).map(|_| BarData { label: String::new(), values: Vec::new() }).collect();
    rd.categories = vec!["a".to_string(), "b".to_string(), "c".to_string()];
    // (290 - 50) / 7 = 34.285714...
    let legend = build_legend(&rd);
    let places: Vec<i128> = legend.iter().map(|entry| entry.x).collect();
    assert_eq!(places, vec![40_000, 74_285, 108_570]);
    // A canvas narrower than the legend's margins steps to the left.
    rd.gutter = Gutter { left: 0, top: 0, right: 0, bottom: 0 };
    rd.x_axis_item_width = 1;
    let legend = build_legend(&rd);
    let places: Vec<i128> = legend.iter().map(|entry| entry.x).collect();
    // (7 - 50000) / 7 = -7141.857..., rounded down.
    assert_eq!(places, vec![40_000, 32_858, 25_716]);
    assert_eq!(legend[2].y, 300_000 + 10_000);
    assert_eq!(legend[2].label.y, 300_000 + 10_000 + 30_000);
}

#[test]
fn heights_are_rounded_down_and_negative_values_hang() {
    let values = [8 * VALUE_ONE, -VALUE_ONE, 3];
    let rd = plan_of(&values, AxisRange { min: 0, max: 7 * VALUE_ONE }, VALUE_ONE / 2, 1);
    assert_eq!(scale_to(&rd, 8 * VALUE_ONE), 342_857);
    assert_eq!(scale_to(&rd, -VALUE_ONE), -42_858);
    assert_eq!(scale_to(&rd, 3), 0);
    assert_eq!(scale_to(&rd, -3), -1);
    assert_eq!(scale_to(&rd, 0), 0);
    let bar = build_bar(&rd, 0);
    assert_eq!(
        bar.segments,
        vec![
            Segment { category: 0, x: 47_500, y: 340_000, width: 15_000, height: 342_857 },
            Segment { category: 1, x: 47_500, y: -2_857, width: 15_000, height: -42_858 },
            Segment { category: 2, x: 47_500, y: 40_001, width: 15_000, height: 0 },
        ]
    );
}

#[test]
fn odd_widths_are_halved_downwards() {
    let mut rd = plan_of(&[VALUE_ONE], AxisRange { min: 0, max: VALUE_ONE }, VALUE_ONE, 0);
    rd.x_axis_item_width = 7;
    rd.gutter = Gutter { left: 1, top: 3, right: 0, bottom: 0 };
    rd.bar_data.push(BarData { label: "second".to_string(), values: vec![0] });
    let bar = build_bar(&rd, 1);
    assert_eq!(
        bar.segments,
        vec![Segment { category: 0, x: 1 + 7 + 1, y: 300_003, width: 3, height: 0 }]
    );
    let labels = build_x_labels(&rd);
    assert_eq!((labels[1].text.as_str(), labels[1].x, labels[1].y), ("second", 11, 315_003));
    let scene = StackedBarChartTool::new().build_scene(&rd);
    assert_eq!((scene.title.x, scene.title.y), (7, 1));
    assert_eq!(scene.width, 15);
}

#[test]
fn quotients_are_rounded_down() {
    assert_eq!(floor_div(7, 2), 3);
    assert_eq!(floor_div(-7, 2), -4);
    assert_eq!(floor_div(-8, 2), -4);
    assert_eq!(floor_div(8, 2), 4);
    assert_eq!(floor_div(0, 5), 0);
    assert_eq!(floor_div(-1, 1_000_000), -1);
    assert_eq!(floor_div(1, 1_000_000), 0);
    let bound: i128 = 1 << 126;
    assert_eq!(floor_div(bound, 1), bound);
    assert_eq!(floor_div(-bound, 1), -bound);
    assert_eq!(floor_div(-bound, bound), -1);
    assert_eq!(floor_div(-bound + 1, bound), -1);
    assert_eq!(floor_div(-bound, i128::MAX), -1);
    assert_eq!(floor_div(i128::MIN, 1), i128::MIN);
    assert_eq!(floor_div(i128::MIN, 2), -bound);
    assert_eq!(floor_div(i128::MIN, 3), -56713727820156410577229101238628035243);
    assert_eq!(floor_div(i128::MIN, i128::MAX), -2);
    assert_eq!(floor_div(i128::MIN + 1, i128::MAX), -1);
    assert_eq!(floor_div(i128::MAX, i128::MAX), 1);
    assert_eq!(floor_div(i128::MAX, 1), i128::MAX);
}

#[test]
fn a_plan_is_well_formed_within_its_limits() {
    let tool = StackedBarChartTool::new();
    assert!(tool.process_chart_data(&quarters(), 0).unwrap().is_well_formed());
    let good = plan_of(&[1, -2], AxisRange { min: -5, max: 5 }, 1, 6);
    assert!(good.is_well_formed());
    let flat = plan_of(&[], AxisRange { min: 7, max: 7 }, i64::MAX, 0);
    assert!(flat.is_well_formed());
    let no_interval = plan_of(&[], AxisRange { min: 0, max: 5 }, 0, 0);
    assert!(!no_interval.is_well_formed());
    let backwards_interval = plan_of(&[], AxisRange { min: 0, max: 5 }, -1, 0);
    assert!(!backwards_interval.is_well_formed());
    let backwards_range = plan_of(&[], AxisRange { min: 1, max: 0 }, 1, 0);
    assert!(!backwards_range.is_well_formed());
    let too_precise = plan_of(&[], AxisRange { min: 0, max: 5 }, 1, 7);
    assert!(!too_precise.is_well_formed());
    let too_large = plan_of(&[i64::MAX], AxisRange { min: 0, max: 5 }, 1, 0);
    assert!(!too_large.is_well_formed());
    let mut second_too_large = plan_of(&[1], AxisRange { min: 0, max: 5 }, 1, 0);
    second_too_large.bar_data.push(BarData {
        label: String::new(),
        values: vec![1_000_000_000_000_000_000, 1],
    });
    assert!(!second_too_large.is_well_formed());
    second_too_large.bar_data[1].values.pop();
    assert!(second_too_large.is_well_formed());
}

#[test]
fn layers_stand_on_one_another() {
    let values = [3 * VALUE_ONE, 0, -VALUE_ONE, 5 * VALUE_ONE, 1];
    let rd = plan_of(&values, AxisRange { min: 0, max: 7 * VALUE_ONE }, VALUE_ONE / 2, 1);
    let bar = build_bar(&rd, 0);
    assert_eq!(bar.segments.len(), 5);
    assert_eq!(bar.segments[0].y, 340_000);
    for layer in 1..5 {
        let below = &bar.segments[layer - 1];
        assert_eq!(bar.segments[layer].y, below.y - below.height);
        assert_eq!(bar.segments[layer].x, bar.segments[0].x);
        assert_eq!(bar.segments[layer].category, layer);
    }
}

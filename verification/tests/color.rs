use stacked_bar_chart::color::{step_hue, GOLDEN_RATIO_CONJUGATE, HUE_ONE};
use stacked_bar_chart::layout::category_style;
use stacked_bar_chart::tool::StackedBarChartTool;

#[test]
fn each_sector_of_the_wheel_has_its_order_of_channels() {
    let tenth = HUE_ONE / 10;
    assert_eq!(StackedBarChartTool::hsv_to_rgb(0, 50, 50), 0x804040);
    assert_eq!(StackedBarChartTool::hsv_to_rgb(HUE_ONE / 4, 50, 50), 0x608040);
    assert_eq!(StackedBarChartTool::hsv_to_rgb(4 * tenth, 50, 50), 0x408059);
    assert_eq!(StackedBarChartTool::hsv_to_rgb(6 * tenth, 50, 50), 0x405980);
    assert_eq!(StackedBarChartTool::hsv_to_rgb(3 * HUE_ONE / 4, 50, 50), 0x604080);
    assert_eq!(StackedBarChartTool::hsv_to_rgb(9 * tenth, 50, 50), 0x804066);
    assert_eq!(StackedBarChartTool::hsv_to_rgb(HUE_ONE - 1, 50, 50), 0x804040);
}

#[test]
fn saturation_and_value_scale_the_channels() {
    assert_eq!(StackedBarChartTool::hsv_to_rgb(0, 0, 50), 0x808080);
    assert_eq!(StackedBarChartTool::hsv_to_rgb(HUE_ONE / 2, 0, 50), 0x808080);
    assert_eq!(StackedBarChartTool::hsv_to_rgb(0, 50, 0), 0);
    assert_eq!(StackedBarChartTool::hsv_to_rgb(0, 100, 50), 0x800000);
    assert_eq!(StackedBarChartTool::hsv_to_rgb(HUE_ONE / 3, 100, 25), 0x004000);
    assert_eq!(StackedBarChartTool::hsv_to_rgb(2 * (HUE_ONE / 3) + 1, 100, 99), 0x0000fd);
    // Full value is 256 in a channel, one more than two hex digits hold.
    assert_eq!(StackedBarChartTool::hsv_to_rgb(0, 100, 100), 0x1000000);
    assert_eq!(StackedBarChartTool::hsv_to_rgb(0, 0, 100), 0x1010100);
}

#[test]
fn hues_step_by_the_golden_ratio_conjugate() {
    assert_eq!(GOLDEN_RATIO_CONJUGATE, 618_033_988_749_895);
    assert_eq!(step_hue(0), 618_033_988_749_895);
    assert_eq!(step_hue(618_033_988_749_895), 236_067_977_499_790);
    assert_eq!(step_hue(236_067_977_499_790), 854_101_966_249_685);
    assert_eq!(step_hue(HUE_ONE - 1), 618_033_988_749_894);
    assert_eq!(step_hue(HUE_ONE - GOLDEN_RATIO_CONJUGATE), 0);
    let seed = 123_456_789_012_345u64;
    let mut hue = seed;
    for index in 0..1000u64 {
        assert_eq!(
            hue as u128,
            (seed as u128 + index as u128 * GOLDEN_RATIO_CONJUGATE as u128) % HUE_ONE as u128
        );
        let next = step_hue(hue);
        assert_eq!((next + HUE_ONE - hue) % HUE_ONE, GOLDEN_RATIO_CONJUGATE);
        hue = next;
    }
}

#[test]
fn a_colour_rule_has_six_hex_digits() {
    assert_eq!(category_style(0, 0x804040), ".category-0{fill:#804040;stroke-width:0}");
    assert_eq!(category_style(12, 0xabc), ".category-12{fill:#000abc;stroke-width:0}");
    assert_eq!(category_style(7, 0), ".category-7{fill:#000000;stroke-width:0}");
    assert_eq!(category_style(1, 0x1010100), ".category-1{fill:#1010100;stroke-width:0}");
    assert_eq!(
        category_style(usize::MAX, u32::MAX),
        format!(".category-{}{{fill:#ffffffff;stroke-width:0}}", usize::MAX)
    );
}

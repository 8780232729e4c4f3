use stacked_bar_chart::axis::decade_of;
use stacked_bar_chart::data::{find_short_item, sum_values, ChartData, ItemData, MAX_MAGNITUDE};
use stacked_bar_chart::document::{
    category_class_string, path_string, px_string, transform_string,
};
use stacked_bar_chart::logger::StackedBarChartLogger;
use stacked_bar_chart::scene::Segment;
use stacked_bar_chart::text::{
    digit_str, magnitude_of, pow10_u64, push_fixed, push_int, push_nat, push_radix, push_trimmed,
    push_trimmed_opposite,
};

fn written(write: impl Fn(&mut String)) -> String {
    let mut out = String::from(">");
    write(&mut out);
    out
}

#[test]
fn whole_numbers_are_written_in_decimal() {
    assert_eq!(written(|out| push_nat(out, 0)), ">0");
    assert_eq!(written(|out| push_nat(out, 7)), ">7");
    assert_eq!(written(|out| push_nat(out, 140)), ">140");
    assert_eq!(written(|out| push_nat(out, u128::MAX)), format!(">{}", u128::MAX));
    assert_eq!(written(|out| push_int(out, -140)), ">-140");
    assert_eq!(written(|out| push_int(out, 0)), ">0");
    assert_eq!(written(|out| push_int(out, i128::MIN)), format!(">{}", i128::MIN));
    assert_eq!(written(|out| push_int(out, i128::MAX)), format!(">{}", i128::MAX));
}

#[test]
fn digits_are_padded_to_the_width() {
    assert_eq!(written(|out| push_radix(out, 0x804040, 16, 6)), ">804040");
    assert_eq!(written(|out| push_radix(out, 0xab, 16, 6)), ">0000ab");
    assert_eq!(written(|out| push_radix(out, 0, 16, 0)), ">0");
    assert_eq!(written(|out| push_radix(out, 0, 10, 3)), ">000");
    assert_eq!(written(|out| push_radix(out, 12345, 10, 3)), ">12345");
    assert_eq!(written(|out| push_radix(out, 5, 2, 4)), ">0101");
    assert_eq!(written(|out| push_radix(out, u128::MAX, 16, 1)), format!(">{:x}", u128::MAX));
    for digit in 0..16u8 {
        assert_eq!(digit_str(digit), format!("{:x}", digit));
    }
    assert_eq!(digit_str(16), "f");
    assert_eq!(digit_str(u8::MAX), "f");
}

#[test]
fn fixed_point_numbers_keep_the_places_asked_for() {
    assert_eq!(written(|out| push_fixed(out, 1_500_000, 6, 1)), ">1.5");
    assert_eq!(written(|out| push_fixed(out, 1_500_000, 6, 6)), ">1.500000");
    assert_eq!(written(|out| push_fixed(out, 1_234_567, 6, 3)), ">1.235");
    assert_eq!(written(|out| push_fixed(out, 1_234_499, 6, 3)), ">1.234");
    assert_eq!(written(|out| push_fixed(out, 1_999_999, 6, 2)), ">2.00");
    assert_eq!(written(|out| push_fixed(out, 999_999, 6, 0)), ">1");
    assert_eq!(written(|out| push_fixed(out, 499_999, 6, 0)), ">0");
    assert_eq!(written(|out| push_fixed(out, -1_250_000, 6, 2)), ">-1.25");
    assert_eq!(written(|out| push_fixed(out, -5, 6, 6)), ">-0.000005");
    assert_eq!(written(|out| push_fixed(out, -5, 6, 2)), ">-0.00");
    assert_eq!(written(|out| push_fixed(out, 0, 6, 3)), ">0.000");
    assert_eq!(written(|out| push_fixed(out, 42, 0, 0)), ">42");
    assert_eq!(
        written(|out| push_fixed(out, i128::MIN, 19, 19)),
        ">-17014118346046923173.1687303715884105728"
    );
}

#[test]
fn a_number_halfway_between_two_goes_to_the_even_one() {
    assert_eq!(written(|out| push_fixed(out, 500_000, 6, 0)), ">0");
    assert_eq!(written(|out| push_fixed(out, 1_500_000, 6, 0)), ">2");
    assert_eq!(written(|out| push_fixed(out, 2_500_000, 6, 0)), ">2");
    assert_eq!(written(|out| push_fixed(out, 2_500_001, 6, 0)), ">3");
    assert_eq!(written(|out| push_fixed(out, 250_000, 6, 1)), ">0.2");
    assert_eq!(written(|out| push_fixed(out, 350_000, 6, 1)), ">0.4");
    assert_eq!(written(|out| push_fixed(out, -750_000, 6, 1)), ">-0.8");
    assert_eq!(written(|out| push_fixed(out, -5, 1, 0)), ">-0");
    assert_eq!(written(|out| push_fixed(out, 15, 1, 0)), ">2");
    assert_eq!(written(|out| push_fixed(out, 995, 3, 2)), ">1.00");
    assert_eq!(written(|out| push_fixed(out, 985, 3, 2)), ">0.98");
    assert_eq!(
        written(|out| push_fixed(out, i128::MAX, 19, 0)),
        ">17014118346046923173"
    );
    assert_eq!(
        written(|out| push_fixed(out, i128::MIN, 1, 0)),
        ">-17014118346046923173168730371588410573"
    );
}

#[test]
fn trimmed_numbers_drop_the_zeros_at_their_end() {
    assert_eq!(written(|out| push_trimmed(out, 140_000, 3)), ">140");
    assert_eq!(written(|out| push_trimmed(out, 47_500, 3)), ">47.5");
    assert_eq!(written(|out| push_trimmed(out, 34_285, 3)), ">34.285");
    assert_eq!(written(|out| push_trimmed(out, 10, 3)), ">0.01");
    assert_eq!(written(|out| push_trimmed(out, 0, 3)), ">0");
    assert_eq!(written(|out| push_trimmed(out, -100_000, 3)), ">-100");
    assert_eq!(written(|out| push_trimmed(out, -1, 3)), ">-0.001");
    assert_eq!(written(|out| push_trimmed(out, 1_000, 0)), ">1000");
    assert_eq!(written(|out| push_trimmed_opposite(out, 100_000, 3)), ">-100");
    assert_eq!(written(|out| push_trimmed_opposite(out, -47_500, 3)), ">47.5");
    assert_eq!(written(|out| push_trimmed_opposite(out, 0, 3)), ">0");
    assert_eq!(
        written(|out| push_trimmed_opposite(out, i128::MIN, 3)),
        ">170141183460469231731687303715884105.728"
    );
    assert_eq!(px_string(22_500), "22.5");
    assert_eq!(px_string(-3_000), "-3");
}

#[test]
fn powers_of_ten_and_magnitudes() {
    assert_eq!(pow10_u64(0), 1);
    assert_eq!(pow10_u64(1), 10);
    assert_eq!(pow10_u64(6), 1_000_000);
    assert_eq!(pow10_u64(19), 10_000_000_000_000_000_000);
    assert_eq!(magnitude_of(0), 0);
    assert_eq!(magnitude_of(-5), 5);
    assert_eq!(magnitude_of(5), 5);
    assert_eq!(magnitude_of(i128::MIN), 1 << 127);
    assert_eq!(magnitude_of(i128::MAX), (1 << 127) - 1);
}

#[test]
fn the_decade_is_the_exponent_of_the_next_power_of_ten() {
    assert_eq!(decade_of(0), 2);
    assert_eq!(decade_of(1), 2);
    assert_eq!(decade_of(100), 2);
    assert_eq!(decade_of(101), 3);
    assert_eq!(decade_of(1_000), 3);
    assert_eq!(decade_of(1_001), 4);
    assert_eq!(decade_of(30_000_000), 8);
    assert_eq!(decade_of(MAX_MAGNITUDE - 1), 18);
    assert_eq!(decade_of(MAX_MAGNITUDE), 18);
    assert_eq!(decade_of(MAX_MAGNITUDE / 10), 17);
    assert_eq!(decade_of(MAX_MAGNITUDE / 10 + 1), 18);
}

#[test]
fn sums_stop_at_the_limit() {
    let limit = MAX_MAGNITUDE as i64;
    assert_eq!(sum_values(&vec![]), Some(0));
    assert_eq!(sum_values(&vec![1, -2, 3]), Some(2));
    assert_eq!(sum_values(&vec![limit]), Some(limit));
    assert_eq!(sum_values(&vec![-limit]), Some(-limit));
    assert_eq!(sum_values(&vec![limit - 5, -5]), Some(limit - 10));
    assert_eq!(sum_values(&vec![limit - 5, -6]), None);
    assert_eq!(sum_values(&vec![limit, 0, 1, -1]), None);
    assert_eq!(sum_values(&vec![i64::MAX]), None);
    assert_eq!(sum_values(&vec![0, i64::MIN, 0]), None);
}

#[test]
fn the_first_short_item_is_found() {
    let item = |count: usize| ItemData { key: String::new(), values: vec![0; count] };
    let chart = |counts: &[usize]| ChartData {
        title: String::new(),
        units: String::new(),
        categories: vec![String::new(); 2],
        items: counts.iter().map(|count| item(*count)).collect(),
    };
    assert_eq!(find_short_item(&chart(&[])), None);
    assert_eq!(find_short_item(&chart(&[2, 3, 2])), None);
    assert_eq!(find_short_item(&chart(&[1])), Some(0));
    assert_eq!(find_short_item(&chart(&[2, 5, 0, 1])), Some(2));
    assert_eq!(find_short_item(&chart(&[2, 2, 2, 1])), Some(3));
}

#[test]
fn attribute_texts() {
    assert_eq!(transform_string(55_000, 355_000, true), "translate(55,355) rotate(45)");
    assert_eq!(transform_string(-30_500, 1, false), "translate(-30.5,0.001)");
    assert_eq!(category_class_string(0), "category-0");
    assert_eq!(category_class_string(19), "category-19");
    let segment = Segment { category: 4, x: 47_500, y: 340_000, width: 15_000, height: 85_714 };
    assert_eq!(path_string(&segment), "M47.5,340 l15,0 l0,-85.714 l-15,0 z");
    let hanging = Segment { category: 4, x: 0, y: -1, width: 0, height: -2_000 };
    assert_eq!(path_string(&hanging), "M0,-0.001 l0,0 l0,2 l0,0 z");
}

#[test]
fn the_logger_words_its_lines() {
    let logger = StackedBarChartLogger::new();
    assert_eq!(logger.output("done"), "done");
    assert_eq!(logger.output(""), "");
    assert_eq!(logger.warning("slow"), "warning: slow");
    assert_eq!(logger.error("Item 0 is short"), "error: Item 0 is short");
    assert_eq!(logger.error(""), "error: ");
}

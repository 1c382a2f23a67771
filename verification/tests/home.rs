use icy_sysmonitor::decimal::{push_decimal, push_hundredths};
use icy_sysmonitor::views::home::{
    cpu_usage_row, memory_line, CpuRow, HomePageView, MemoryRow, MetricsSnapshot, FULL_USAGE,
};

/// A usage as the host reports it, in hundredths of a percent, rounded to
/// the nearest and to the even one at a tie.
fn hundredths(usage: f32) -> u32 {
    (usage as f64 * 100.0).round_ties_even() as u32
}

fn usage_text(usage: f32) -> String {
    let label = cpu_usage_row(0, hundredths(usage)).label;
    label["CPU 0: ".len()..label.len() - 1].to_string()
}

#[test]
fn usage_is_shown_with_two_decimal_places_in_six_characters() {
    assert_eq!(usage_text(12.345), "012.35");
    assert_eq!(usage_text(100.0), "100.00");
    assert_eq!(usage_text(99.999), "100.00");
    assert_eq!(usage_text(0.0), "000.00");
    assert_eq!(usage_text(50.0), "050.00");
    assert_eq!(usage_text(7.5), "007.50");
    assert_eq!(usage_text(0.004), "000.00");
    assert_eq!(usage_text(0.006), "000.01");
}

#[test]
fn usage_text_agrees_with_the_formatter() {
    for usage in [0.0f32, 0.01, 0.125, 0.135, 1.0, 9.995, 12.345, 33.333, 66.667, 99.994, 99.995, 100.0] {
        assert_eq!(usage_text(usage), format!("{:06.2}", usage));
    }
}

#[test]
fn cpu_row_names_the_core() {
    assert_eq!(cpu_usage_row(0, 5000).label, "CPU 0: 050.00%");
    assert_eq!(cpu_usage_row(3, 1235).label, "CPU 3: 012.35%");
    assert_eq!(cpu_usage_row(4, 10000).label, "CPU 4: 100.00%");
    assert_eq!(cpu_usage_row(2, 0).label, "CPU 2: 000.00%");
    assert_eq!(cpu_usage_row(127, 1).label, "CPU 127: 000.01%");
}

#[test]
fn usage_of_a_thousand_percent_and_more_grows_wider() {
    assert_eq!(cpu_usage_row(0, 99_999).label, "CPU 0: 999.99%");
    assert_eq!(cpu_usage_row(0, 100_000).label, "CPU 0: 1000.00%");
    assert_eq!(cpu_usage_row(0, u32::MAX).label, "CPU 0: 42949672.95%");
}

#[test]
fn bar_of_a_core_is_full_from_a_hundred_percent_on() {
    assert_eq!(FULL_USAGE, 10000);
    assert_eq!(cpu_usage_row(0, 0).indicator, 0);
    assert_eq!(cpu_usage_row(0, 1235).indicator, 1235);
    assert_eq!(cpu_usage_row(0, 9999).indicator, 9999);
    assert_eq!(cpu_usage_row(0, 10000).indicator, 10000);
    assert_eq!(cpu_usage_row(0, 10001).indicator, 10000);
    assert_eq!(cpu_usage_row(0, u32::MAX).indicator, 10000);
}

#[test]
fn bar_of_the_memory_is_filled_by_the_memory_in_use() {
    let snapshot = MetricsSnapshot { cpu_usage: vec![], used_memory: 300, total_memory: 900 };
    let row = snapshot.memory_usage_element();
    assert_eq!((row.filled, row.total), (300, 900));
    let snapshot = MetricsSnapshot { cpu_usage: vec![], used_memory: 901, total_memory: 900 };
    let row = snapshot.memory_usage_element();
    assert_eq!((row.filled, row.total), (900, 900));
    let snapshot = MetricsSnapshot { cpu_usage: vec![], used_memory: 5, total_memory: 0 };
    let row = snapshot.memory_usage_element();
    assert_eq!((row.filled, row.total), (0, 0));
}

fn decimal_string(n: u64) -> String {
    let mut text = String::new();
    push_decimal(&mut text, n);
    text
}

#[test]
fn decimal_has_no_leading_zeros() {
    assert_eq!(decimal_string(0), "0");
    assert_eq!(decimal_string(7), "7");
    assert_eq!(decimal_string(10), "10");
    assert_eq!(decimal_string(1234567890), "1234567890");
    assert_eq!(decimal_string(u64::MAX), "18446744073709551615");
}

#[test]
fn decimal_gives_each_digit() {
    let digits: String = (0..10).map(decimal_string).collect();
    assert_eq!(digits, "0123456789");
}

#[test]
fn push_decimal_appends_to_what_is_there() {
    let mut text = "n = ".to_string();
    push_decimal(&mut text, 405);
    assert_eq!(text, "n = 405");
    push_decimal(&mut text, 0);
    assert_eq!(text, "n = 4050");
}

#[test]
fn push_hundredths_appends_to_what_is_there() {
    let mut text = "at ".to_string();
    push_hundredths(&mut text, 5);
    assert_eq!(text, "at 000.05");
    let mut text = String::new();
    push_hundredths(&mut text, 123_456);
    assert_eq!(text, "1234.56");
    let mut text = String::new();
    push_hundredths(&mut text, u64::MAX);
    assert_eq!(text, "184467440737095516.15");
}

#[test]
fn memory_line_joins_the_two_sizes() {
    assert_eq!(memory_line("1.0 GB", "7.8 GB"), "Memory: 1.0 GB / 7.8 GB");
    assert_eq!(memory_line("", ""), "Memory:  / ");
}

#[test]
fn memory_below_a_thousand_bytes_is_shown_in_bytes() {
    let snapshot = MetricsSnapshot { cpu_usage: vec![], used_memory: 0, total_memory: 999 };
    assert_eq!(snapshot.memory_usage_element().label, "Memory: 0 B / 999 B");
    let snapshot = MetricsSnapshot { cpu_usage: vec![], used_memory: 512, total_memory: 512 };
    assert_eq!(snapshot.memory_usage_element().label, "Memory: 512 B / 512 B");
}

#[test]
fn memory_is_scaled_to_a_readable_unit() {
    let snapshot = MetricsSnapshot {
        cpu_usage: vec![],
        used_memory: 1_500_000_000,
        total_memory: 8_000_000_000,
    };
    assert_eq!(snapshot.memory_usage_element().label, "Memory: 1.5 GB / 8.0 GB");
    let snapshot = MetricsSnapshot { cpu_usage: vec![], used_memory: 1000, total_memory: 2_500_000 };
    assert_eq!(snapshot.memory_usage_element().label, "Memory: 1.0 KB / 2.5 MB");
}

#[test]
fn panel_lists_the_cores_in_the_snapshot_s_order() {
    let snapshot = MetricsSnapshot {
        cpu_usage: vec![5000, 10000, 0, 1235],
        used_memory: 0,
        total_memory: 0,
    };
    assert_eq!(
        snapshot.cpu_usage_panel(),
        vec![
            CpuRow { label: "CPU 0: 050.00%".to_string(), indicator: 5000 },
            CpuRow { label: "CPU 1: 100.00%".to_string(), indicator: 10000 },
            CpuRow { label: "CPU 2: 000.00%".to_string(), indicator: 0 },
            CpuRow { label: "CPU 3: 012.35%".to_string(), indicator: 1235 },
        ]
    );
}

#[test]
fn home_page_of_an_empty_snapshot_has_no_rows() {
    let snapshot = MetricsSnapshot::empty();
    assert_eq!(
        snapshot.home_page_view(),
        HomePageView {
            cpu_rows: vec![],
            memory: MemoryRow { label: "Memory: 0 B / 0 B".to_string(), filled: 0, total: 0 },
        }
    );
}

#[test]
fn home_page_shows_rows_and_memory() {
    let snapshot = MetricsSnapshot { cpu_usage: vec![250, 9999], used_memory: 100, total_memory: 900 };
    let view = snapshot.home_page_view();
    assert_eq!(
        view.cpu_rows,
        vec![
            CpuRow { label: "CPU 0: 002.50%".to_string(), indicator: 250 },
            CpuRow { label: "CPU 1: 099.99%".to_string(), indicator: 9999 },
        ]
    );
    assert_eq!(
        view.memory,
        MemoryRow { label: "Memory: 100 B / 900 B".to_string(), filled: 100, total: 900 }
    );
}

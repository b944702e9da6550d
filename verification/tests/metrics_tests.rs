use gpu_usage::decimal::to_decimal;
use gpu_usage::error::GpuError;
use gpu_usage::metrics::{
    format_celsius, format_mb, format_mhz, format_percent, megabytes, percentage, MemoryInfo,
    UtilizationInfo, BYTES_PER_MB,
};

#[test]
fn decimal_of_small_and_large_numbers() {
    assert_eq!(to_decimal(0), "0");
    assert_eq!(to_decimal(7), "7");
    assert_eq!(to_decimal(10), "10");
    assert_eq!(to_decimal(109), "109");
    assert_eq!(to_decimal(1234567890), "1234567890");
    assert_eq!(to_decimal(u64::MAX as u128), "18446744073709551615");
    assert_eq!(to_decimal(u128::MAX), "340282366920938463463374607431768211455");
}

#[test]
fn decimal_agrees_with_std_formatting() {
    let mut n: u128 = 1;
    while n < u128::MAX / 7 {
        assert_eq!(to_decimal(n), format!("{}", n));
        assert_eq!(to_decimal(n - 1), format!("{}", n - 1));
        n = n * 7 + 3;
    }
}

#[test]
fn snapshot_of_eight_billion_bytes() {
    let m = MemoryInfo { total: 8000000000, used: 2000000000, free: 6000000000 };
    assert_eq!(m.used_percentage_text(), Ok("25%".to_string()));
    assert_eq!(m.free_percentage_text(), Ok("75%".to_string()));
    assert_eq!(m.used_mb_text(), "1907 MB");
    assert_eq!(m.total_mb_text(), "7629 MB");
    assert_eq!(m.free_mb_text(), "5722 MB");
}

#[test]
fn percentages_truncate() {
    let one_third = MemoryInfo { total: 3, used: 1, free: 2 };
    assert_eq!(one_third.used_percentage_text(), Ok("33%".to_string()));
    assert_eq!(one_third.free_percentage_text(), Ok("66%".to_string()));
    let two_thirds = MemoryInfo { total: 3, used: 2, free: 1 };
    assert_eq!(two_thirds.used_percentage_text(), Ok("66%".to_string()));
    assert_eq!(percentage(2, 3), 66);
    assert_eq!(percentage(199, 200), 99);
    assert_eq!(percentage(1, 200), 0);
    assert_eq!(percentage(0, 1), 0);
    assert_eq!(percentage(5, 5), 100);
}

#[test]
fn percentage_of_large_values_does_not_overflow() {
    assert_eq!(percentage(u64::MAX, u64::MAX), 100);
    assert_eq!(percentage(u64::MAX, 1), 1844674407370955161500);
    assert_eq!(percentage(u64::MAX / 2, u64::MAX), 49);
    let m = MemoryInfo { total: u64::MAX, used: u64::MAX, free: 0 };
    assert_eq!(m.used_percentage_text(), Ok("100%".to_string()));
    assert_eq!(m.free_percentage_text(), Ok("0%".to_string()));
}

#[test]
fn percentage_above_one_hundred_is_reported_as_it_is() {
    let m = MemoryInfo { total: 4, used: 10, free: 0 };
    assert_eq!(m.used_percentage_text(), Ok("250%".to_string()));
}

#[test]
fn no_total_memory_gives_no_percentage() {
    let m = MemoryInfo { total: 0, used: 0, free: 0 };
    assert_eq!(m.used_percentage_text(), Err(GpuError::NoTotalMemory));
    assert_eq!(m.free_percentage_text(), Err(GpuError::NoTotalMemory));
    assert_eq!(m.total_mb_text(), "0 MB");
}

#[test]
fn megabytes_truncate() {
    assert_eq!(BYTES_PER_MB, 1024 * 1024);
    assert_eq!(megabytes(0), 0);
    assert_eq!(megabytes(1048575), 0);
    assert_eq!(megabytes(1048576), 1);
    assert_eq!(megabytes(2 * 1048576 - 1), 1);
    assert_eq!(megabytes(2000000000), 1907);
    assert_eq!(megabytes(u64::MAX), 17592186044415);
}

#[test]
fn each_format_has_its_suffix() {
    assert_eq!(format_percent(0), "0%");
    assert_eq!(format_percent(100), "100%");
    assert_eq!(format_mb(7629), "7629 MB");
    assert_eq!(format_mhz(1530), "1530 MHz");
    assert_eq!(format_mhz(u32::MAX), "4294967295 MHz");
    assert_eq!(format_celsius(64), "64 C");
    assert_eq!(format_celsius(0), "0 C");
}

#[test]
fn utilization_texts() {
    let u = UtilizationInfo { gpu_percent: 37, memory_percent: 12 };
    assert_eq!(u.gpu_text(), "37%");
    assert_eq!(u.memory_text(), "12%");
}

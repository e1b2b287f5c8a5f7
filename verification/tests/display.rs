use hardlink_size::display::{SizeUnit, GB, KB, MB};

#[test]
fn units_are_powers_of_1024() {
    assert_eq!(KB, 1024);
    assert_eq!(MB, 1_048_576);
    assert_eq!(GB, 1_073_741_824);
    assert_eq!(SizeUnit::Bytes.divisor(), 1);
    assert_eq!(SizeUnit::Kilobytes.divisor(), 1024);
    assert_eq!(SizeUnit::Megabytes.divisor(), 1_048_576);
    assert_eq!(SizeUnit::Gigabytes.divisor(), 1_073_741_824);
}

#[test]
fn unit_letters() {
    assert_eq!(SizeUnit::Bytes.suffix(), 'B');
    assert_eq!(SizeUnit::Kilobytes.suffix(), 'K');
    assert_eq!(SizeUnit::Megabytes.suffix(), 'M');
    assert_eq!(SizeUnit::Gigabytes.suffix(), 'G');
}

#[test]
fn unit_changes_at_each_power_of_1024() {
    assert_eq!(SizeUnit::for_size(0), SizeUnit::Bytes);
    assert_eq!(SizeUnit::for_size(1023), SizeUnit::Bytes);
    assert_eq!(SizeUnit::for_size(1024), SizeUnit::Kilobytes);
    assert_eq!(SizeUnit::for_size(1_048_575), SizeUnit::Kilobytes);
    assert_eq!(SizeUnit::for_size(1_048_576), SizeUnit::Megabytes);
    assert_eq!(SizeUnit::for_size(1_073_741_823), SizeUnit::Megabytes);
    assert_eq!(SizeUnit::for_size(1_073_741_824), SizeUnit::Gigabytes);
    assert_eq!(SizeUnit::for_size(u64::MAX), SizeUnit::Gigabytes);
}

#[test]
fn size_fills_its_unit_at_least_once() {
    for size in [0u64, 1, 550, 1024, 4096, 123_456_789, 1 << 40, u64::MAX] {
        let unit = SizeUnit::for_size(size);
        assert!(unit == SizeUnit::Bytes || size >= unit.divisor());
        assert!(unit == SizeUnit::Gigabytes || size / unit.divisor() < 1024);
    }
}

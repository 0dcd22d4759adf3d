use computemodule::numfmt::u32_string;
use computemodule::summary::summary_string;
use computemodule::region::Region;

#[test]
fn decimal_writing_is_exact() {
    assert_eq!(u32_string(0), "0");
    assert_eq!(u32_string(7), "7");
    assert_eq!(u32_string(10), "10");
    assert_eq!(u32_string(1234567890), "1234567890");
    assert_eq!(u32_string(u32::MAX), "4294967295");
}

#[test]
fn summary_lists_each_region_in_order() {
    let regions = vec![Region::new(0, 0, 0, 0), Region::new(4294967295, 1, 4294967295, 2)];
    assert_eq!(
        summary_string(&regions),
        "Forged region: from (0, 0) to (0, 0)\nForged region: from (4294967295, 1) to (4294967295, 2)\n"
    );
}

#[test]
fn empty_region_list_means_empty_summary() {
    assert_eq!(summary_string(&Vec::new()), "");
}

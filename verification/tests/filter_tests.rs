use paging_core::filter::{format_channel_filter, parse_channel_filter};

#[test]
fn test_parse_channel_filter_all() {
    let filter = parse_channel_filter("all").unwrap();
    assert!(filter.is_empty());

    let filter = parse_channel_filter("").unwrap();
    assert!(filter.is_empty());
}

#[test]
fn test_parse_channel_filter_single() {
    let filter = parse_channel_filter("26").unwrap();
    assert_eq!(filter, vec![26]);
}

#[test]
fn test_parse_channel_filter_range() {
    let filter = parse_channel_filter("26-30").unwrap();
    assert_eq!(filter, vec![26, 27, 28, 29, 30]);
}

#[test]
fn test_parse_channel_filter_mixed() {
    let filter = parse_channel_filter("1, 26-28, 50").unwrap();
    assert_eq!(filter, vec![1, 26, 27, 28, 50]);
}

#[test]
fn test_format_channel_filter() {
    assert_eq!(format_channel_filter(&[]), "all (1-50)");
    assert_eq!(format_channel_filter(&[26]), "26");
    assert_eq!(format_channel_filter(&[26, 27, 28]), "26-28");
    assert_eq!(format_channel_filter(&[1, 26, 27, 28, 50]), "1, 26-28, 50");
}

#[test]
fn test_parse_channel_filter_rejects_garbage() {
    assert!(parse_channel_filter("abc").is_none());
    assert!(parse_channel_filter("26-").is_none());
    assert!(parse_channel_filter("1,,3").is_none());
}

#[test]
fn test_parse_channel_filter_out_of_range_dropped() {
    // Channels outside 1..=50 are dropped, not errors.
    let filter = parse_channel_filter("49-55").unwrap();
    assert_eq!(filter, vec![49, 50]);
}

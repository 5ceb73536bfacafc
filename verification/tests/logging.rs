use dht_console::logging::filter_directive;

#[test]
fn filter_for_each_verbosity() {
    assert_eq!(filter_directive(0), "error");
    assert_eq!(filter_directive(1), "warn");
    assert_eq!(filter_directive(2), "info");
    assert_eq!(filter_directive(3), "debug");
    assert_eq!(filter_directive(4), "trace");
}

#[test]
fn filter_beyond_the_last_level_stays_trace() {
    assert_eq!(filter_directive(5), "trace");
    assert_eq!(filter_directive(100), "trace");
    assert_eq!(filter_directive(u8::MAX), "trace");
}

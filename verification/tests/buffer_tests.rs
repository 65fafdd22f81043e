use rusty_proxy::buffer::RelayBuffer;

#[test]
fn new_buffer_starts_at_minimum() {
    let buf = RelayBuffer::new(1024, 65536);
    assert_eq!(buf.current_size, 1024);
    assert_eq!(buf.min_size, 1024);
    assert_eq!(buf.max_size, 65536);
}

#[test]
fn full_read_doubles_capacity() {
    let mut buf = RelayBuffer::new(1024, 65536);
    buf.resize_after_read(1024, false);
    assert_eq!(buf.current_size, 2048);
}

#[test]
fn growth_is_capped_at_max_size() {
    let mut buf = RelayBuffer { current_size: 48 * 1024, min_size: 1024, max_size: 64 * 1024 };
    buf.resize_after_read(48 * 1024, false);
    assert_eq!(buf.current_size, 64 * 1024);
    // At the ceiling, even a full read changes nothing.
    buf.resize_after_read(64 * 1024, false);
    assert_eq!(buf.current_size, 64 * 1024);
}

#[test]
fn small_read_halves_capacity_when_shrinking_enabled() {
    let mut buf = RelayBuffer { current_size: 8192, min_size: 1024, max_size: 65536 };
    buf.resize_after_read(100, true);
    assert_eq!(buf.current_size, 4096);
}

#[test]
fn shrink_is_floored_at_min_size() {
    let mut buf = RelayBuffer { current_size: 1500, min_size: 1024, max_size: 65536 };
    buf.resize_after_read(0, true);
    assert_eq!(buf.current_size, 1024);
    // At the floor, a small read changes nothing.
    buf.resize_after_read(0, true);
    assert_eq!(buf.current_size, 1024);
}

#[test]
fn small_read_keeps_capacity_when_shrinking_disabled() {
    let mut buf = RelayBuffer { current_size: 8192, min_size: 1024, max_size: 65536 };
    buf.resize_after_read(100, false);
    assert_eq!(buf.current_size, 8192);
}

#[test]
fn middling_read_never_resizes() {
    // Half-full or more but not full: no trigger fires either way.
    let mut buf = RelayBuffer { current_size: 8192, min_size: 1024, max_size: 65536 };
    buf.resize_after_read(4096, true);
    assert_eq!(buf.current_size, 8192);
    buf.resize_after_read(8191, true);
    assert_eq!(buf.current_size, 8192);
}

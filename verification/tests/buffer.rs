use logs_viewer::buffer::{LogBuffer, LogEntry, CAPACITY, EVICTION_BLOCK};

fn entry(n: usize) -> LogEntry {
    LogEntry { timestamp: format!("2025-01-01 00:00:{:02}", n % 60), content: format!("line {}", n) }
}

#[test]
fn a_new_buffer_is_empty() {
    let buffer = LogBuffer::new();
    assert_eq!(buffer.len(), 0);
}

#[test]
fn the_limits_are_ten_thousand_and_one_thousand() {
    assert_eq!(CAPACITY, 10_000);
    assert_eq!(EVICTION_BLOCK, 1_000);
}

#[test]
fn appends_keep_arrival_order() {
    let mut buffer = LogBuffer::new();
    for n in 0..5 {
        buffer.append(entry(n));
    }
    assert_eq!(buffer.len(), 5);
    for n in 0..5 {
        assert_eq!(buffer.get(n).content, format!("line {}", n));
        assert_eq!(buffer.get(n).timestamp, format!("2025-01-01 00:00:{:02}", n));
    }
}

#[test]
fn the_buffer_fills_up_to_its_capacity_without_loss() {
    let mut buffer = LogBuffer::new();
    for n in 0..CAPACITY {
        buffer.append(entry(n));
    }
    assert_eq!(buffer.len(), 10_000);
    assert_eq!(buffer.get(0).content, "line 0");
    assert_eq!(buffer.get(9_999).content, "line 9999");
}

#[test]
fn one_entry_more_than_the_capacity_evicts_the_oldest_thousand() {
    let mut buffer = LogBuffer::new();
    for n in 0..CAPACITY {
        buffer.append(entry(n));
    }
    buffer.append(entry(10_000));
    assert_eq!(buffer.len(), 9_001);
    assert_eq!(buffer.get(0).content, "line 1000");
    assert_eq!(buffer.get(1).content, "line 1001");
    assert_eq!(buffer.get(8_999).content, "line 9999");
    assert_eq!(buffer.get(9_000).content, "line 10000");
}

#[test]
fn the_length_stays_between_9001_and_10000_under_load() {
    let mut buffer = LogBuffer::new();
    for n in 0..35_000 {
        buffer.append(entry(n));
        assert!(buffer.len() <= 10_000);
        if n >= 10_000 {
            assert!(buffer.len() >= 9_001);
        }
        assert_eq!(buffer.get(buffer.len() - 1).content, format!("line {}", n));
    }
    let first: usize = 35_000 - buffer.len();
    for i in 0..buffer.len() {
        assert_eq!(buffer.get(i).content, format!("line {}", first + i));
    }
}

#[test]
fn clear_drops_everything() {
    let mut buffer = LogBuffer::new();
    for n in 0..10 {
        buffer.append(entry(n));
    }
    buffer.clear();
    assert_eq!(buffer.len(), 0);
    buffer.append(entry(11));
    assert_eq!(buffer.len(), 1);
    assert_eq!(buffer.get(0).content, "line 11");
}

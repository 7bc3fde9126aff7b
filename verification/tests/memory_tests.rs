use graphics::memory::{MemoryBuffer, Permission, BLOCK_SIZE};
use graphics::shorten::truncated;

#[test]
fn new_buffer_is_zeroed_and_writable() {
    let mut buffer = MemoryBuffer::new();
    assert_eq!(buffer.size(), 32);
    assert_eq!(BLOCK_SIZE, 32);
    for idx in 0..buffer.size() {
        assert_eq!(buffer.read_memory_at(idx), Ok(0));
        assert_eq!(buffer.permission_at(idx), Permission::ReadWrite);
    }
}

#[test]
fn writes_are_read_back() {
    let mut buffer = MemoryBuffer::new();
    for idx in 0..buffer.size() {
        assert_eq!(buffer.write_memory_at(idx, (idx + 1) as u16), Ok(()));
    }
    for idx in 0..buffer.size() {
        assert_eq!(buffer.read_memory_at(idx), Ok((idx + 1) as u16));
    }
}

#[test]
fn read_only_buffer_refuses_writes() {
    let mut buffer = MemoryBuffer::new();
    for idx in 0..buffer.size() {
        assert_eq!(buffer.write_memory_at(idx, (idx + 1) as u16), Ok(()));
    }
    buffer.make_read_only();
    for idx in 0..buffer.size() {
        assert_eq!(buffer.permission_at(idx), Permission::ReadOnly);
        assert_eq!(buffer.write_memory_at(idx, 0), Err(()));
        assert_eq!(buffer.write_memory_wrapped(idx + 32, 0), Err(()));
    }
    for idx in 0..buffer.size() {
        assert_eq!(buffer.read_memory_at(idx), Ok((idx + 1) as u16));
    }
}

#[test]
fn slots_past_the_end_are_refused() {
    let mut buffer = MemoryBuffer::new();
    assert_eq!(buffer.write_memory_at(32, 7), Err(()));
    assert_eq!(buffer.write_memory_at(33, 1), Err(()));
    assert_eq!(buffer.write_memory_at(usize::MAX, 1), Err(()));
    assert_eq!(buffer.read_memory_at(32), Err(()));
    assert_eq!(buffer.read_memory_at(33), Err(()));
    assert_eq!(buffer.read_memory_at(usize::MAX), Err(()));
    buffer.change_permissions(32, 33, Permission::ReadOnly);
    assert_eq!(buffer.write_memory_at(32, 1), Err(()));
    for idx in 0..buffer.size() {
        assert_eq!(buffer.read_memory_at(idx), Ok(0));
    }
    assert_eq!(buffer.write_memory_at(31, 7), Ok(()));
    assert_eq!(buffer.read_memory_at(31), Ok(7));
}

#[test]
fn change_permissions_covers_the_range_only() {
    let mut buffer = MemoryBuffer::new();
    buffer.change_permissions(4, 8, Permission::ReadOnly);
    for idx in 0..32 {
        let expected = if (4..8).contains(&idx) { Permission::ReadOnly } else { Permission::ReadWrite };
        assert_eq!(buffer.permission_at(idx), expected);
    }
    buffer.change_permissions(6, 7, Permission::ReadWrite);
    assert_eq!(buffer.permission_at(5), Permission::ReadOnly);
    assert_eq!(buffer.permission_at(6), Permission::ReadWrite);
    assert_eq!(buffer.permission_at(7), Permission::ReadOnly);
    buffer.change_permissions(9, 3, Permission::ReadOnly);
    assert_eq!(buffer.permission_at(3), Permission::ReadWrite);
    assert_eq!(buffer.write_memory_at(5, 1), Err(()));
    assert_eq!(buffer.write_memory_at(6, 1), Ok(()));
    assert_eq!(buffer.read_memory_at(6), Ok(1));
    assert_eq!(buffer.read_memory_at(5), Ok(0));
}

#[test]
fn wrapped_write_counts_round() {
    let mut buffer = MemoryBuffer::new();
    assert_eq!(buffer.write_memory_wrapped(32, 5), Ok(()));
    assert_eq!(buffer.write_memory_wrapped(65, 6), Ok(()));
    assert_eq!(buffer.write_memory_wrapped(31, 7), Ok(()));
    assert_eq!(buffer.read_memory_at(0), Ok(5));
    assert_eq!(buffer.read_memory_at(1), Ok(6));
    assert_eq!(buffer.read_memory_at(31), Ok(7));
    buffer.change_permissions(1, 2, Permission::ReadOnly);
    assert_eq!(buffer.write_memory_wrapped(33, 8), Err(()));
    assert_eq!(buffer.read_memory_at(1), Ok(6));
}

#[test]
fn long_text_is_cut_after_twenty() {
    assert_eq!(truncated("[0, 1, 2, 3, 4, 5, 6, 7, 8, 9, 10]"), "[0, 1, 2, 3, 4, 5, 6...]");
    assert_eq!(truncated("abcdefghijklmnopqrstu"), "abcdefghijklmnopqrst...u");
}

#[test]
fn short_text_is_kept_whole() {
    assert_eq!(truncated(""), "...");
    assert_eq!(truncated("x"), "x...x");
    assert_eq!(truncated("{}"), "{}...}");
    assert_eq!(truncated("abcdefghijklmnopqrst"), "abcdefghijklmnopqrst...t");
}

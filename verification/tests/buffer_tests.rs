use grr::buffer::{
    Buffer, BufferRange, MappingFlags, MemoryFlags, to_creation_flags, to_mapping_flags,
};

fn memory_combo(bits: u32) -> MemoryFlags {
    MemoryFlags {
        device_local: bits & 1 != 0,
        coherent: bits & 2 != 0,
        cpu_map_read: bits & 4 != 0,
        cpu_map_write: bits & 8 != 0,
        dynamic: bits & 16 != 0,
    }
}

#[test]
fn creation_flag_rules_for_all_combinations() {
    for bits in 0..32u32 {
        let m = memory_combo(bits);
        let c = to_creation_flags(m);
        assert_eq!(c.client_storage, !m.device_local);
        assert_eq!(c.map_coherent, m.coherent);
        assert_eq!(c.map_persistent, m.coherent || m.cpu_map_read || m.cpu_map_write);
        assert_eq!(c.map_read, m.cpu_map_read);
        assert_eq!(c.map_write, m.cpu_map_write);
        assert_eq!(c.dynamic_storage, m.dynamic);
    }
}

#[test]
fn mapping_flags_capped_for_all_combinations() {
    // the read bit is never set unless created with the CPU-read capability,
    // the write bit never unless created with CPU-write, across all 2^5
    // memory combinations and both mapping requests
    for bits in 0..32u32 {
        let m = memory_combo(bits);
        for unsync in [false, true] {
            let q = MappingFlags { unsynchronized: unsync };
            let a = to_mapping_flags(to_creation_flags(m), q);
            assert_eq!(a.read, m.cpu_map_read);
            assert_eq!(a.write, m.cpu_map_write);
            assert_eq!(a.unsynchronized, unsync);
            assert_eq!(a.coherent, m.coherent);
            assert_eq!(a.persistent, m.coherent || m.cpu_map_read || m.cpu_map_write);
        }
    }
}

#[test]
fn unsynchronized_is_the_only_ungated_flag() {
    let none = to_creation_flags(MemoryFlags::empty());
    let a = to_mapping_flags(none, MappingFlags { unsynchronized: true });
    assert!(a.unsynchronized);
    assert!(!a.read && !a.write && !a.coherent && !a.persistent);
}

#[test]
fn flag_set_operations() {
    let read = MemoryFlags { cpu_map_read: true, ..MemoryFlags::empty() };
    let write = MemoryFlags { cpu_map_write: true, ..MemoryFlags::empty() };
    let both = read.union(write);
    assert!(both.cpu_map_read && both.cpu_map_write);
    assert!(both.contains(read));
    assert!(both.contains(write));
    assert!(!read.contains(both));
    assert!(both.contains(MemoryFlags::empty()));
}

#[test]
fn buffer_remembers_creation_flags() {
    let flags = to_creation_flags(memory_combo(2 | 4));
    let buffer = Buffer::new(9, flags);
    assert_eq!(buffer.raw, 9);
    let access = buffer.mapping_access(MappingFlags::empty());
    assert!(access.read && !access.write && access.coherent && access.persistent);
    assert!(!access.unsynchronized);

    let range = BufferRange { buffer, offset: 64, size: 256 };
    assert_eq!(range.offset, 64);
    assert_eq!(range.size, 256);
}

use vga::registers::MemError;
use vga::registers::PLANE_SIZE;
use vga::registers::SCReg;

#[test]
fn single_write_respects_map_mask() {
    // A write with mask 0b0101 lands in planes 0 and 2 only.
    let mut v = vga::registers::new(0x10);
    v.set_sc_data(SCReg::MapMask, 0b0101);
    assert_eq!(v.write_mem(10, 0xAB), Ok(()));
    assert_eq!(v.raw_read_mem(0, 10), 0xAB);
    assert_eq!(v.raw_read_mem(1, 10), 0x00);
    assert_eq!(v.raw_read_mem(2, 10), 0xAB);
    assert_eq!(v.raw_read_mem(3, 10), 0x00);
    // Neighboring offsets stay untouched.
    assert_eq!(v.raw_read_mem(0, 9), 0x00);
    assert_eq!(v.raw_read_mem(0, 11), 0x00);
}

#[test]
fn every_mask_value_selects_exactly_its_planes() {
    for mask in 0u8..16 {
        let mut v = vga::registers::new(0x10);
        v.set_sc_data(SCReg::MapMask, mask);
        assert_eq!(v.write_mem(123, 0x5A), Ok(()));
        for plane in 0usize..4 {
            let expected = if mask & (1 << plane) != 0 { 0x5A } else { 0x00 };
            assert_eq!(v.raw_read_mem(plane, 123), expected);
        }
    }
}

#[test]
fn write_past_plane_end_is_rejected() {
    let mut v = vga::registers::new(0x10);
    v.set_sc_data(SCReg::MapMask, 0x0F);
    assert_eq!(v.write_mem(PLANE_SIZE, 0xFF), Err(MemError::OutOfBounds));
    assert_eq!(v.raw_read_mem(0, PLANE_SIZE - 1), 0x00);
}

#[test]
fn chunk_write_filters_each_byte() {
    let mut v = vga::registers::new(0x10);
    v.set_sc_data(SCReg::MapMask, 0b0010);
    let data = vec![1u8, 2, 3, 4];
    assert_eq!(v.write_mem_chunk(100, &data), Ok(()));
    for (i, &b) in data.iter().enumerate() {
        assert_eq!(v.raw_read_mem(1, 100 + i), b);
        assert_eq!(v.raw_read_mem(0, 100 + i), 0x00);
        assert_eq!(v.raw_read_mem(2, 100 + i), 0x00);
        assert_eq!(v.raw_read_mem(3, 100 + i), 0x00);
    }
}

#[test]
fn chunk_write_past_plane_end_is_rejected_whole() {
    let mut v = vga::registers::new(0x10);
    v.set_sc_data(SCReg::MapMask, 0x0F);
    let data = vec![9u8, 9, 9];
    assert_eq!(
        v.write_mem_chunk(PLANE_SIZE - 2, &data),
        Err(MemError::OutOfBounds)
    );
    // Nothing was written, not even the in-range prefix.
    assert_eq!(v.raw_read_mem(0, PLANE_SIZE - 2), 0x00);
    assert_eq!(v.raw_read_mem(0, PLANE_SIZE - 1), 0x00);
}

#[test]
fn memory_writes_leave_registers_alone() {
    let mut v = vga::registers::new(0x10);
    v.set_sc_data(SCReg::MapMask, 0x0F);
    v.set_crt_data(vga::registers::CRTReg::Offset, 42);
    assert_eq!(v.write_mem(0, 0x77), Ok(()));
    assert_eq!(v.get_sc_data(SCReg::MapMask), 0x0F);
    assert_eq!(v.get_crt_data(vga::registers::CRTReg::Offset), 42);
    assert_eq!(v.get_video_mode(), 0x10);
}

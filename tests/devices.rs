use mayo::device::Device;
use mayo::memory::{create_memory, Memory};
use mayo::memory_mapper::MemoryMapper;
use mayo::screen_device::{decode_screen_write, ScreenCommand, ScreenDevice, ScreenWrite};

#[test]
fn create_memory_is_zeroed() {
    let m = create_memory(5);
    assert_eq!(m, vec![0u8; 5]);
}

#[test]
fn memory_words_are_big_endian() {
    let mut m = Memory::from_num_of_bytes(4);
    assert_eq!(m.write_at_u16(1, 0x1234), Ok(()));
    assert_eq!(m.read_at_u8(1), Some(0x12));
    assert_eq!(m.read_at_u8(2), Some(0x34));
    assert_eq!(m.read_at_u16(1), Some(0x1234));
    assert_eq!(m.into_vec(), vec![0, 0x12, 0x34, 0]);
}

#[test]
fn memory_refuses_offsets_past_the_end() {
    let mut m = Memory::from_vec(vec![1, 2, 3]);
    assert_eq!(m.read_at_u16(2), None);
    assert_eq!(m.read_at_u8(3), None);
    assert_eq!(m.write_at_u16(2, 0xFFFF), Err(()));
    assert_eq!(m.write_at_u8(3, 9), Err(()));
    assert_eq!(m.write_at_u8(2, 9), Ok(()));
    assert_eq!(m.into_vec(), vec![1, 2, 9]);
}

#[test]
fn remapped_region_sees_local_offsets() {
    let mut mm = MemoryMapper::new();
    mm.map(Memory::from_num_of_bytes(0x100), 0x3000, 0x30FF, true);
    assert_eq!(mm.write_at_u16(0x3010, 0xCAFE), Ok(()));
    assert_eq!(mm.read_at_u16(0x3010), Some(0xCAFE));
    assert_eq!(mm.read_at_u8(0x3011), Some(0xFE));
    assert_eq!(mm.read_at_u8(0x2FFF), None);
    assert_eq!(mm.write_at_u8(0x3100, 1), Err(()));
}

#[test]
fn region_without_remap_passes_addresses_through() {
    let mut mm = MemoryMapper::new();
    mm.map(Memory::from_num_of_bytes(0x20), 0x10, 0x1F, false);
    assert_eq!(mm.write_at_u8(0x12, 7), Ok(()));
    assert_eq!(mm.read_at_u8(0x12), Some(7));
    // the device itself is 0x20 bytes long, so 0x1F + 1 is past its end
    assert_eq!(mm.read_at_u16(0x1F), None);
}

#[test]
fn latest_mapping_wins_on_overlap() {
    let mut mm = MemoryMapper::new();
    mm.map(Memory::from_num_of_bytes(0x100), 0x00, 0xFF, true);
    mm.map(Memory::from_num_of_bytes(0x10), 0x40, 0x4F, true);
    assert_eq!(mm.write_at_u16(0x42, 0x0102), Ok(()));
    assert_eq!(mm.read_at_u16(0x42), Some(0x0102));
    // the older region under the window did not see the write
    let mut outer = MemoryMapper::new();
    outer.map(mm, 0x1000, 0x10FF, true);
    assert_eq!(outer.read_at_u16(0x1042), Some(0x0102));
    assert_eq!(outer.read_at_u16(0x1050), Some(0x0000));
}

#[test]
fn screen_decodes_words() {
    assert_eq!(
        decode_screen_write(0x23, 0xFF41),
        ScreenWrite { command: ScreenCommand::Clear, column: 6, row: 2, character: b'A' }
    );
    assert_eq!(decode_screen_write(1, 0x0142).command, ScreenCommand::Bold);
    assert_eq!(decode_screen_write(1, 0x0242).command, ScreenCommand::Regular);
    assert_eq!(decode_screen_write(1, 0x0742).command, ScreenCommand::Draw);
}

#[test]
fn screen_queues_writes_and_refuses_reads() {
    let mut screen = ScreenDevice::new();
    assert_eq!(screen.read_at_u8(0), None);
    assert_eq!(screen.read_at_u16(0), None);
    assert_eq!(screen.write_at_u8(0, 1), Err(()));
    assert_eq!(screen.write_at_u16(17, 0x0048), Ok(()));
    let out = screen.take_output();
    assert_eq!(
        out,
        vec![ScreenWrite { command: ScreenCommand::Draw, column: 2, row: 1, character: b'H' }]
    );
    assert!(screen.take_output().is_empty());
}

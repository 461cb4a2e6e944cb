use gb_cpu::mmu::{
    ADDRESS_SPACE_SIZE, CARTRIDGE_EXTERNAL_RAM_ADDR, CARTRIDGE_ROM_0_ADDR, CARTRIDGE_ROM_1_ADDR,
    GRAPHICS_RAM_ADDR, GRAPHICS_SPRITE_INFO_ADDR, MEMORY_MAPPED_IO_ADDR, WORKING_RAM_ADDR,
    WORKING_RAM_SHADOW_ADDR, ZERO_PAGE_RAM_ADDR,
};
use gb_cpu::MMU;

#[test]
fn new_bus_is_zero_filled() {
    let mmu = MMU::new(64);
    for addr in 0..64 {
        assert_eq!(mmu.rb(addr), 0);
    }
    for addr in 0..32 {
        assert_eq!(mmu.rw(addr), 0);
    }
}

#[test]
fn new_bus_of_full_size_reaches_last_byte() {
    let mut mmu = MMU::new(ADDRESS_SPACE_SIZE);
    assert_eq!(mmu.rb(65_535), 0);
    mmu.wb(65_535, 0xAB);
    assert_eq!(mmu.rb(65_535), 0xAB);
    assert_eq!(mmu.rw(32_767), 0x00AB);
}

#[test]
fn byte_round_trip() {
    let mut mmu = MMU::new(256);
    for addr in 0..256usize {
        let value = (addr * 7 + 3) as u8;
        mmu.wb(addr, value);
        assert_eq!(mmu.rb(addr), value);
    }
    for addr in 0..256usize {
        assert_eq!(mmu.rb(addr), (addr * 7 + 3) as u8);
    }
}

#[test]
fn byte_write_leaves_neighbours() {
    let mut mmu = MMU::new(8);
    mmu.wb(3, 0xFF);
    assert_eq!(mmu.rb(2), 0);
    assert_eq!(mmu.rb(3), 0xFF);
    assert_eq!(mmu.rb(4), 0);
}

#[test]
fn word_round_trip() {
    let mut mmu = MMU::new(16);
    for value in [0x0000u16, 0x0001, 0x00FF, 0x0100, 0x1234, 0x7F80, 0xFF00, 0xFFFF] {
        for addr in 0..8 {
            mmu.ww(addr, value);
            assert_eq!(mmu.rw(addr), value);
        }
    }
}

#[test]
fn word_is_stored_big_endian_at_twice_the_index() {
    let mut mmu = MMU::new(16);
    mmu.ww(3, 0x1234);
    assert_eq!(mmu.rb(6), 0x12);
    assert_eq!(mmu.rb(7), 0x34);
    assert_eq!(mmu.rb(3), 0);
    assert_eq!(mmu.rb(5), 0);
    assert_eq!(mmu.rb(8), 0);
}

#[test]
fn word_is_read_big_endian_from_twice_the_index() {
    let mut mmu = MMU::new(16);
    mmu.wb(4, 0xAB);
    mmu.wb(5, 0xCD);
    assert_eq!(mmu.rw(2), 0xABCD);
    assert_eq!(mmu.rw(1), 0);
    assert_eq!(mmu.rw(3), 0);
}

#[test]
fn word_write_replaces_both_bytes() {
    let mut mmu = MMU::new(4);
    mmu.ww(1, 0xFFFF);
    mmu.ww(1, 0x0102);
    assert_eq!(mmu.rb(2), 0x01);
    assert_eq!(mmu.rb(3), 0x02);
    assert_eq!(mmu.rw(0), 0);
}

#[test]
fn empty_bus_can_be_made() {
    let _mmu = MMU::new(0);
}

#[test]
fn region_boundaries() {
    assert_eq!(ADDRESS_SPACE_SIZE, 65_536);
    assert_eq!(CARTRIDGE_ROM_0_ADDR, 0);
    assert_eq!(CARTRIDGE_ROM_1_ADDR, 16_384);
    assert_eq!(GRAPHICS_RAM_ADDR, 32_768);
    assert_eq!(CARTRIDGE_EXTERNAL_RAM_ADDR, 40_960);
    assert_eq!(WORKING_RAM_ADDR, 49_152);
    assert_eq!(WORKING_RAM_SHADOW_ADDR, 57_344);
    assert_eq!(GRAPHICS_SPRITE_INFO_ADDR, 65_024);
    assert_eq!(MEMORY_MAPPED_IO_ADDR, 65_280);
    assert_eq!(ZERO_PAGE_RAM_ADDR, 65_408);
}

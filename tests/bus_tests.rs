use nerust_jg::bus::Bus;

#[test]
fn ram_is_mirrored_four_times() {
    let mut bus = Bus::new();
    bus.mem_write(0x0000, 0xAB);
    assert_eq!(bus.mem_read(0x0800), 0xAB);
    assert_eq!(bus.mem_read(0x1000), 0xAB);
    assert_eq!(bus.mem_read(0x1800), 0xAB);
    bus.mem_write(0x07FF, 0xCD);
    assert_eq!(bus.mem_read(0x1FFF), 0xCD);
    bus.mem_write(0x1801, 0x11);
    assert_eq!(bus.mem_read(0x0001), 0x11);
}

#[test]
fn ppu_register_window_is_mirrored_every_eight_bytes() {
    let mut bus = Bus::new();
    bus.mem_write(0x2006, 0x3F);
    assert_eq!(bus.mem_read(0x2006), 0x3F);
    assert_eq!(bus.mem_read(0x200E), 0x3F);
    assert_eq!(bus.mem_read(0x3FFE), 0x3F);
    assert_eq!(bus.mem_read(0x2007), 0);
}

#[test]
fn unmapped_addresses_read_zero_and_ignore_writes() {
    let mut bus = Bus::new();
    bus.mem_write(0x4000, 0x55);
    bus.mem_write(0x7FFF, 0x66);
    assert_eq!(bus.mem_read(0x4000), 0);
    assert_eq!(bus.mem_read(0x7FFF), 0);
    assert_eq!(bus.mem_read(0x0000), 0);
}

#[test]
fn rom_window_takes_writes() {
    let mut bus = Bus::new();
    bus.mem_write(0x8000, 0x01);
    bus.mem_write(0xFFFF, 0x02);
    assert_eq!(bus.mem_read(0x8000), 0x01);
    assert_eq!(bus.mem_read(0xFFFF), 0x02);
    assert_eq!(bus.mem_read(0x8001), 0);
}

#[test]
fn rom_round_trip_after_load() {
    let mut cpu = nerust_jg::CPU::new();
    let program: Vec<u8> = (1..=200u8).collect();
    cpu.load(program.clone());
    for (i, b) in program.iter().enumerate() {
        assert_eq!(cpu.mem_read(0x8000 + i as u16), *b);
    }
    assert_eq!(cpu.mem_read(0x8000 + program.len() as u16), 0);
}

use mos6502::cpu::memory::Memory;

#[test]
fn memory_load() {
    let mut memory = Memory::new();
    memory.load(0x8000, &[0x01, 0x02, 0x03, 0x04]).unwrap();
    let bytes: Vec<u8> = memory.iter().copied().collect();
    assert_eq!(bytes[..0x8000], [0; 0x8000]);
    assert_eq!(bytes[0x8000..0x8004], [0x01, 0x02, 0x03, 0x04]);
    assert_eq!(bytes[0x8004..0xFFFF], [0; 0x8000 - 4 - 1]);
}

#[test]
fn memory_read() {
    let mut memory = Memory::new();
    memory.load(0x8000, &[0x01, 0x02, 0x03, 0x04]).unwrap();
    assert!(matches!(memory.read(0x8000), 0x01));
    assert!(matches!(memory.read(0x8001), 0x02));
    assert!(matches!(memory.read(0x8002), 0x03));
    assert!(matches!(memory.read(0x8003), 0x04));
    assert!(matches!(memory.read_u16(0x8000), 0x0201));
    assert!(matches!(memory.read_u16(0x8002), 0x0403));
}

#[test]
fn memory_write() {
    let mut memory = Memory::new();
    memory.write(0x8000, 0x01);
    memory.write(0x8001, 0x02);
    memory.write_u16(0x8002, 0x0403);
    let bytes: Vec<u8> = memory.iter().copied().collect();
    assert_eq!(bytes[0x8000..0x8004], [0x01, 0x02, 0x03, 0x04]);
}

#[test]
fn tests_load() {
    let mut memory = Memory::new();
    memory.load(0x8000, &[0x01, 0x02, 0x03, 0x04]).unwrap();
    let bytes: Vec<u8> = memory.iter().copied().collect();
    assert_eq!(bytes[..0x8000], [0; 0x8000]);
    assert_eq!(bytes[0x8000..0x8004], [0x01, 0x02, 0x03, 0x04]);
    assert_eq!(bytes[0x8004..], [0; 0x8000 - 4]);
}

#[test]
fn tests_read() {
    let mut memory = Memory::new();
    memory.load(0x8000, &[0x01, 0x02, 0x03, 0x04]).unwrap();
    assert!(matches!(memory.read(0x8000), 0x01));
    assert!(matches!(memory.read(0x8001), 0x02));
    assert!(matches!(memory.read(0x8002), 0x03));
    assert!(matches!(memory.read(0x8003), 0x04));
    assert!(matches!(memory.read_u16(0x8000), 0x0201));
    assert!(matches!(memory.read_u16(0x8002), 0x0403));
}

#[test]
fn tests_write() {
    let mut memory = Memory::new();
    memory.write(0x8000, 0x01);
    memory.write(0x8001, 0x02);
    memory.write_u16(0x8002, 0x0403);
    let bytes: Vec<u8> = memory.iter().copied().collect();
    assert_eq!(bytes[0x8000..0x8004], [0x01, 0x02, 0x03, 0x04]);
}

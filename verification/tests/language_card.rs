use apple2::mapper::Mapper;
use apple2::mapper::ROM_SIZE;
use apple2::peripheral_card::Card;
use apple2::peripheral_card::LanguageCard;
use apple2::peripheral_card::PeripheralCard;

fn rom() -> [u8; ROM_SIZE] {
    let mut rom = [0u8; ROM_SIZE];
    for (i, b) in rom.iter_mut().enumerate() {
        *b = ((i * 7 + 3) % 256) as u8;
    }
    rom
}

fn machine() -> Mapper {
    let mut m = Mapper::new(rom());
    m.add_card(Card::Language(LanguageCard::new(rom())), 0);
    m
}

#[test]
fn language_card_enable() {
    let r = rom();
    let mut m = machine();
    assert_eq!(m.read_without_mm(0xC083), 0);
    assert_eq!(m.read_without_mm(0xC083), 0);
    // RAM is now readable and writable, and starts out zeroed.
    assert_eq!(m.read_without_mm(0xD100), 0x00);
    m.write_without_mm(0xD100, 0x42);
    assert_eq!(m.read_without_mm(0xD100), 0x42);
    // $C080 switches writes off and keeps the RAM selected.
    assert_eq!(m.read_without_mm(0xC080), 0);
    assert_eq!(m.read_without_mm(0xD100), 0x42);
    m.write_without_mm(0xD100, 0x99);
    assert_eq!(m.read_without_mm(0xD100), 0x42);
    // $C082 selects the ROM.
    assert_eq!(m.read_without_mm(0xC082), 0);
    assert_eq!(m.read_without_mm(0xD100), r[0x0100]);
}

#[test]
fn fresh_card_shows_the_rom() {
    let r = rom();
    let mut m = machine();
    assert_eq!(m.read_without_mm(0xD000), r[0]);
    assert_eq!(m.read_without_mm(0xDFFF), r[0x0FFF]);
    assert_eq!(m.read_without_mm(0xE000), r[0x1000]);
    assert_eq!(m.read_without_mm(0xFFFF), r[0x2FFF]);
    m.write_without_mm(0xD000, 0x12);
    assert_eq!(m.read_without_mm(0xD000), r[0]);
}

#[test]
fn one_access_does_not_select_the_ram() {
    let r = rom();
    let mut m = machine();
    m.read_without_mm(0xC083);
    assert_eq!(m.read_without_mm(0xD100), r[0x100]);
    // Writes are enabled at once.
    m.write_without_mm(0xD100, 0x42);
    assert_eq!(m.read_without_mm(0xD100), r[0x100]);
    m.read_without_mm(0xC083);
    assert_eq!(m.read_without_mm(0xD100), 0x42);
}

#[test]
fn an_access_between_breaks_the_pair() {
    let r = rom();
    let mut m = machine();
    m.read_without_mm(0xC083);
    m.read_without_mm(0xC081);
    m.read_without_mm(0xC083);
    assert_eq!(m.read_without_mm(0xD100), r[0x100]);
    m.read_without_mm(0xC083);
    assert_eq!(m.read_without_mm(0xD100), 0x00);
}

#[test]
fn write_while_reading_rom_then_read_back() {
    let r = rom();
    let mut m = machine();
    // $C081: ROM for reading, RAM for writing.
    m.read_without_mm(0xC081);
    m.write_without_mm(0xE123, 0x77);
    m.write_without_mm(0xD456, 0x66);
    assert_eq!(m.read_without_mm(0xE123), r[0x1123]);
    assert_eq!(m.read_without_mm(0xD456), r[0x0456]);
    m.read_without_mm(0xC080);
    m.read_without_mm(0xC080);
    assert_eq!(m.read_without_mm(0xE123), 0x77);
    assert_eq!(m.read_without_mm(0xD456), 0x66);
    // Selecting the ROM restores its bytes.
    m.read_without_mm(0xC081);
    assert_eq!(m.read_without_mm(0xE123), r[0x1123]);
    assert_eq!(m.read_without_mm(0xD456), r[0x0456]);
}

#[test]
fn the_two_low_banks_are_apart_and_the_high_bank_is_shared() {
    let mut m = machine();
    // Bank 1: bit 3 clear.
    m.read_without_mm(0xC083);
    m.read_without_mm(0xC083);
    m.write_without_mm(0xD000, 0x11);
    m.write_without_mm(0xE000, 0xEE);
    // Bank 0: bit 3 set.
    m.read_without_mm(0xC08B);
    assert_eq!(m.read_without_mm(0xD000), 0x00);
    assert_eq!(m.read_without_mm(0xE000), 0xEE);
    m.write_without_mm(0xD000, 0x22);
    assert_eq!(m.read_without_mm(0xD000), 0x22);
    m.read_without_mm(0xC083);
    assert_eq!(m.read_without_mm(0xD000), 0x11);
    assert_eq!(m.read_without_mm(0xE000), 0xEE);
}

#[test]
fn writes_to_the_switches_change_nothing() {
    let r = rom();
    let mut m = machine();
    m.write_without_mm(0xC083, 0);
    m.write_without_mm(0xC083, 0);
    m.write_without_mm(0xD100, 0x42);
    assert_eq!(m.read_without_mm(0xD100), r[0x100]);
    m.read_without_mm(0xC083);
    m.read_without_mm(0xC083);
    assert_eq!(m.read_without_mm(0xD100), 0x00);
}

#[test]
fn card_by_itself() {
    let r = rom();
    let mut card = LanguageCard::new(r);
    assert!(card.is_language_card());
    assert_eq!(card.read_expansion_rom(0xC800), 0);
    assert_eq!(card.read_switch_without_mm(0x3), 0);
    assert_eq!(card.read_switch_without_mm(0x3), 0);
    assert_eq!(card.read_language_rom(0xD100), r[0x100]);
    card.write_switch(0x3, 0);
    card.write_switch_without_mm(0x3, 0);
    assert_eq!(card.read_language_rom(0xD100), r[0x100]);
    assert_eq!(card.read_switch(0x3), 0);
    assert_eq!(card.read_switch(0x3), 0);
    card.write_language_rom(0xFFFF, 0x5A);
    assert_eq!(card.read_language_rom(0xFFFF), 0x5A);
    assert_eq!(card.read_switch(0x2), 0);
    assert_eq!(card.read_language_rom(0xFFFF), r[0x2FFF]);
}

#[test]
fn every_overlay_address_round_trips() {
    let mut card = LanguageCard::new(rom());
    card.read_switch(0x3);
    card.read_switch(0x3);
    for addr in 0xD000..=0xFFFFu16 {
        card.write_language_rom(addr, (addr >> 3) as u8 ^ 0xC3);
    }
    card.read_switch(0x0);
    for addr in 0xD000..=0xFFFFu16 {
        assert_eq!(card.read_language_rom(addr), (addr >> 3) as u8 ^ 0xC3);
    }
}

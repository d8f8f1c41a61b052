use apple2::appleii::build_machine;
use apple2::appleii::load_rom;
use apple2::appleii::pace;
use apple2::appleii::AppleII;
use apple2::appleii::InputAction;
use apple2::appleii::Pace;
use apple2::appleii::CYCLES_PER_FRAME;
use apple2::appleii::FRAME_NANOS;
use apple2::input::KeyboardInput;
use apple2::mapper::ROM_SIZE;
use apple2::peripheral_card::Card;

#[test]
fn constants() {
    assert_eq!(CYCLES_PER_FRAME, 16666);
    assert_eq!(FRAME_NANOS, 16666666);
    assert_eq!(ROM_SIZE, 12288);
}

#[test]
fn running_loop_passes_inputs_on() {
    let mut apple = AppleII::new();
    assert!(!apple.paused);
    assert_eq!(apple.cycles_to_run(), 16666);
    assert_eq!(apple.handle_input(KeyboardInput::Key(0xC1)), InputAction::SetKey(0xC1));
    assert_eq!(apple.handle_input(KeyboardInput::Reset), InputAction::Reset);
    assert_eq!(apple.handle_input(KeyboardInput::Quit), InputAction::Quit);
    assert!(!apple.paused);
}

#[test]
fn paused_loop_holds_keys_and_reset_back() {
    let mut apple = AppleII::new();
    assert_eq!(apple.handle_input(KeyboardInput::Pause), InputAction::Nothing);
    assert!(apple.paused);
    assert_eq!(apple.cycles_to_run(), 0);
    assert_eq!(apple.handle_input(KeyboardInput::Key(0xC1)), InputAction::Nothing);
    assert_eq!(apple.handle_input(KeyboardInput::Reset), InputAction::Nothing);
    assert!(apple.paused);
    assert_eq!(apple.handle_input(KeyboardInput::Quit), InputAction::Quit);
    assert_eq!(apple.handle_input(KeyboardInput::Pause), InputAction::Nothing);
    assert!(!apple.paused);
    assert_eq!(apple.handle_input(KeyboardInput::Key(0x8D)), InputAction::SetKey(0x8D));
}

#[test]
fn pacing() {
    assert_eq!(pace(0), Pace::Sleep(16666666));
    assert_eq!(pace(1000000), Pace::Sleep(15666666));
    assert_eq!(pace(16666666), Pace::Sleep(0));
    assert_eq!(pace(16666667), Pace::Overrun(1));
    assert_eq!(pace(20000000), Pace::Overrun(3333334));
    assert_eq!(pace(u64::MAX), Pace::Overrun(u64::MAX - 16666666));
}

#[test]
fn rom_must_have_its_size() {
    assert!(load_rom(&[]).is_none());
    assert!(load_rom(&vec![0u8; ROM_SIZE - 1]).is_none());
    assert!(load_rom(&vec![0u8; ROM_SIZE + 1]).is_none());
    let bytes: Vec<u8> = (0..ROM_SIZE).map(|i| (i % 253) as u8).collect();
    let rom = load_rom(&bytes).unwrap();
    assert_eq!(&rom[..], &bytes[..]);
}

#[test]
fn machine_is_put_together() {
    let bytes: Vec<u8> = (0..ROM_SIZE).map(|i| (i % 253) as u8).collect();
    let rom = load_rom(&bytes).unwrap();
    let disk = vec![0u8; 143360];
    let mut map = build_machine(rom, &disk);
    assert!(map.has_lang_card);
    assert!(matches!(map.cards[0], Some(Card::Language(_))));
    assert!(matches!(map.cards[6], Some(Card::Disk(_))));
    for slot in [1, 2, 3, 4, 5, 7] {
        assert!(map.cards[slot].is_none());
    }
    // The Language Card shows the ROM until it is switched.
    assert_eq!(map.read_without_mm(0xD000), rom[0]);
    // The controller's ROM is in the page of slot 6.
    assert_eq!(map.read_without_mm(0xC600), 0xA2);
    // The disk is in the drive: it streams sync bytes, not $FF for ever.
    let mut seen_d5 = false;
    for _ in 0..64 {
        if map.read_without_mm(0xC0EC) == 0xD5 {
            seen_d5 = true;
        }
    }
    assert!(seen_d5);
}

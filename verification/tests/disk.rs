use apple2::mapper::Mapper;
use apple2::mapper::ROM_SIZE;
use apple2::peripheral_card::disk::Drive;
use apple2::peripheral_card::disk::DISK2_ROM;
use apple2::peripheral_card::nibble::nibblize_sector;
use apple2::peripheral_card::nibble::PHYS;
use apple2::peripheral_card::nibble::TAB1;
use apple2::peripheral_card::nibble::TAB2;
use apple2::peripheral_card::Card;
use apple2::peripheral_card::DiskII;
use apple2::peripheral_card::PeripheralCard;

const IMAGE_SIZE: usize = 143360;
const USED: usize = 387;

fn image() -> Vec<u8> {
    (0..IMAGE_SIZE).map(|i| ((i * 31) + (i >> 8)) as u8).collect()
}

fn sector_of(raw: &[u8], k: usize) -> [u8; 256] {
    let mut data = [0u8; 256];
    for j in 0..256 {
        if k * 256 + j < raw.len() {
            data[j] = raw[k * 256 + j];
        }
    }
    data
}

/// Reads what is left of the sector under the head, up to its end.
fn read_sector(drive: &mut Drive) -> Vec<u8> {
    (0..USED).map(|_| drive.read()).collect()
}

/// The data that the body of a data field holds, by the inverse of each
/// step of the encoding.
fn decode(body: &[u8]) -> Vec<u8> {
    assert_eq!(body.len(), 343);
    let six: Vec<u8> = body
        .iter()
        .map(|b| TAB2.iter().position(|t| t == b).expect("not a disk byte") as u8)
        .collect();
    let mut top = vec![0u8; 343];
    top[0] = six[0];
    for k in 1..343 {
        top[k] = six[k] ^ top[k - 1];
    }
    assert_eq!(top[342], 0, "checksum");
    let mut data = vec![0u8; 256];
    for j in 0..256 {
        let aux = top[j % 86] << 2;
        let index = TAB1.iter().position(|t| *t == aux).expect("not an auxiliary byte") as u8;
        let pair = (index >> (2 * (j / 86))) & 3;
        data[j] = (top[86 + j] << 2) | pair;
    }
    data
}

fn count(haystack: &[u8], needle: &[u8]) -> usize {
    haystack.windows(needle.len()).filter(|w| *w == needle).count()
}

fn step_up(disk: &mut DiskII) {
    let magnet = ((disk.selected_drive().phase() + 1) % 4) as u16;
    assert_eq!(disk.read_switch(2 * magnet + 1), 0);
    assert_eq!(disk.read_switch(2 * magnet), 0);
}

fn step_down(disk: &mut DiskII) {
    let magnet = ((disk.selected_drive().phase() + 3) % 4) as u16;
    assert_eq!(disk.read_switch(2 * magnet + 1), 0);
    assert_eq!(disk.read_switch(2 * magnet), 0);
}

#[test]
fn odd_and_even_bits() {
    assert_eq!(Drive::nib_odd(0xFE), 0xFF);
    assert_eq!(Drive::nib_even(0xFE), 0xFE);
    assert_eq!(Drive::nib_odd(0x00), 0xAA);
    assert_eq!(Drive::nib_even(0x00), 0xAA);
    assert_eq!(Drive::nib_odd(0x0F), 0xAF);
    assert_eq!(Drive::nib_even(0x0F), 0xAF);
    for b in 0..=255u8 {
        let odd = Drive::nib_odd(b);
        let even = Drive::nib_even(b);
        assert_eq!(((odd << 1) | 1) & even, b);
        assert_eq!(odd & 0xAA, 0xAA);
        assert_eq!(even & 0xAA, 0xAA);
    }
}

#[test]
fn sector_layout_has_exact_bytes() {
    let mut data = [0u8; 256];
    for j in 0..256 {
        data[j] = (j * 7 + 3) as u8;
    }
    let s = nibblize_sector(3, PHYS[5], &data);
    assert_eq!(s.len(), 512);
    assert!(s[..16].iter().all(|&b| b == 0xFF));
    assert_eq!(
        &s[16..30],
        &[0xD5, 0xAA, 0x96, 0xFF, 0xFE, 0xAB, 0xAB, 0xAA, 0xAF, 0xFE, 0xFA, 0xDE, 0xAA, 0xEB]
    );
    assert!(s[30..38].iter().all(|&b| b == 0xFF));
    assert_eq!(&s[38..41], &[0xD5, 0xAA, 0xAD]);
    assert_eq!(&s[41..49], &[0xFB, 0xE6, 0xFF, 0xE6, 0xFF, 0xE6, 0xFF, 0xE6]);
    assert_eq!(s[41 + 85], 0xAC);
    assert_eq!(s[41 + 86], 0x97);
    assert_eq!(s[41 + 87], 0x9A);
    assert_eq!(s[41 + 341], 0x9A);
    assert_eq!(s[41 + 342], 0xFF);
    assert_eq!(&s[384..387], &[0xDE, 0xAA, 0xEB]);
    assert!(s[387..].iter().all(|&b| b == 0));
}

#[test]
fn six_and_two_round_trip() {
    let mut patterns: Vec<[u8; 256]> = Vec::new();
    patterns.push([0u8; 256]);
    patterns.push([0xFFu8; 256]);
    let mut p = [0u8; 256];
    for j in 0..256 {
        p[j] = j as u8;
    }
    patterns.push(p);
    for j in 0..256 {
        p[j] = (255 - j) as u8;
    }
    patterns.push(p);
    let mut x: u32 = 0x2545F491;
    for _ in 0..50 {
        for j in 0..256 {
            x ^= x << 13;
            x ^= x >> 17;
            x ^= x << 5;
            p[j] = (x >> 11) as u8;
        }
        patterns.push(p);
    }
    for data in patterns {
        let s = nibblize_sector(0, 0, &data);
        assert_eq!(decode(&s[41..384]), data.to_vec());
    }
}

#[test]
fn every_sector_has_one_address_field_and_one_data_field() {
    let raw = image();
    for track in 0..35usize {
        for sector in 0..16usize {
            let data = sector_of(&raw, track * 16 + sector);
            let s = nibblize_sector(track as u8, PHYS[sector], &data);
            assert_eq!(count(&s, &[0xD5, 0xAA, 0x96]), 1);
            assert_eq!(count(&s, &[0xD5, 0xAA, 0xAD]), 1);
            assert_eq!(count(&s, &[0xD5]), 2);
            assert_eq!(&s[16..19], &[0xD5, 0xAA, 0x96]);
            assert_eq!(&s[38..41], &[0xD5, 0xAA, 0xAD]);
            let phys = PHYS[sector];
            let sum = 0xFE ^ track as u8 ^ phys;
            let fields = [0xFE, track as u8, phys, sum];
            for (n, v) in fields.iter().enumerate() {
                assert_eq!(s[19 + 2 * n], (v >> 1) | 0xAA);
                assert_eq!(s[20 + 2 * n], v | 0xAA);
            }
            assert!(s[41..384].iter().all(|b| TAB2.contains(b)));
            assert_eq!(decode(&s[41..384]), data.to_vec());
        }
    }
}

#[test]
fn nibblized_image_has_the_expected_checksum() {
    let raw = image();
    let mut a: u32 = 0;
    let mut b: u32 = 0;
    for k in 0..35 * 16usize {
        let s = nibblize_sector((k / 16) as u8, PHYS[k % 16], &sector_of(&raw, k));
        for x in s {
            a = (a + x as u32) % 65521;
            b = (b + a) % 65521;
        }
    }
    assert_eq!((a, b), (63343, 55270));
    let s = nibblize_sector(17, PHYS[9], &sector_of(&raw, 17 * 16 + 9));
    assert_eq!(
        &s[16..30],
        &[0xD5, 0xAA, 0x96, 0xFF, 0xFE, 0xAA, 0xBB, 0xAE, 0xAE, 0xFB, 0xEB, 0xDE, 0xAA, 0xEB]
    );
    assert_eq!(&s[41..47], &[0xEB, 0xE6, 0xFF, 0xE6, 0xFF, 0xE6]);
    assert_eq!(s[41 + 342], 0xFE);
}

#[test]
fn zero_tail_encodes_as_96() {
    let mut data = [0u8; 256];
    for j in 0..44 {
        data[j] = 0xFF;
    }
    let s = nibblize_sector(0, 1, &data);
    for k in 86 + 45..343 {
        assert_eq!(s[41 + k], 0x96);
    }
    // The byte for the first zero still carries the last data byte.
    assert_eq!(s[41 + 86 + 44], 0xFF);
    let blank = nibblize_sector(0, 0, &[0u8; 256]);
    assert!(blank[41..384].iter().all(|&b| b == 0x96));
}

#[test]
fn empty_drive_reads_ff() {
    let mut drive = Drive::new();
    assert_eq!(drive.phase(), 0);
    assert_eq!(drive.track(), 0);
    assert!(drive.can_read());
    for _ in 0..10 {
        assert_eq!(drive.read(), 0xFF);
        assert_eq!(drive.read_without_mm(), 0xFF);
    }
}

#[test]
fn drive_streams_its_sectors_from_15_down() {
    let raw = image();
    let mut drive = Drive::new();
    drive.add_disk(&raw);
    for round in 0..2 {
        for n in 0..16usize {
            let sector = 15 - n;
            let expected = nibblize_sector(0, PHYS[sector], &sector_of(&raw, sector));
            let got = read_sector(&mut drive);
            assert_eq!(&got[..], &expected[..USED], "round {} sector {}", round, sector);
        }
    }
}

#[test]
fn short_image_is_padded_with_zero_data() {
    let raw: Vec<u8> = (0..300usize).map(|i| (i as u8) | 1).collect();
    let mut drive = Drive::new();
    drive.add_disk(&raw);
    let mut sectors: Vec<Vec<u8>> = Vec::new();
    for _ in 0..16 {
        sectors.push(read_sector(&mut drive));
    }
    sectors.reverse();
    // Sector 0 holds the first 256 bytes.
    assert_eq!(decode(&sectors[0][41..384]), raw[..256].to_vec());
    // Sector 1 holds 44 bytes and zeros.
    let mut second = raw[256..].to_vec();
    second.resize(256, 0);
    assert_eq!(decode(&sectors[1][41..384]), second);
    for k in 86 + 45..343 {
        assert_eq!(sectors[1][41 + k], 0x96);
    }
    // The others hold nothing, under headers of their own.
    for sector in 2..16 {
        assert!(sectors[sector][41..384].iter().all(|&b| b == 0x96));
        assert_eq!(sectors[sector][23], (PHYS[sector] >> 1) | 0xAA);
        assert_eq!(sectors[sector][24], PHYS[sector] | 0xAA);
    }
}

#[test]
fn peek_does_not_move_past_the_byte() {
    let raw = image();
    let mut drive = Drive::new();
    drive.add_disk(&raw);
    for _ in 0..16 {
        assert_eq!(drive.read(), 0xFF);
    }
    assert_eq!(drive.read_without_mm(), 0xD5);
    assert_eq!(drive.read_without_mm(), 0xD5);
    assert_eq!(drive.read(), 0xD5);
    assert_eq!(drive.read_without_mm(), 0xAA);
    assert_eq!(drive.read(), 0xAA);
    assert_eq!(drive.read(), 0x96);
}

#[test]
fn disk_head_step() {
    let mut m = Mapper::new([0u8; ROM_SIZE]);
    m.add_card(Card::Disk(DiskII::new()), 6);
    assert_eq!(m.read_without_mm(0xC0E1), 0);
    assert_eq!(m.read_without_mm(0xC0E3), 0);
    assert_eq!(m.read_without_mm(0xC0E0), 0);
    match &m.cards[6] {
        Some(Card::Disk(disk)) => {
            assert_eq!(disk.selected_drive().phase(), 1);
            assert_eq!(disk.selected_drive().track(), 1);
        },
        _ => panic!("no disk card"),
    }
}

#[test]
fn head_follows_one_magnet_at_a_time() {
    let mut drive = Drive::new();
    drive.step_motor(1, true);
    assert_eq!((drive.phase(), drive.track()), (1, 1));
    drive.step_motor(1, false);
    drive.step_motor(2, true);
    assert_eq!((drive.phase(), drive.track()), (2, 1));
    drive.step_motor(2, false);
    drive.step_motor(3, true);
    assert_eq!((drive.phase(), drive.track()), (3, 2));
    drive.step_motor(3, false);
    drive.step_motor(0, true);
    assert_eq!((drive.phase(), drive.track()), (4, 2));
    drive.step_motor(0, false);
    // The magnet behind pulls the head back.
    drive.step_motor(3, true);
    assert_eq!((drive.phase(), drive.track()), (3, 2));
    drive.step_motor(3, false);
    // A magnet two phases away does not move it.
    drive.step_motor(1, true);
    assert_eq!((drive.phase(), drive.track()), (3, 2));
}

#[test]
fn phase_is_clamped_and_track_follows_phase() {
    let mut disk = DiskII::new();
    for n in 1..=200u32 {
        step_up(&mut disk);
        let drive = disk.selected_drive();
        assert_eq!(drive.phase(), n.min(140));
        assert_eq!(drive.track() as u32, (drive.phase() + 1) / 2);
    }
    assert_eq!(disk.selected_drive().phase(), 140);
    assert_eq!(disk.selected_drive().track(), 70);
    for n in 1..=200u32 {
        step_down(&mut disk);
        let drive = disk.selected_drive();
        assert_eq!(drive.phase(), 140u32.saturating_sub(n));
        assert_eq!(drive.track() as u32, (drive.phase() + 1) / 2);
    }
    assert_eq!(disk.selected_drive().phase(), 0);
    assert_eq!(disk.selected_drive().track(), 0);
}

#[test]
fn head_beyond_the_buffer_cannot_be_read() {
    let raw = image();
    let mut m = Mapper::new([0u8; ROM_SIZE]);
    let mut disk = DiskII::new();
    disk.set_first_disk(&raw);
    for _ in 0..138 {
        step_up(&mut disk);
    }
    assert_eq!(disk.selected_drive().track(), 69);
    assert!(disk.selected_drive().can_read());
    assert!(disk.can_access_switch(0x0C));
    step_up(&mut disk);
    assert_eq!(disk.selected_drive().track(), 70);
    assert!(!disk.selected_drive().can_read());
    assert!(!disk.can_access_switch(0x0C));
    assert!(disk.can_access_switch(0x0B));
    m.add_card(Card::Disk(disk), 6);
    assert!(!m.can_access(0xC0EC));
    assert!(m.can_access(0xC0EB));
    assert!(m.can_access(0xC0DC));
    // The other drive is empty and can be read.
    assert_eq!(m.read_without_mm(0xC0EB), 0);
    assert!(m.can_access(0xC0EC));
    assert_eq!(m.read_without_mm(0xC0EC), 0xFF);
}

#[test]
fn tracks_above_the_image_are_blank() {
    let raw = image();
    let mut disk = DiskII::new();
    disk.set_first_disk(&raw);
    for _ in 0..68 {
        step_up(&mut disk);
    }
    assert_eq!(disk.selected_drive().track(), 34);
    let mut seen_d5 = false;
    for _ in 0..400 {
        seen_d5 |= disk.read_switch(0x0C) == 0xD5;
    }
    assert!(seen_d5);
    step_up(&mut disk);
    assert_eq!(disk.selected_drive().track(), 35);
    for _ in 0..1000 {
        assert_eq!(disk.read_switch(0x0C), 0x00);
    }
}

#[test]
fn other_tracks_hold_their_own_sectors() {
    let raw = image();
    let mut disk = DiskII::new();
    disk.set_first_disk(&raw);
    for _ in 0..34 {
        step_up(&mut disk);
    }
    assert_eq!(disk.selected_drive().track(), 17);
    let mut found = false;
    for _ in 0..16 {
        let s: Vec<u8> = (0..USED).map(|_| disk.read_switch(0x0C)).collect();
        assert_eq!(&s[16..19], &[0xD5, 0xAA, 0x96]);
        assert_eq!(&s[21..23], &[0xAA, 0xBB]);
        if s[23] == 0xAE && s[24] == 0xAE {
            found = true;
            assert_eq!(&s[41..47], &[0xEB, 0xE6, 0xFF, 0xE6, 0xFF, 0xE6]);
            assert_eq!(s[41 + 342], 0xFE);
            assert_eq!(decode(&s[41..384]), sector_of(&raw, 17 * 16 + 9).to_vec());
        }
    }
    assert!(found);
}

#[test]
fn disk_boot_byte_stream() {
    let raw = image();
    let mut disk = DiskII::new();
    disk.set_first_disk(&raw);
    let mut m = Mapper::new([0u8; ROM_SIZE]);
    m.add_card(Card::Disk(disk), 6);
    let mut skipped = 0;
    while m.read_without_mm(0xC0EC) != 0xD5 {
        skipped += 1;
        assert!(skipped < 1000);
    }
    assert_eq!(skipped, 16);
    let next: Vec<u8> = (0..13).map(|_| m.read_without_mm(0xC0EC)).collect();
    // The address field of the sector that the drive starts on: volume
    // 254, track 0, physical sector 15.
    assert_eq!(
        next,
        vec![0xAA, 0x96, 0xFF, 0xFE, 0xAA, 0xAA, 0xAF, 0xAF, 0xFA, 0xFB, 0xDE, 0xAA, 0xEB]
    );
}

#[test]
fn controller_rom() {
    let mut disk = DiskII::new();
    assert_eq!(disk.read_rom(0xC600), 0xA2);
    assert_eq!(disk.read_rom(0xC601), 0x20);
    assert_eq!(disk.read_rom(0xC64B), 0x56);
    assert_eq!(disk.read_rom(0xC64C), 0xA9);
    assert_eq!(disk.read_rom(0xC64D), 0x00);
    assert_eq!(disk.read_rom(0xC64E), 0xEA);
    assert_eq!(disk.read_rom(0xC64F), 0x88);
    assert_eq!(disk.read_rom(0xC6FF), 0x00);
    assert_eq!(DISK2_ROM[0x4C], 0x20);
    for n in 0..256u16 {
        let expected = match n {
            0x4C => 0xA9,
            0x4D => 0x00,
            0x4E => 0xEA,
            _ => DISK2_ROM[n as usize],
        };
        assert_eq!(disk.read_rom(0xC600 + n), expected);
        assert_eq!(disk.read_rom(0xC100 + n), expected);
    }
    assert_eq!(disk.read_expansion_rom(0xC800), 0);
    assert!(!disk.is_language_card());
    let mut m = Mapper::new([0u8; ROM_SIZE]);
    m.add_card(Card::Disk(DiskII::new()), 6);
    assert_eq!(m.read_without_mm(0xC64C), 0xA9);
    assert_eq!(m.read_without_mm(0xC65C), 0x18);
}

#[test]
fn drive_select_and_modes() {
    let raw = image();
    let mut disk = DiskII::new();
    disk.set_first_disk(&raw);
    assert_eq!(disk.read_switch(0x08), 0);
    assert_eq!(disk.read_switch(0x09), 0);
    assert_eq!(disk.read_switch(0x0D), 0);
    assert_eq!(disk.read_switch(0x0C), 0xFF);
    // The second drive is empty.
    assert_eq!(disk.read_switch(0x0B), 0);
    assert_eq!(disk.read_switch(0x0C), 0xFF);
    step_up(&mut disk);
    assert_eq!(disk.selected_drive().phase(), 1);
    // The first drive kept its place.
    assert_eq!(disk.read_switch(0x0A), 0);
    assert_eq!(disk.selected_drive().phase(), 0);
    for _ in 0..15 {
        assert_eq!(disk.read_switch(0x0C), 0xFF);
    }
    // In write mode nothing is streamed.
    assert_eq!(disk.read_switch(0x0F), 0);
    for _ in 0..5 {
        assert_eq!(disk.read_switch(0x0C), 0);
    }
    // Back in read mode the stream goes on where it was; the disk is not
    // write-protected.
    assert_eq!(disk.read_switch(0x0E), 0);
    assert_eq!(disk.read_switch(0x0C), 0xD5);
    assert_eq!(disk.read_switch(0x0C), 0xAA);
    assert_eq!(disk.read_switch(0x10), 0);
}

#[test]
fn second_disk_goes_into_the_second_drive() {
    let raw = image();
    let mut disk = DiskII::new();
    disk.set_second_disk(&raw);
    assert_eq!(disk.read_switch(0x0C), 0xFF);
    for _ in 0..20 {
        assert_eq!(disk.read_switch(0x0C), 0xFF);
    }
    disk.read_switch(0x0B);
    let s: Vec<u8> = (0..19).map(|_| disk.read_switch(0x0C)).collect();
    assert_eq!(&s[16..19], &[0xD5, 0xAA, 0x96]);
}

#[test]
fn writes_to_the_switches_act_as_reads() {
    let raw = image();
    let mut disk = DiskII::new();
    disk.set_first_disk(&raw);
    let mut m = Mapper::new([0u8; ROM_SIZE]);
    m.add_card(Card::Disk(disk), 6);
    m.write_without_mm(0xC0E3, 0x00);
    m.write_without_mm(0xC0E2, 0x00);
    for _ in 0..16 {
        m.write_without_mm(0xC0EC, 0x00);
    }
    assert_eq!(m.read_without_mm(0xC0EC), 0xD5);
    match &m.cards[6] {
        Some(Card::Disk(disk)) => assert_eq!(disk.selected_drive().phase(), 1),
        _ => panic!("no disk card"),
    }
    // Write mode is entered by a write as well.
    m.write_without_mm(0xC0EF, 0x00);
    assert_eq!(m.read_without_mm(0xC0EC), 0x00);
}

#[test]
fn looks_at_the_switches_leave_the_controller_alone() {
    let raw = image();
    let mut disk = DiskII::new();
    disk.set_first_disk(&raw);
    assert_eq!(disk.read_switch_without_mm(0x03), 0);
    assert_eq!(disk.selected_drive().phase(), 0);
    assert_eq!(disk.read_switch_without_mm(0x0B), 0);
    assert_eq!(disk.read_switch_without_mm(0x0F), 0);
    assert_eq!(disk.read_switch_without_mm(0x0E), 0);
    assert_eq!(disk.read_switch_without_mm(0x0C), 0xFF);
    for _ in 0..16 {
        assert_eq!(disk.read_switch(0x0C), 0xFF);
    }
    assert_eq!(disk.read_switch_without_mm(0x0C), 0xD5);
    disk.write_switch_without_mm(0x0C, 0);
    disk.write_switch_without_mm(0x03, 0);
    assert_eq!(disk.read_switch_without_mm(0x0C), 0xD5);
    assert_eq!(disk.selected_drive().phase(), 0);
    disk.write_switch(0x0C, 0);
    assert_eq!(disk.read_switch_without_mm(0x0C), 0xAA);
}

//! The Disk ][ controller and its two drives.
use vstd::prelude::*;
use vstd::pervasive::unreached;
use crate::bits::lemma_low_byte;
use crate::bits::lemma_magnet_bit;
use crate::bits::lemma_no_magnet;
use crate::bits::lemma_phase_switch;
use crate::peripheral_card::nibble::field_starts;
use crate::peripheral_card::nibble::law_one_field_of_each_kind;
use crate::peripheral_card::nibble::law_zero_tail_encodes_as_96;
use crate::peripheral_card::nibble::lemma_sector_layout;
use crate::peripheral_card::nibble::nibblize_sector;
use crate::peripheral_card::nibble::nibblized_sector;
use crate::peripheral_card::nibble::odd_nibble;
use crate::peripheral_card::nibble::even_nibble;
use crate::peripheral_card::nibble::ADDRESS_FIELD_AT;
use crate::peripheral_card::nibble::AUX_SIZE;
use crate::peripheral_card::nibble::DATA_FIELD_AT;
use crate::peripheral_card::nibble::NIBBLE_SECTOR_SIZE;
use crate::peripheral_card::nibble::NIBBLE_SECTOR_USED;
use crate::peripheral_card::nibble::PHYS;
use crate::peripheral_card::nibble::SECTOR_DATA;
use crate::peripheral_card::CardView;
use crate::peripheral_card::PeripheralCard;

verus! {

/// The boot ROM of the controller.
pub const DISK2_ROM: [u8; 0x100] = [
    0xA2, 0x20, 0xA0, 0x00, 0xA2, 0x03, 0x86, 0x3C, 0x8A, 0x0A, 0x24, 0x3C, 0xF0, 0x10, 0x05, 0x3C,
    0x49, 0xFF, 0x29, 0x7E, 0xB0, 0x08, 0x4A, 0xD0, 0xFB, 0x98, 0x9D, 0x56, 0x03, 0xC8, 0xE8, 0x10,
    0xE5, 0x20, 0x58, 0xFF, 0xBA, 0xBD, 0x00, 0x01, 0x0A, 0x0A, 0x0A, 0x0A, 0x85, 0x2B, 0xAA, 0xBD,
    0x8E, 0xC0, 0xBD, 0x8C, 0xC0, 0xBD, 0x8A, 0xC0, 0xBD, 0x89, 0xC0, 0xA0, 0x50, 0xBD, 0x80, 0xC0,
    0x98, 0x29, 0x03, 0x0A, 0x05, 0x2B, 0xAA, 0xBD, 0x81, 0xC0, 0xA9, 0x56, 0x20, 0xA8, 0xFC, 0x88,
    0x10, 0xEB, 0x85, 0x26, 0x85, 0x3D, 0x85, 0x41, 0xA9, 0x08, 0x85, 0x27, 0x18, 0x08, 0xBD, 0x8C,
    0xC0, 0x10, 0xFB, 0x49, 0xD5, 0xD0, 0xF7, 0xBD, 0x8C, 0xC0, 0x10, 0xFB, 0xC9, 0xAA, 0xD0, 0xF3,
    0xEA, 0xBD, 0x8C, 0xC0, 0x10, 0xFB, 0xC9, 0x96, 0xF0, 0x09, 0x28, 0x90, 0xDF, 0x49, 0xAD, 0xF0,
    0x25, 0xD0, 0xD9, 0xA0, 0x03, 0x85, 0x40, 0xBD, 0x8C, 0xC0, 0x10, 0xFB, 0x2A, 0x85, 0x3C, 0xBD,
    0x8C, 0xC0, 0x10, 0xFB, 0x25, 0x3C, 0x88, 0xD0, 0xEC, 0x28, 0xC5, 0x3D, 0xD0, 0xBE, 0xA5, 0x40,
    0xC5, 0x41, 0xD0, 0xB8, 0xB0, 0xB7, 0xA0, 0x56, 0x84, 0x3C, 0xBC, 0x8C, 0xC0, 0x10, 0xFB, 0x59,
    0xD6, 0x02, 0xA4, 0x3C, 0x88, 0x99, 0x00, 0x03, 0xD0, 0xEE, 0x84, 0x3C, 0xBC, 0x8C, 0xC0, 0x10,
    0xFB, 0x59, 0xD6, 0x02, 0xA4, 0x3C, 0x91, 0x26, 0xC8, 0xD0, 0xEF, 0xBC, 0x8C, 0xC0, 0x10, 0xFB,
    0x59, 0xD6, 0x02, 0xD0, 0x87, 0xA0, 0x00, 0xA2, 0x56, 0xCA, 0x30, 0xFB, 0xB1, 0x26, 0x5E, 0x00,
    0x03, 0x2A, 0x5E, 0x00, 0x03, 0x2A, 0x91, 0x26, 0xC8, 0xD0, 0xEE, 0xE6, 0x27, 0xE6, 0x3D, 0xA5,
    0x3D, 0xCD, 0x00, 0x08, 0xA6, 0x2B, 0x90, 0xDB, 0x4C, 0x01, 0x08, 0x00, 0x00, 0x00, 0x00, 0x00,
];

/// Tracks in the nibble buffer of a drive.
pub const BUFFER_TRACKS: usize = 70;

/// Tracks of a disk image; the tracks of the buffer above them are blank.
pub const IMAGE_TRACKS: usize = 35;

/// Sectors in a track.
pub const SECTORS: usize = 16;

/// Magnets that move the head.
pub const MAGNETS: usize = 4;

/// The last phase that the head reaches.
pub const MAX_PHASE: u32 = 140;

/// The data of sector number `k` of a raw disk image, counting through the
/// tracks: the 256 bytes at `256 * k`, with zero for each byte that the
/// image is too short to hold.
pub open spec fn sector_source(raw: Seq<u8>, k: int) -> Seq<u8> {
    Seq::new(
        SECTOR_DATA as nat,
        |j: int| if k * SECTOR_DATA + j < raw.len() { raw[k * SECTOR_DATA + j] } else { 0u8 },
    )
}

/// The nibble buffer for a raw disk image, sector `s` of track `t` at
/// index `16 * t + s`. The sectors of the first 35 tracks hold the image,
/// each under the physical sector number that its logical number maps to;
/// the others are blank.
pub open spec fn nibblized_image(raw: Seq<u8>) -> Seq<Seq<u8>> {
    Seq::new(
        (BUFFER_TRACKS * SECTORS) as nat,
        |k: int|
            if k < IMAGE_TRACKS * SECTORS {
                nibblized_sector((k / 16) as u8, PHYS[k % 16], sector_source(raw, k))
            } else {
                Seq::new(NIBBLE_SECTOR_SIZE as nat, |i: int| 0u8)
            },
    )
}

/// Whether a nibble buffer has the shape that a drive streams from: 70
/// tracks of 16 sectors of 512 bytes, each sector zero from byte 387 on.
pub open spec fn image_wf(image: Seq<Seq<u8>>) -> bool {
    &&& image.len() == BUFFER_TRACKS * SECTORS
    &&& forall|k: int| 0 <= k < image.len() ==> (#[trigger] image[k]).len() == NIBBLE_SECTOR_SIZE
    &&& forall|k: int, i: int|
        0 <= k < image.len() && NIBBLE_SECTOR_USED <= i < NIBBLE_SECTOR_SIZE ==> #[trigger] image[k][i]
            == 0
}

/// A drive, as the contracts see it.
#[verifier::ext_equal]
pub struct DriveView {
    /// The nibble buffer of the disk in the drive, if there is one.
    pub image: Option<Seq<Seq<u8>>>,
    /// The track under the head.
    pub track: int,
    /// The sector that is being streamed.
    pub sector: int,
    /// The next byte of that sector.
    pub idx: int,
    /// Of each of the four magnets, whether it is on.
    pub magnets: Seq<bool>,
    /// The position of the head.
    pub phase: int,
}

impl DriveView {
    /// An empty drive with its head at phase 0, about to stream sector 15.
    pub open spec fn initial() -> DriveView {
        DriveView {
            image: None,
            track: 0,
            sector: 15,
            idx: 0,
            magnets: Seq::new(MAGNETS as nat, |k: int| false),
            phase: 0,
        }
    }

    /// The drive with the disk of raw image `raw` in it.
    pub open spec fn with_disk(self, raw: Seq<u8>) -> DriveView {
        DriveView { image: Some(nibblized_image(raw)), ..self }
    }

    /// What holds of every drive.
    pub open spec fn wf(self) -> bool {
        &&& 0 <= self.phase <= MAX_PHASE
        &&& self.track == (self.phase + 1) / 2
        &&& 0 <= self.sector < SECTORS
        &&& 0 <= self.idx <= NIBBLE_SECTOR_USED
        &&& self.magnets.len() == MAGNETS
        &&& self.image matches Some(image) ==> image_wf(image)
    }

    /// The drive after magnet `magnet` was switched on or off. The head
    /// moves up a phase if the magnet ahead of it is on, then down a phase
    /// if the magnet behind it is on, and stays within phases 0 to 140.
    pub open spec fn step_motor(self, magnet: u16, enable: bool) -> DriveView {
        let magnets = self.magnets.update(magnet as int, enable);
        let up = if magnets[(self.phase + 1) % 4] && self.phase < MAX_PHASE {
            self.phase + 1
        } else {
            self.phase
        };
        let phase = if magnets[(up + 3) % 4] && up > 0 {
            up - 1
        } else {
            up
        };
        DriveView { magnets, phase, track: (phase + 1) / 2, ..self }
    }

    /// Whether the head is over a track of the buffer, so that there is
    /// something to read. An empty drive can always be read.
    pub open spec fn can_read(self) -> bool {
        self.image is Some ==> self.track < BUFFER_TRACKS
    }

    /// The drive after the start of a read, and the byte under the head.
    /// Where the byte at the cursor is zero, the sector has ended: the
    /// drive goes on to the start of the sector before it, going round
    /// from 0 to 15.
    pub open spec fn read_without_mm(self) -> (DriveView, u8) {
        match self.image {
            Some(image) => {
                let b = image[self.track * SECTORS + self.sector][self.idx];
                if b == 0 {
                    let sector = (self.sector + 15) % 16;
                    (DriveView { sector, idx: 0, ..self }, image[self.track * SECTORS + sector][0])
                } else {
                    (self, b)
                }
            },
            None => (self, 0xFFu8),
        }
    }

    /// The drive after a read, and the byte read: the byte under the
    /// head, with the cursor moved past it. An empty drive reads `$FF`.
    pub open spec fn read(self) -> (DriveView, u8) {
        let (at, b) = self.read_without_mm();
        match self.image {
            Some(_) => (DriveView { idx: at.idx + 1, ..at }, b),
            None => (self, b),
        }
    }
}

/// One of the two drives of a controller.
pub struct Drive {
    sectors: Option<Vec<Vec<u8>>>,
    track: usize,
    sector: usize,
    idx: usize,
    /// Bitmap of the magnets that are on.
    magnets: u32,
    /// Current phase of the head.
    phase: u32,
}

impl View for Drive {
    type V = DriveView;

    closed spec fn view(&self) -> DriveView {
        DriveView {
            image: match self.sectors {
                Some(data) => Some(Seq::new(data@.len(), |k: int| data@[k]@)),
                None => None,
            },
            track: self.track as int,
            sector: self.sector as int,
            idx: self.idx as int,
            magnets: Seq::new(
                MAGNETS as nat,
                |k: int| self.magnets & (1u32 << (k as u32)) != 0,
            ),
            phase: self.phase as int,
        }
    }
}

impl Drive {
    /// An empty drive with its head at phase 0.
    pub fn new() -> (drive: Drive)
        ensures
            drive@.wf(),
            drive@ == DriveView::initial(),
    {
        let drive = Drive { sectors: None, track: 0, sector: 15, idx: 0, magnets: 0, phase: 0 };
        proof {
            assert forall|k: int| 0 <= k < MAGNETS implies !(#[trigger] drive@.magnets[k]) by {
                lemma_no_magnet(k as u32);
            }
            assert(drive@.magnets =~= DriveView::initial().magnets);
        }
        drive
    }

    /// Puts a disk into the drive: `disk` is its raw image, sector after
    /// sector. The head stays where it is.
    pub fn add_disk(&mut self, disk: &[u8])
        requires
            old(self)@.wf(),
        ensures
            final(self)@.wf(),
            final(self)@ == old(self)@.with_disk(disk@),
    {
        let mut data: Vec<Vec<u8>> = Vec::new();
        for track_num in 0..BUFFER_TRACKS
            invariant
                data@.len() == track_num * SECTORS,
                forall|k: int|
                    0 <= k < data@.len() ==> (#[trigger] data@[k])@ == nibblized_image(disk@)[k],
        {
            for sector_num in 0..SECTORS
                invariant
                    track_num < BUFFER_TRACKS,
                    data@.len() == track_num * SECTORS + sector_num,
                    forall|k: int|
                        0 <= k < data@.len() ==> (#[trigger] data@[k])@ == nibblized_image(
                            disk@,
                        )[k],
            {
                if track_num < IMAGE_TRACKS {
                    let source: [u8; SECTOR_DATA] = Drive::sector_data(
                        disk,
                        track_num * SECTORS + sector_num,
                    );
                    let sector: Vec<u8> = nibblize_sector(
                        track_num as u8,
                        PHYS[sector_num],
                        &source,
                    );
                    data.push(sector);
                } else {
                    let mut blank: Vec<u8> = Vec::new();
                    for i in 0..NIBBLE_SECTOR_SIZE
                        invariant
                            blank@.len() == i,
                            forall|j: int| 0 <= j < i ==> blank@[j] == 0,
                    {
                        blank.push(0);
                    }
                    assert(blank@ =~= Seq::new(NIBBLE_SECTOR_SIZE as nat, |i: int| 0u8));
                    data.push(blank);
                }
            }
        }
        self.sectors = Some(data);
        proof {
            let image = self@.image->0;
            assert(image =~= nibblized_image(disk@));
            lemma_nibblized_image_wf(disk@);
        }
    }

    /// The 256 bytes of sector `k` of a raw image, zero where the image
    /// ends early.
    fn sector_data(disk: &[u8], k: usize) -> (data: [u8; SECTOR_DATA])
        requires
            k < IMAGE_TRACKS * SECTORS,
        ensures
            data@ == sector_source(disk@, k as int),
    {
        let mut data: [u8; SECTOR_DATA] = [0u8; SECTOR_DATA];
        let start: usize = k * SECTOR_DATA;
        for j in 0..SECTOR_DATA
            invariant
                start == k * SECTOR_DATA,
                k < IMAGE_TRACKS * SECTORS,
                forall|i: int| 0 <= i < j ==> data@[i] == sector_source(disk@, k as int)[i],
                forall|i: int| j <= i < SECTOR_DATA ==> data@[i] == 0,
        {
            if start + j < disk.len() {
                data[j] = disk[start + j];
            }
        }
        assert(data@ =~= sector_source(disk@, k as int));
        data
    }

    /// The phase at which the head stands.
    pub fn phase(&self) -> (phase: u32)
        ensures
            phase == self@.phase,
    {
        self.phase
    }

    /// The track under the head.
    pub fn track(&self) -> (track: usize)
        ensures
            track == self@.track,
    {
        self.track
    }

    /// Whether the drive can be read: it is empty, or its head is over a
    /// track of the buffer.
    pub fn can_read(&self) -> (b: bool)
        ensures
            b == self@.can_read(),
    {
        self.sectors.is_none() || self.track < BUFFER_TRACKS
    }

    /// Switches magnet `magnet` on or off and lets the head follow.
    pub fn step_motor(&mut self, magnet: u16, enable: bool)
        requires
            old(self)@.wf(),
            magnet < 4,
        ensures
            final(self)@.wf(),
            final(self)@ == old(self)@.step_motor(magnet, enable),
            final(self)@.track == (final(self)@.phase + 1) / 2,
            0 <= final(self)@.phase <= MAX_PHASE,
    {
        proof {
            lemma_magnet_bit(self.magnets, magnet as u32, 0);
            lemma_magnet_bit(self.magnets, magnet as u32, 1);
            lemma_magnet_bit(self.magnets, magnet as u32, 2);
            lemma_magnet_bit(self.magnets, magnet as u32, 3);
        }
        if enable {
            self.magnets |= 1u32 << magnet as u32;
        } else {
            self.magnets &= !(1u32 << magnet as u32);
        }
        assert(self@.magnets =~= old(self)@.magnets.update(magnet as int, enable));
        if self.magnets & (1u32 << ((self.phase + 1) % 4)) != 0 && self.phase < MAX_PHASE {
            self.phase += 1;
        }
        if self.magnets & (1u32 << ((self.phase + 3) % 4)) != 0 && self.phase > 0 {
            self.phase -= 1;
        }
        self.track = ((self.phase + 1) / 2) as usize;
    }

    /// Reads the byte under the head and moves on.
    pub fn read(&mut self) -> (r: u8)
        requires
            old(self)@.wf(),
            old(self)@.can_read(),
        ensures
            final(self)@.wf(),
            (final(self)@, r) == old(self)@.read(),
    {
        match &self.sectors {
            Some(data) => {
                let ghost image = old(self)@.image->0;
                assert(image[self.track * SECTORS + self.sector] == data@[self.track * SECTORS
                    + self.sector]@);
                let mut ret: u8 = data[self.track * SECTORS + self.sector][self.idx];
                if ret == 0 {
                    self.sector += 15;
                    self.sector %= 16;
                    self.idx = 0;
                    assert(image[self.track * SECTORS + self.sector] == data@[self.track * SECTORS
                        + self.sector]@);
                    ret = data[self.track * SECTORS + self.sector][self.idx];
                }
                self.idx += 1;
                ret
            },
            None => 0xFF,
        }
    }

    /// Looks at the byte under the head without moving past it.
    pub fn read_without_mm(&mut self) -> (r: u8)
        requires
            old(self)@.wf(),
            old(self)@.can_read(),
        ensures
            final(self)@.wf(),
            (final(self)@, r) == old(self)@.read_without_mm(),
    {
        match &self.sectors {
            Some(data) => {
                let ghost image = old(self)@.image->0;
                assert(image[self.track * SECTORS + self.sector] == data@[self.track * SECTORS
                    + self.sector]@);
                let mut ret: u8 = data[self.track * SECTORS + self.sector][self.idx];
                if ret == 0 {
                    self.sector += 15;
                    self.sector %= 16;
                    self.idx = 0;
                    assert(image[self.track * SECTORS + self.sector] == data@[self.track * SECTORS
                        + self.sector]@);
                    ret = data[self.track * SECTORS + self.sector][self.idx];
                }
                ret
            },
            None => 0xFF,
        }
    }

    /// The odd bits of a byte, as a disk byte.
    pub fn nib_odd(byte: u8) -> (r: u8)
        ensures
            r == odd_nibble(byte),
    {
        (byte >> 1) | 0xAA
    }

    /// The even bits of a byte, as a disk byte.
    pub fn nib_even(byte: u8) -> (r: u8)
        ensures
            r == even_nibble(byte),
    {
        byte | 0xAA
    }
}

/// Whether the controller streams from the disk or takes bytes for it.
#[derive(Clone, Copy, Debug, PartialEq, Eq)]
pub enum Mode {
    Read,
    Write,
}

/// The byte of the controller's ROM that answers to `addr`: the byte of
/// the boot ROM at the low byte of `addr`, but for three bytes at `$4C`
/// that are patched.
pub open spec fn rom_byte(addr: u16) -> u8 {
    let rom_addr = addr % 256;
    if rom_addr == 0x4C {
        0xA9
    } else if rom_addr == 0x4D {
        0x00
    } else if rom_addr == 0x4E {
        0xEA
    } else {
        DISK2_ROM[rom_addr as int]
    }
}

/// A controller, as the contracts see it.
#[verifier::ext_equal]
pub struct DiskView {
    pub drives: Seq<DriveView>,
    /// The drive that the soft-switches act on.
    pub drive_num: int,
    pub mode: Mode,
    pub write_protect: bool,
}

impl DiskView {
    /// A controller with two empty drives, the first one current, in read
    /// mode and not write-protected.
    pub open spec fn initial() -> DiskView {
        DiskView {
            drives: seq![DriveView::initial(), DriveView::initial()],
            drive_num: 0,
            mode: Mode::Read,
            write_protect: false,
        }
    }

    /// The controller with the disk of raw image `raw` in drive `n`.
    pub open spec fn with_disk(self, n: int, raw: Seq<u8>) -> DiskView {
        DiskView { drives: self.drives.update(n, self.drives[n].with_disk(raw)), ..self }
    }

    /// What holds of every controller.
    pub open spec fn wf(self) -> bool {
        &&& self.drives.len() == 2
        &&& self.drives[0].wf()
        &&& self.drives[1].wf()
        &&& 0 <= self.drive_num < 2
    }

    /// The drive that the soft-switches act on.
    pub open spec fn current_drive(self) -> DriveView {
        self.drives[self.drive_num]
    }

    /// The controller with `drive` in the place of its current drive.
    pub open spec fn with_current_drive(self, drive: DriveView) -> DiskView {
        DiskView { drives: self.drives.update(self.drive_num, drive), ..self }
    }

    /// Whether soft-switch `switch` can be accessed: to stream from the
    /// current drive, its head must be over a track of the buffer.
    pub open spec fn can_access_switch(self, switch: u16) -> bool {
        switch == 0x0C && self.mode is Read ==> self.current_drive().can_read()
    }

    /// The controller after a read of soft-switch `switch`, and the byte
    /// read.
    pub open spec fn read_switch(self, switch: u16) -> (DiskView, u8) {
        if switch <= 0x07 {
            // Phase switches: a magnet goes on or off.
            (
                self.with_current_drive(
                    self.current_drive().step_motor(switch / 2, switch % 2 == 1),
                ),
                0u8,
            )
        } else if switch <= 0x09 {
            // The motor, which needs no emulation.
            (self, 0u8)
        } else if switch == 0x0A {
            (DiskView { drive_num: 0, ..self }, 0u8)
        } else if switch == 0x0B {
            (DiskView { drive_num: 1, ..self }, 0u8)
        } else if switch == 0x0C {
            match self.mode {
                Mode::Read => (
                    self.with_current_drive(self.current_drive().read().0),
                    self.current_drive().read().1,
                ),
                Mode::Write => (self, 0u8),
            }
        } else if switch == 0x0D {
            // The write register, which is not kept.
            (self, 0u8)
        } else if switch == 0x0E {
            (DiskView { mode: Mode::Read, ..self }, if self.write_protect { 0xFFu8 } else { 0x00u8 })
        } else if switch == 0x0F {
            (DiskView { mode: Mode::Write, ..self }, 0u8)
        } else {
            (self, 0u8)
        }
    }

    /// The controller after a look at soft-switch `switch`, and the byte
    /// seen.
    pub open spec fn read_switch_without_mm(self, switch: u16) -> (DiskView, u8) {
        if switch == 0x0C {
            match self.mode {
                Mode::Read => (
                    self.with_current_drive(self.current_drive().read_without_mm().0),
                    self.current_drive().read_without_mm().1,
                ),
                Mode::Write => (self, 0u8),
            }
        } else if switch == 0x0E {
            (self, if self.write_protect { 0xFFu8 } else { 0x00u8 })
        } else {
            (self, 0u8)
        }
    }
}

/// The Disk ][ controller.
pub struct DiskII {
    drives: [Drive; 2],
    drive_num: usize,
    mode: Mode,
    write_protect: bool,
}

impl View for DiskII {
    type V = DiskView;

    closed spec fn view(&self) -> DiskView {
        DiskView {
            drives: Seq::new(2, |n: int| self.drives@[n]@),
            drive_num: self.drive_num as int,
            mode: self.mode,
            write_protect: self.write_protect,
        }
    }
}

impl DiskII {
    /// A controller with two empty drives, the first one current, in read
    /// mode and not write-protected.
    pub fn new() -> (disk: DiskII)
        ensures
            disk@.wf(),
            disk@ == DiskView::initial(),
    {
        let disk = DiskII {
            drives: [Drive::new(), Drive::new()],
            drive_num: 0,
            mode: Mode::Read,
            write_protect: false,
        };
        assert(disk@.drives =~= seq![DriveView::initial(), DriveView::initial()]);
        disk
    }

    /// Puts a disk, given as its raw image, into the first drive.
    pub fn set_first_disk(&mut self, disk: &[u8])
        requires
            old(self)@.wf(),
        ensures
            final(self)@.wf(),
            final(self)@ == old(self)@.with_disk(0, disk@),
    {
        self.drives[0].add_disk(disk);
        assert(self@.drives =~= old(self)@.drives.update(0, self@.drives[0]));
    }

    /// Puts a disk, given as its raw image, into the second drive.
    pub fn set_second_disk(&mut self, disk: &[u8])
        requires
            old(self)@.wf(),
        ensures
            final(self)@.wf(),
            final(self)@ == old(self)@.with_disk(1, disk@),
    {
        self.drives[1].add_disk(disk);
        assert(self@.drives =~= old(self)@.drives.update(1, self@.drives[1]));
    }

    /// The drive that the soft-switches act on, to look at.
    pub fn selected_drive(&self) -> (drive: &Drive)
        requires
            self@.wf(),
        ensures
            drive@ == self@.current_drive(),
    {
        &self.drives[self.drive_num]
    }

    /// Whether soft-switch `switch` can be accessed.
    pub fn can_access_switch(&self, switch: u16) -> (b: bool)
        requires
            self@.wf(),
        ensures
            b == self@.can_access_switch(switch),
    {
        if switch == 0x0C {
            match self.mode {
                Mode::Read => self.drives[self.drive_num].can_read(),
                Mode::Write => true,
            }
        } else {
            true
        }
    }

    /// The drive that the soft-switches act on.
    pub fn current_drive(&mut self) -> (drive: &mut Drive)
        requires
            old(self)@.wf(),
        ensures
            drive@ == old(self)@.current_drive(),
            final(self)@ == old(self)@.with_current_drive(final(drive)@),
    {
        &mut self.drives[self.drive_num]
    }
}

impl PeripheralCard for DiskII {
    open spec fn card_view(&self) -> CardView {
        CardView::Disk(self@)
    }

    fn read_switch(&mut self, switch: u16) -> (r: u8) {
        match switch {
            // Phase switches.
            0x00..=0x07 => {
                proof {
                    lemma_phase_switch(switch);
                }
                self.current_drive().step_motor(switch >> 1, (switch & 1) != 0);
                0
            },
            // The motor needs no emulation.
            0x08..=0x09 => 0,
            0x0A => {
                self.drive_num = 0;
                0
            },
            0x0B => {
                self.drive_num = 1;
                0
            },
            0x0C => match self.mode {
                Mode::Read => self.current_drive().read(),
                Mode::Write => 0,
            },
            // The write register is not kept.
            0x0D => 0x00,
            0x0E => {
                self.mode = Mode::Read;
                if self.write_protect {
                    0xFF
                } else {
                    0x00
                }
            },
            0x0F => {
                self.mode = Mode::Write;
                0x00
            },
            _ => 0,
        }
    }

    fn write_switch(&mut self, switch: u16, _val: u8) {
        self.read_switch(switch);
    }

    fn read_switch_without_mm(&mut self, switch: u16) -> (r: u8) {
        match switch {
            0x0C => match self.mode {
                Mode::Read => self.current_drive().read_without_mm(),
                Mode::Write => 0,
            },
            0x0E => if self.write_protect {
                0xFF
            } else {
                0x00
            },
            _ => 0,
        }
    }

    fn write_switch_without_mm(&mut self, switch: u16, _val: u8) {
        self.read_switch_without_mm(switch);
    }

    fn read_rom(&mut self, addr: u16) -> (r: u8) {
        proof {
            lemma_low_byte(addr);
        }
        let rom_addr: usize = (addr & 0xFF) as usize;
        match rom_addr {
            0x4C => 0xA9,
            0x4D => 0x00,
            0x4E => 0xEA,
            _ => DISK2_ROM[rom_addr],
        }
    }

    fn read_expansion_rom(&mut self, _addr: u16) -> (r: u8) {
        0
    }

    /// A disk controller overlays nothing, so the bus never asks it for
    /// a byte of `$D000` to `$FFFF`: no call meets the contract.
    fn read_language_rom(&mut self, _addr: u16) -> (r: u8) {
        unreached()
    }

    /// A disk controller overlays nothing, so the bus never hands it a
    /// byte for `$D000` to `$FFFF`: no call meets the contract.
    fn write_language_rom(&mut self, _addr: u16, _val: u8) {
        unreached()
    }

    fn is_language_card(&self) -> (b: bool) {
        false
    }
}

/// The head follows the magnets one phase at a time and never leaves the
/// disk: a step at phase 140 goes no further up, a step at phase 0 no
/// further down, and the track is always the one that the phase gives.
pub proof fn law_head_stays_on_disk(drive: DriveView, magnet: u16, enable: bool)
    requires
        drive.wf(),
        magnet < 4,
    ensures
        drive.step_motor(magnet, enable).wf(),
        0 <= drive.step_motor(magnet, enable).phase <= MAX_PHASE,
        drive.phase - 1 <= drive.step_motor(magnet, enable).phase <= drive.phase + 1,
        drive.step_motor(magnet, enable).track == (drive.step_motor(magnet, enable).phase + 1)
            / 2,
{
}

/// Each sector of the 35 tracks of a loaded disk holds one address field
/// and one data field: in the place of sector `sector` of track `track`
/// stands the nibblized form of that sector's data, under the physical
/// sector number that goes with `sector`, and in it `$D5 $AA $96` is found
/// at byte 16 only and `$D5 $AA $AD` at byte 38 only.
pub proof fn law_loaded_sector_fields(raw: Seq<u8>, track: int, sector: int)
    requires
        0 <= track < IMAGE_TRACKS,
        0 <= sector < SECTORS,
    ensures
        nibblized_image(raw)[track * SECTORS + sector] == nibblized_sector(
            track as u8,
            PHYS[sector],
            sector_source(raw, track * SECTORS + sector),
        ),
        forall|i: int|
            0 <= i <= NIBBLE_SECTOR_SIZE - 3 ==> (#[trigger] field_starts(
                nibblized_image(raw)[track * SECTORS + sector],
                i,
                0x96,
            ) <==> i == ADDRESS_FIELD_AT),
        forall|i: int|
            0 <= i <= NIBBLE_SECTOR_SIZE - 3 ==> (#[trigger] field_starts(
                nibblized_image(raw)[track * SECTORS + sector],
                i,
                0xAD,
            ) <==> i == DATA_FIELD_AT),
{
    let k = track * SECTORS + sector;
    assert(k / 16 == track && k % 16 == sector);
    law_one_field_of_each_kind(track as u8, PHYS[sector], sector_source(raw, k));
}

/// A disk image that ends early is padded with `$96`: in the data field
/// of a sector, every byte behind the one for the first data byte that
/// the image does not hold is `$96`.
pub proof fn law_short_image_is_padded(raw: Seq<u8>, track: int, sector: int, j: int)
    requires
        0 <= track < IMAGE_TRACKS,
        0 <= sector < SECTORS,
        0 <= j < SECTOR_DATA,
        raw.len() < (track * SECTORS + sector) * SECTOR_DATA + j,
    ensures
        nibblized_image(raw)[track * SECTORS + sector][DATA_FIELD_AT + 3 + AUX_SIZE + j] == 0x96,
{
    let k = track * SECTORS + sector;
    assert(k / 16 == track && k % 16 == sector);
    let data = sector_source(raw, k);
    let n = if raw.len() <= k * SECTOR_DATA {
        0
    } else {
        raw.len() - k * SECTOR_DATA
    };
    law_zero_tail_encodes_as_96(data, n);
    lemma_sector_layout(track as u8, PHYS[sector], data);
    assert(nibblized_sector(track as u8, PHYS[sector], data)[41 + (AUX_SIZE + j)]
        == crate::peripheral_card::nibble::data_body(data)[AUX_SIZE + j]);
}

/// The tracks of the buffer above the 35 of a disk image are blank.
pub proof fn law_upper_tracks_are_blank(raw: Seq<u8>, track: int, sector: int, i: int)
    requires
        IMAGE_TRACKS <= track < BUFFER_TRACKS,
        0 <= sector < SECTORS,
        0 <= i < NIBBLE_SECTOR_SIZE,
    ensures
        nibblized_image(raw)[track * SECTORS + sector][i] == 0,
{
}

/// Every nibblized image has the shape that a drive streams from.
pub proof fn lemma_nibblized_image_wf(raw: Seq<u8>)
    ensures
        image_wf(nibblized_image(raw)),
{
    let image = nibblized_image(raw);
    assert forall|k: int| 0 <= k < image.len() implies (#[trigger] image[k]).len()
        == NIBBLE_SECTOR_SIZE by {}
    assert forall|k: int, i: int|
        0 <= k < image.len() && NIBBLE_SECTOR_USED <= i < NIBBLE_SECTOR_SIZE implies #[trigger] image[k][i]
        == 0 by {}
}

} // verus!

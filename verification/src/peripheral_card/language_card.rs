//! The Language Card: sixteen kilobytes of RAM that can take the place of
//! the system ROM.
use vstd::prelude::*;
use vstd::pervasive::unreached;
use crate::bits::lemma_language_switch;
use crate::mapper::ROM_SIZE;
use crate::peripheral_card::CardView;
use crate::peripheral_card::PeripheralCard;

verus! {

/// Bit 0 of a soft-switch address, which asks for the RAM to be writable.
pub const WRITE_SWITCH: u16 = 0x0001;

/// Bit 1, which selects the RAM for reading where it equals the write bit.
pub const READ_SWITCH: u16 = 0x0002;

/// Bit 3, which selects the low bank: bank 0 where it is set, bank 1 where
/// not.
pub const BANK_SWITCH: u16 = 0x0008;

/// Bytes of the high bank, at `$E000`.
pub const HIGH_BANK_SIZE: usize = 0x2000;

/// Bytes of each of the two low banks, at `$D000`.
pub const LOW_BANK_SIZE: usize = 0x1000;

/// First address of the region that the card overlays.
pub const OVERLAY_BASE: u16 = 0xD000;

/// First address of the high bank.
pub const HIGH_BANK_BASE: u16 = 0xE000;

/// Whether an access to soft-switch `switch` asks for writes to reach the
/// RAM.
pub open spec fn enables_write(switch: u16) -> bool {
    switch % 2 == 1
}

/// Whether an access to soft-switch `switch` selects the RAM for reading:
/// its read bit equals its write bit.
pub open spec fn selects_ram(switch: u16) -> bool {
    (switch / 2 % 2 == 1) == enables_write(switch)
}

/// The low bank that an access to soft-switch `switch` picks.
pub open spec fn selected_bank(switch: u16) -> int {
    if switch / 8 % 2 == 1 {
        0
    } else {
        1
    }
}

/// A Language Card, as the contracts see it.
#[verifier::ext_equal]
pub struct LanguageCardView {
    /// The system ROM, which is read while the RAM is not selected.
    pub rom: Seq<u8>,
    pub high_bank: Seq<u8>,
    /// The two low banks.
    pub low_bank: Seq<Seq<u8>>,
    /// Whether the last soft-switch access selected the RAM for reading.
    pub last_write: bool,
    /// Whether writes reach the RAM.
    pub write: bool,
    /// Whether reads come from the RAM.
    pub read: bool,
    /// The low bank in use.
    pub bank: int,
}

impl LanguageCardView {
    /// A card as it is built: the RAM zeroed, the ROM selected, writes
    /// off.
    pub open spec fn initial(rom: Seq<u8>) -> LanguageCardView {
        LanguageCardView {
            rom,
            high_bank: Seq::new(HIGH_BANK_SIZE as nat, |i: int| 0u8),
            low_bank: Seq::new(2, |b: int| Seq::new(LOW_BANK_SIZE as nat, |i: int| 0u8)),
            last_write: false,
            write: false,
            read: false,
            bank: 0,
        }
    }

    /// What holds of every card. The RAM is read only after two accesses
    /// in a row have selected it.
    pub open spec fn wf(self) -> bool {
        &&& self.rom.len() == ROM_SIZE
        &&& self.high_bank.len() == HIGH_BANK_SIZE
        &&& self.low_bank.len() == 2
        &&& self.low_bank[0].len() == LOW_BANK_SIZE
        &&& self.low_bank[1].len() == LOW_BANK_SIZE
        &&& 0 <= self.bank < 2
        &&& self.read ==> self.last_write
    }

    /// The card after a read of soft-switch `switch`. Bit 0 sets the
    /// write flag. An access whose bit 1 equals its bit 0 selects the RAM
    /// for reading, which takes effect once the access before it did so
    /// too; any other access selects the ROM at once. Bit 3 picks the low
    /// bank.
    pub open spec fn read_switch(self, switch: u16) -> LanguageCardView {
        LanguageCardView {
            write: enables_write(switch),
            read: selects_ram(switch) && (self.read || self.last_write),
            last_write: selects_ram(switch),
            bank: selected_bank(switch),
            ..self
        }
    }

    /// The byte at `addr`, in `$D000` to `$FFFF`: of the RAM where it is
    /// selected for reading, else of the ROM.
    pub open spec fn read_language_rom(self, addr: u16) -> u8 {
        if self.read {
            if addr >= HIGH_BANK_BASE {
                self.high_bank[addr - HIGH_BANK_BASE]
            } else {
                self.low_bank[self.bank][addr - OVERLAY_BASE]
            }
        } else {
            self.rom[addr - OVERLAY_BASE]
        }
    }

    /// The card after a write of `val` to `addr`, in `$D000` to `$FFFF`:
    /// the byte goes to the RAM where the write flag is set, and nowhere
    /// else.
    pub open spec fn write_language_rom(self, addr: u16, val: u8) -> LanguageCardView {
        if !self.write {
            self
        } else if addr >= HIGH_BANK_BASE {
            LanguageCardView { high_bank: self.high_bank.update(addr - HIGH_BANK_BASE, val), ..self }
        } else {
            LanguageCardView {
                low_bank: self.low_bank.update(
                    self.bank,
                    self.low_bank[self.bank].update(addr - OVERLAY_BASE, val),
                ),
                ..self
            }
        }
    }
}

/// The Language Card.
pub struct LanguageCard {
    rom: [u8; ROM_SIZE],
    high_bank: [u8; HIGH_BANK_SIZE],
    low_bank: [[u8; LOW_BANK_SIZE]; 2],
    last_write: bool,
    write: bool,
    read: bool,
    bank: usize,
}

impl View for LanguageCard {
    type V = LanguageCardView;

    closed spec fn view(&self) -> LanguageCardView {
        LanguageCardView {
            rom: self.rom@,
            high_bank: self.high_bank@,
            low_bank: Seq::new(2, |b: int| self.low_bank@[b]@),
            last_write: self.last_write,
            write: self.write,
            read: self.read,
            bank: self.bank as int,
        }
    }
}

impl LanguageCard {
    /// A card with its RAM zeroed and the ROM selected.
    pub fn new(rom: [u8; ROM_SIZE]) -> (card: LanguageCard)
        ensures
            card@.wf(),
            card@ == LanguageCardView::initial(rom@),
    {
        let card = LanguageCard {
            rom: rom,
            high_bank: [0u8; HIGH_BANK_SIZE],
            low_bank: [[0u8; LOW_BANK_SIZE]; 2],
            last_write: false,
            write: false,
            read: false,
            bank: 0,
        };
        proof {
            assert(card@.high_bank =~= Seq::new(HIGH_BANK_SIZE as nat, |i: int| 0u8));
            assert(card@.low_bank[0] =~= Seq::new(LOW_BANK_SIZE as nat, |i: int| 0u8));
            assert(card@.low_bank[1] =~= Seq::new(LOW_BANK_SIZE as nat, |i: int| 0u8));
            assert(card@.low_bank =~= Seq::new(
                2,
                |b: int| Seq::new(LOW_BANK_SIZE as nat, |i: int| 0u8),
            ));
        }
        card
    }
}

impl PeripheralCard for LanguageCard {
    open spec fn card_view(&self) -> CardView {
        CardView::Language(self@)
    }

    fn read_switch(&mut self, switch: u16) -> (r: u8) {
        proof {
            lemma_language_switch(switch);
        }
        self.write = switch & WRITE_SWITCH != 0;
        // The RAM is selected where the read bit equals the write bit.
        if ((switch & READ_SWITCH) != 0) == self.write {
            if self.last_write {
                self.read = true;
            }
            self.last_write = true;
        } else {
            self.read = false;
            self.last_write = false;
        }
        if switch & BANK_SWITCH != 0 {
            self.bank = 0;
        } else {
            self.bank = 1;
        }
        0
    }

    fn write_switch(&mut self, switch: u16, val: u8) {
        self.write_switch_without_mm(switch, val);
    }

    fn read_switch_without_mm(&mut self, _switch: u16) -> (r: u8) {
        0
    }

    fn write_switch_without_mm(&mut self, switch: u16, _val: u8) {
        self.read_switch_without_mm(switch);
    }

    /// A Language Card has no ROM of its own and sits in slot 0, which
    /// has no ROM page, so the bus never asks it for one: no call meets
    /// the contract.
    fn read_rom(&mut self, _addr: u16) -> (r: u8) {
        unreached()
    }

    fn read_expansion_rom(&mut self, _addr: u16) -> (r: u8) {
        0
    }

    fn read_language_rom(&mut self, addr: u16) -> (r: u8) {
        if self.read {
            if addr >= HIGH_BANK_BASE {
                self.high_bank[(addr - HIGH_BANK_BASE) as usize]
            } else {
                self.low_bank[self.bank][(addr - OVERLAY_BASE) as usize]
            }
        } else {
            self.rom[(addr - OVERLAY_BASE) as usize]
        }
    }

    fn write_language_rom(&mut self, addr: u16, val: u8) {
        if self.write {
            if addr >= HIGH_BANK_BASE {
                self.high_bank[(addr - HIGH_BANK_BASE) as usize] = val;
            } else {
                self.low_bank[self.bank][(addr - OVERLAY_BASE) as usize] = val;
                proof {
                    let b = self.bank as int;
                    assert(self@.low_bank[b] =~= old(self)@.low_bank[b].update(
                        addr - OVERLAY_BASE,
                        val,
                    ));
                    assert(self@.low_bank =~= old(self)@.low_bank.update(b, self@.low_bank[b]));
                }
            }
        }
    }

    fn is_language_card(&self) -> (b: bool) {
        true
    }
}

/// What is written to the card's RAM is read back from it. A byte written
/// while writes are enabled is read at once where the RAM is selected for
/// reading, and in any case after two accesses in a row that select the
/// RAM, the second of which picks the bank that was written to; whether
/// those accesses leave writes enabled does not matter.
pub proof fn law_written_byte_is_read_back(
    card: LanguageCardView,
    addr: u16,
    val: u8,
    first: u16,
    second: u16,
)
    requires
        card.wf(),
        card.write,
        addr >= OVERLAY_BASE,
        selects_ram(first),
        selects_ram(second),
        selected_bank(second) == card.bank,
    ensures
        card.read ==> card.write_language_rom(addr, val).read_language_rom(addr) == val,
        card.write_language_rom(addr, val).read_switch(first).read_switch(
            second,
        ).read_language_rom(addr) == val,
{
}

/// An access that selects the ROM brings the system ROM back at once,
/// whatever the RAM holds.
pub proof fn law_rom_is_restored(card: LanguageCardView, addr: u16, switch: u16)
    requires
        card.wf(),
        addr >= OVERLAY_BASE,
        !selects_ram(switch),
    ensures
        card.read_switch(switch).read_language_rom(addr) == card.rom[addr - OVERLAY_BASE],
{
}

/// A byte written while writes are disabled changes nothing.
pub proof fn law_write_needs_enable(card: LanguageCardView, addr: u16, val: u8)
    requires
        !card.write,
    ensures
        card.write_language_rom(addr, val) == card,
{
}

} // verus!

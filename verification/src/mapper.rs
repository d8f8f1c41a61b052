//! The bus mapper: RAM, ROM, soft-switches and the slot table.
use vstd::prelude::*;
use vstd::pervasive::unreached;
use crate::bits::lemma_rom_slot;
use crate::bits::lemma_strobe;
use crate::bits::lemma_switch_number;
use crate::bits::lemma_switch_slot;
use crate::peripheral_card::Card;
use crate::peripheral_card::CardView;
use crate::peripheral_card::PeripheralCard;

verus! {

/// Bytes of main RAM, mapped at `$0000`.
pub const RAM_SIZE: usize = 0xC000;

/// Bytes of system ROM, mapped at `$D000`.
pub const ROM_SIZE: usize = 0x3000;

/// Characters in a row of text.
pub const APPLE_II_TEXT_WIDTH: usize = 40;

/// Rows of text on the screen.
pub const APPLE_II_TEXT_HEIGHT: usize = 24;

/// Expansion slots.
pub const SLOTS: usize = 8;

/// The four flags that select what the screen shows.
#[derive(Clone, Copy, Debug, PartialEq, Eq)]
pub struct ScreenState {
    /// Graphics rather than text.
    pub graphics: bool,
    /// The whole screen rather than graphics above four rows of text.
    pub all: bool,
    /// Page 1 rather than page 2.
    pub primary: bool,
    /// Lo-res rather than hi-res graphics.
    pub low_res: bool,
}

impl ScreenState {
    /// The flags after an access to the screen soft-switch at `addr`, in
    /// `$C050` to `$C057`: each pair of addresses sets and clears one flag.
    pub open spec fn switched(self, addr: u16) -> ScreenState {
        if addr == 0xC050 {
            ScreenState { graphics: true, ..self }
        } else if addr == 0xC051 {
            ScreenState { graphics: false, ..self }
        } else if addr == 0xC052 {
            ScreenState { all: true, ..self }
        } else if addr == 0xC053 {
            ScreenState { all: false, ..self }
        } else if addr == 0xC054 {
            ScreenState { primary: true, ..self }
        } else if addr == 0xC055 {
            ScreenState { primary: false, ..self }
        } else if addr == 0xC056 {
            ScreenState { low_res: true, ..self }
        } else if addr == 0xC057 {
            ScreenState { low_res: false, ..self }
        } else {
            self
        }
    }

    /// The flag that the screen soft-switch at `addr` acts on.
    pub open spec fn flag_at(self, addr: u16) -> bool {
        if addr <= 0xC051 {
            self.graphics
        } else if addr <= 0xC053 {
            self.all
        } else if addr <= 0xC055 {
            self.primary
        } else {
            self.low_res
        }
    }
}

/// The slot whose soft-switches hold `addr`, in `$C080` to `$C0FF`.
pub open spec fn switch_slot(addr: u16) -> int {
    (addr - 0xC080) / 16
}

/// The number, among the sixteen of its slot, of the soft-switch at `addr`.
pub open spec fn switch_number(addr: u16) -> u16 {
    (addr % 16) as u16
}

/// The slot whose ROM page holds `addr`, in `$C100` to `$C7FF`.
pub open spec fn rom_slot(addr: u16) -> int {
    (addr - 0xC000) / 256
}

/// The machine on the bus, as the contracts see it.
#[verifier::ext_equal]
pub struct MapperView {
    pub ram: Seq<u8>,
    pub rom: Seq<u8>,
    /// The keyboard latch.
    pub key: u8,
    pub screen: ScreenState,
    /// The slot table.
    pub cards: Seq<Option<CardView>>,
}

impl MapperView {
    /// A machine as it is built: zeroed RAM, the given system ROM, no key
    /// pressed, no cards, and the screen showing page 1 of text.
    pub open spec fn initial(rom: Seq<u8>) -> MapperView {
        MapperView {
            ram: Seq::new(RAM_SIZE as nat, |i: int| 0u8),
            rom,
            key: 0,
            screen: ScreenState { graphics: false, all: true, primary: true, low_res: true },
            cards: Seq::new(SLOTS as nat, |slot: int| None::<CardView>),
        }
    }

    /// What holds of every machine. A Language Card sits in slot 0 or
    /// nowhere.
    pub open spec fn wf(self) -> bool {
        &&& self.ram.len() == RAM_SIZE
        &&& self.rom.len() == ROM_SIZE
        &&& self.cards.len() == SLOTS
        &&& forall|slot: int|
            0 <= slot < SLOTS ==> (#[trigger] self.cards[slot] matches Some(card) ==> card.wf())
        &&& forall|slot: int|
            1 <= slot < SLOTS ==> (#[trigger] self.cards[slot] matches Some(card)
                ==> !card.is_language_card())
    }

    /// Whether a Language Card overlays the system ROM.
    pub open spec fn has_lang_card(self) -> bool {
        self.cards[0] matches Some(card) && card.is_language_card()
    }

    /// The machine with `card` in the place of the card in `slot`.
    pub open spec fn with_card(self, slot: int, card: CardView) -> MapperView {
        MapperView { cards: self.cards.update(slot, Some(card)), ..self }
    }

    /// Whether `addr` can be accessed: a soft-switch of a card must be one
    /// that the card can be asked for.
    pub open spec fn can_access(self, addr: u16) -> bool {
        0xC080 <= addr <= 0xC0FF ==> (self.cards[switch_slot(addr)] matches Some(card)
            ==> card.can_access_switch(switch_number(addr)))
    }

    /// The machine after a read of `addr`, and the byte read.
    pub open spec fn read(self, addr: u16) -> (MapperView, u8) {
        if addr <= 0xBFFF {
            (self, self.ram[addr as int])
        } else if addr == 0xC000 {
            (self, self.key)
        } else if addr == 0xC010 {
            (MapperView { key: (self.key % 128) as u8, ..self }, 0u8)
        } else if 0xC050 <= addr <= 0xC057 {
            (MapperView { screen: self.screen.switched(addr), ..self }, 0u8)
        } else if 0xC080 <= addr <= 0xC0FF {
            match self.cards[switch_slot(addr)] {
                Some(card) => (
                    self.with_card(switch_slot(addr), card.read_switch(switch_number(addr)).0),
                    card.read_switch(switch_number(addr)).1,
                ),
                None => (self, 0xFFu8),
            }
        } else if 0xC100 <= addr <= 0xC7FF {
            match self.cards[rom_slot(addr)] {
                Some(card) => (self, card.read_rom(addr)),
                None => (self, 0xFFu8),
            }
        } else if addr >= 0xD000 {
            if self.has_lang_card() {
                (self, self.cards[0]->0.read_language_rom(addr))
            } else {
                (self, self.rom[addr - 0xD000])
            }
        } else {
            (self, 0u8)
        }
    }

    /// The machine after a write of `val` to `addr`.
    pub open spec fn write(self, addr: u16, val: u8) -> MapperView {
        if addr <= 0xBFFF {
            MapperView { ram: self.ram.update(addr as int, val), ..self }
        } else if addr == 0xC010 {
            MapperView { key: (self.key % 128) as u8, ..self }
        } else if 0xC050 <= addr <= 0xC057 {
            MapperView { screen: self.screen.switched(addr), ..self }
        } else if 0xC080 <= addr <= 0xC0FF {
            match self.cards[switch_slot(addr)] {
                Some(card) => self.with_card(
                    switch_slot(addr),
                    card.write_switch(switch_number(addr), val),
                ),
                None => self,
            }
        } else if addr >= 0xD000 {
            if self.has_lang_card() {
                self.with_card(0, self.cards[0]->0.write_language_rom(addr, val))
            } else {
                self
            }
        } else {
            self
        }
    }
}

/// A machine stays well formed where the card of one slot takes the place
/// of another of its kind, a well-formed card goes into a slot that may
/// hold it, or a slot is emptied.
pub proof fn lemma_slot_change(before: MapperView, after: MapperView, slot: int)
    requires
        before.wf(),
        0 <= slot < SLOTS,
        after.ram.len() == RAM_SIZE,
        after.rom.len() == ROM_SIZE,
        after.cards.len() == SLOTS,
        forall|s: int| 0 <= s < SLOTS && s != slot ==> after.cards[s] == before.cards[s],
        after.cards[slot] matches Some(card) ==> card.wf() && (card.is_language_card() ==> slot
            == 0),
    ensures
        after.wf(),
{
    assert forall|s: int| 0 <= s < SLOTS implies (#[trigger] after.cards[s] matches Some(card)
        ==> card.wf()) by {
        if s != slot {
            assert(after.cards[s] == before.cards[s]);
        }
    }
    assert forall|s: int| 1 <= s < SLOTS implies (#[trigger] after.cards[s] matches Some(card)
        ==> !card.is_language_card()) by {
        if s != slot {
            assert(after.cards[s] == before.cards[s]);
        }
    }
}

/// A byte of RAM is the last value written to it: a write is read back, a
/// read changes nothing, and no access to another address changes the
/// byte.
pub proof fn law_ram_holds_last_write(m: MapperView, addr: u16, val: u8, other: u16)
    requires
        m.wf(),
        addr <= 0xBFFF,
    ensures
        m.write(addr, val).read(addr).1 == val,
        m.read(addr).0 == m,
        m.read(other).0.ram == m.ram,
        other != addr ==> m.write(other, val).ram[addr as int] == m.ram[addr as int],
{
}

/// The soft-switches of an empty slot read `$FF`, and so does its ROM
/// page, which slots 1 to 7 have; the read changes nothing.
pub proof fn law_empty_slot_reads_ff(m: MapperView, slot: int, n: int)
    requires
        m.wf(),
        0 <= slot < SLOTS,
        m.cards[slot] is None,
    ensures
        0 <= n < 16 ==> m.read((0xC080 + slot * 16 + n) as u16) == (m, 0xFFu8),
        1 <= slot && 0 <= n < 256 ==> m.read((0xC000 + slot * 256 + n) as u16) == (m, 0xFFu8),
{
    if 0 <= n < 16 {
        lemma_switch_slot((0xC080 + slot * 16 + n) as u16);
    }
    if 1 <= slot && 0 <= n < 256 {
        lemma_rom_slot((0xC000 + slot * 256 + n) as u16);
    }
}

/// A read of `$C010` leaves the top bit of the keyboard latch clear, and
/// an access to `$C050` to `$C057` leaves the flag that it names set
/// where the address is even and clear where it is odd.
pub proof fn law_strobe_and_screen_switches(m: MapperView, addr: u16)
    ensures
        m.read(0xC010).0.key & 0x80 == 0,
        m.read(0xC010).0.key < 0x80,
        0xC050 <= addr <= 0xC057 ==> m.read(addr).0.screen.flag_at(addr) == (addr % 2 == 0),
        0xC050 <= addr <= 0xC057 ==> m.write(addr, 0).screen.flag_at(addr) == (addr % 2 == 0),
{
    lemma_strobe(m.key);
}

/// The machine on the bus: what the CPU reads and writes.
pub struct Mapper {
    pub ram: [u8; RAM_SIZE],
    pub rom: [u8; ROM_SIZE],
    pub key: u8,
    pub screen: ScreenState,
    pub cards: [Option<Card>; 8],
    pub has_lang_card: bool,
}

impl View for Mapper {
    type V = MapperView;

    open spec fn view(&self) -> MapperView {
        MapperView {
            ram: self.ram@,
            rom: self.rom@,
            key: self.key,
            screen: self.screen,
            cards: Seq::new(
                SLOTS as nat,
                |slot: int|
                    match self.cards@[slot] {
                        Some(card) => Some(card@),
                        None => None,
                    },
            ),
        }
    }
}

impl Mapper {
    /// What holds of every machine: what holds of its view, and that
    /// `has_lang_card` says whether slot 0 holds a Language Card.
    pub open spec fn wf(&self) -> bool {
        &&& self@.wf()
        &&& self.has_lang_card == self@.has_lang_card()
    }

    /// A machine with zeroed RAM, the given system ROM, no key pressed, no
    /// cards, and the screen showing page 1 of text.
    pub fn new(rom: [u8; ROM_SIZE]) -> (mapper: Mapper)
        ensures
            mapper.wf(),
            mapper@ == MapperView::initial(rom@),
    {
        Mapper {
            ram: [0x00u8; RAM_SIZE],
            rom: rom,
            key: 0,
            screen: ScreenState { graphics: false, all: true, primary: true, low_res: true },
            cards: [None, None, None, None, None, None, None, None],
            has_lang_card: false,
        }
    }

    /// Puts `key` into the keyboard latch.
    pub fn set_key(&mut self, key: u8)
        ensures
            final(self)@ == (MapperView { key, ..old(self)@ }),
            final(self).has_lang_card == old(self).has_lang_card,
            old(self).wf() ==> final(self).wf(),
    {
        self.key = key;
    }

    /// Puts `card` into `slot`, in the place of any card there.
    pub fn add_card(&mut self, card: Card, slot: usize)
        requires
            old(self).wf(),
            slot < SLOTS,
            card@.wf(),
            card@.is_language_card() ==> slot == 0,
        ensures
            final(self).wf(),
            final(self)@ == old(self)@.with_card(slot as int, card@),
    {
        if slot == 0 {
            self.has_lang_card = card.is_language_card();
        }
        self.cards[slot] = Some(card);
        proof {
            lemma_slot_change(old(self)@, self@, slot as int);
        }
    }

    /// Empties `slot`.
    pub fn remove_card(&mut self, slot: usize)
        requires
            old(self).wf(),
            slot < SLOTS,
        ensures
            final(self).wf(),
            final(self)@ == (MapperView {
                cards: old(self)@.cards.update(slot as int, None),
                ..old(self)@
            }),
    {
        if slot == 0 {
            self.has_lang_card = false;
        }
        self.cards[slot] = None;
        proof {
            lemma_slot_change(old(self)@, self@, slot as int);
        }
    }

    /// Whether `addr` can be read and written.
    pub fn can_access(&self, addr: u16) -> (b: bool)
        requires
            self.wf(),
        ensures
            b == self@.can_access(addr),
    {
        if 0xC080 <= addr && addr <= 0xC0FF {
            proof {
                lemma_switch_slot(addr);
                lemma_switch_number(addr);
            }
            let slot: usize = (((addr - 0xC000) >> 4) - 8) as usize;
            match &self.cards[slot] {
                Some(card) => {
                    assert(self@.cards[slot as int] == Some(card@));
                    card.can_access_switch(addr & 0xF)
                },
                None => true,
            }
        } else {
            true
        }
    }

    /// Reads the byte at `addr`, with all that the read sets off. The one
    /// read that cannot be made is of the data switch of a disk controller
    /// whose head stands beyond the last track of its buffer: test
    /// `can_access` where that may be.
    pub fn read_without_mm(&mut self, addr: u16) -> (r: u8)
        requires
            old(self).wf(),
            old(self)@.can_access(addr),
        ensures
            final(self).wf(),
            (final(self)@, r) == old(self)@.read(addr),
            addr == 0xC010 ==> final(self)@.key & 0x80 == 0 && final(self)@.key < 0x80,
            0xC050 <= addr <= 0xC057 ==> final(self)@.screen.flag_at(addr) == (addr % 2 == 0),
            0xC080 <= addr <= 0xC0FF && old(self)@.cards[(addr - 0xC080) / 16] is None ==> r
                == 0xFF,
            0xC100 <= addr <= 0xC7FF && old(self)@.cards[(addr - 0xC000) / 256] is None ==> r
                == 0xFF,
            addr <= 0xBFFF ==> final(self)@ == old(self)@,
    {
        let r: u8 = match addr {
            0x0000..=0xBFFF => self.ram[addr as usize],
            0xC000 => self.key,
            0xC010 => {
                proof {
                    lemma_strobe(self.key);
                }
                self.key &= 0x7F;
                0x00
            },
            0xC050 => {
                self.screen.graphics = true;
                0x00
            },
            0xC051 => {
                self.screen.graphics = false;
                0x00
            },
            0xC052 => {
                self.screen.all = true;
                0x00
            },
            0xC053 => {
                self.screen.all = false;
                0x00
            },
            0xC054 => {
                self.screen.primary = true;
                0x00
            },
            0xC055 => {
                self.screen.primary = false;
                0x00
            },
            0xC056 => {
                self.screen.low_res = true;
                0x00
            },
            0xC057 => {
                self.screen.low_res = false;
                0x00
            },
            0xC080..=0xC0FF => {
                proof {
                    lemma_switch_slot(addr);
                    lemma_switch_number(addr);
                }
                let slot: usize = (((addr - 0xC000) >> 4) - 8) as usize;
                match &mut self.cards[slot] {
                    Some(card) => card.read_switch(addr & 0xF),
                    None => 0xFF,
                }
            },
            0xC100..=0xC7FF => {
                proof {
                    lemma_rom_slot(addr);
                }
                let slot: usize = ((addr - 0xC000) >> 8) as usize;
                match &mut self.cards[slot] {
                    Some(card) => card.read_rom(addr),
                    None => 0xFF,
                }
            },
            0xD000..=0xFFFF => {
                if self.has_lang_card {
                    match &mut self.cards[0] {
                        Some(card) => card.read_language_rom(addr),
                        None => unreached(),
                    }
                } else {
                    self.rom[(addr - 0xD000) as usize]
                }
            },
            _ => 0x00,
        };
        proof {
            let slot = if 0xC080 <= addr <= 0xC0FF {
                switch_slot(addr)
            } else {
                0
            };
            lemma_switch_slot(if 0xC080 <= addr <= 0xC0FF { addr } else { 0xC080 });
            lemma_slot_change(old(self)@, self@, slot);
        }
        r
    }

    /// Writes `val` to `addr`, with all that the write sets off. What
    /// cannot be read cannot be written: see `can_access`.
    pub fn write_without_mm(&mut self, addr: u16, val: u8)
        requires
            old(self).wf(),
            old(self)@.can_access(addr),
        ensures
            final(self).wf(),
            final(self)@ == old(self)@.write(addr, val),
            addr == 0xC010 ==> final(self)@.key & 0x80 == 0 && final(self)@.key < 0x80,
            0xC050 <= addr <= 0xC057 ==> final(self)@.screen.flag_at(addr) == (addr % 2 == 0),
    {
        match addr {
            0x0000..=0xBFFF => {
                self.ram[addr as usize] = val;
            },
            0xC010 => {
                proof {
                    lemma_strobe(self.key);
                }
                self.key &= 0x7F;
            },
            0xC050 => {
                self.screen.graphics = true;
            },
            0xC051 => {
                self.screen.graphics = false;
            },
            0xC052 => {
                self.screen.all = true;
            },
            0xC053 => {
                self.screen.all = false;
            },
            0xC054 => {
                self.screen.primary = true;
            },
            0xC055 => {
                self.screen.primary = false;
            },
            0xC056 => {
                self.screen.low_res = true;
            },
            0xC057 => {
                self.screen.low_res = false;
            },
            0xC080..=0xC0FF => {
                proof {
                    lemma_switch_slot(addr);
                    lemma_switch_number(addr);
                }
                let slot: usize = (((addr - 0xC000) >> 4) - 8) as usize;
                match &mut self.cards[slot] {
                    Some(card) => {
                        card.write_switch(addr & 0xF, val);
                    },
                    None => {},
                }
            },
            0xD000..=0xFFFF => {
                if self.has_lang_card {
                    match &mut self.cards[0] {
                        Some(card) => {
                            card.write_language_rom(addr, val);
                        },
                        None => {},
                    }
                }
            },
            _ => {},
        }
        proof {
            let slot = if 0xC080 <= addr <= 0xC0FF {
                switch_slot(addr)
            } else {
                0
            };
            lemma_switch_slot(if 0xC080 <= addr <= 0xC0FF { addr } else { 0xC080 });
            lemma_slot_change(old(self)@, self@, slot);
        }
    }
}

} // verus!

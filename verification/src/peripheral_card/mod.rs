//! The cards of the expansion slots, and what every card can be asked.
use vstd::prelude::*;

pub mod disk;
pub mod language_card;
pub mod nibble;

pub use self::disk::DiskII;
pub use self::language_card::LanguageCard;
use self::disk::DiskView;
use self::language_card::LanguageCardView;
use self::language_card::OVERLAY_BASE;

verus! {

/// A card, as the contracts see it.
#[verifier::ext_equal]
pub enum CardView {
    Language(LanguageCardView),
    Disk(DiskView),
}

impl CardView {
    /// What holds of every card.
    pub open spec fn wf(self) -> bool {
        match self {
            CardView::Language(card) => card.wf(),
            CardView::Disk(card) => card.wf(),
        }
    }

    /// Whether the card overlays the system ROM.
    pub open spec fn is_language_card(self) -> bool {
        self is Language
    }

    /// Whether the card has a ROM of its own.
    pub open spec fn has_rom(self) -> bool {
        self is Disk
    }

    /// Whether soft-switch `switch` can be accessed: a disk controller
    /// cannot stream from a head that stands beyond its last track.
    pub open spec fn can_access_switch(self, switch: u16) -> bool {
        match self {
            CardView::Language(_) => true,
            CardView::Disk(card) => card.can_access_switch(switch),
        }
    }

    /// The card after a read of soft-switch `switch`, and the byte read.
    pub open spec fn read_switch(self, switch: u16) -> (CardView, u8) {
        match self {
            CardView::Language(card) => (CardView::Language(card.read_switch(switch)), 0u8),
            CardView::Disk(card) => (
                CardView::Disk(card.read_switch(switch).0),
                card.read_switch(switch).1,
            ),
        }
    }

    /// The card after a write to soft-switch `switch`. A disk controller
    /// takes it as it takes a read; a Language Card takes no notice.
    pub open spec fn write_switch(self, switch: u16, val: u8) -> CardView {
        match self {
            CardView::Language(_) => self,
            CardView::Disk(card) => CardView::Disk(card.read_switch(switch).0),
        }
    }

    /// The card after a look at soft-switch `switch`, and the byte seen.
    /// A look sets no flag and moves no head; a drive that has come to the
    /// end of a sector still goes on to the next.
    pub open spec fn read_switch_without_mm(self, switch: u16) -> (CardView, u8) {
        match self {
            CardView::Language(_) => (self, 0u8),
            CardView::Disk(card) => (
                CardView::Disk(card.read_switch_without_mm(switch).0),
                card.read_switch_without_mm(switch).1,
            ),
        }
    }

    /// The byte of the card's ROM that answers to `addr`.
    pub open spec fn read_rom(self, addr: u16) -> u8 {
        disk::rom_byte(addr)
    }

    /// The byte at `addr` of the region that a Language Card overlays.
    pub open spec fn read_language_rom(self, addr: u16) -> u8 {
        self->Language_0.read_language_rom(addr)
    }

    /// The card after a write to `addr` of the region that a Language Card
    /// overlays.
    pub open spec fn write_language_rom(self, addr: u16, val: u8) -> CardView {
        CardView::Language(self->Language_0.write_language_rom(addr, val))
    }
}

/// What the bus asks of the card in a slot.
pub trait PeripheralCard {
    /// The card as the contracts see it.
    spec fn card_view(&self) -> CardView;

    /// Reads one of the card's sixteen soft-switches.
    fn read_switch(&mut self, switch: u16) -> (r: u8)
        requires
            old(self).card_view().wf(),
            old(self).card_view().can_access_switch(switch),
        ensures
            final(self).card_view().wf(),
            (final(self).card_view(), r) == old(self).card_view().read_switch(switch),
    ;

    /// Writes to one of the card's sixteen soft-switches.
    fn write_switch(&mut self, switch: u16, val: u8)
        requires
            old(self).card_view().wf(),
            old(self).card_view().can_access_switch(switch),
        ensures
            final(self).card_view().wf(),
            final(self).card_view() == old(self).card_view().write_switch(switch, val),
    ;

    /// Looks at a soft-switch without the effects of a read.
    fn read_switch_without_mm(&mut self, switch: u16) -> (r: u8)
        requires
            old(self).card_view().wf(),
            old(self).card_view().can_access_switch(switch),
        ensures
            final(self).card_view().wf(),
            (final(self).card_view(), r) == old(self).card_view().read_switch_without_mm(switch),
    ;

    /// Touches a soft-switch without the effects of a write: the card
    /// takes it as a look.
    fn write_switch_without_mm(&mut self, switch: u16, val: u8)
        requires
            old(self).card_view().wf(),
            old(self).card_view().can_access_switch(switch),
        ensures
            final(self).card_view().wf(),
            final(self).card_view() == old(self).card_view().read_switch_without_mm(switch).0,
    ;

    /// Reads the card's ROM, which the bus maps to the page of its slot.
    /// Only for a card that has one.
    fn read_rom(&mut self, addr: u16) -> (r: u8)
        requires
            old(self).card_view().wf(),
            old(self).card_view().has_rom(),
        ensures
            final(self).card_view() == old(self).card_view(),
            r == old(self).card_view().read_rom(addr),
    ;

    /// Reads the card's expansion ROM. Neither card has one: the byte is
    /// zero.
    fn read_expansion_rom(&mut self, addr: u16) -> (r: u8)
        requires
            old(self).card_view().wf(),
        ensures
            final(self).card_view() == old(self).card_view(),
            r == 0,
    ;

    /// Reads a byte of `$D000` to `$FFFF` through the card. Only for a
    /// Language Card.
    fn read_language_rom(&mut self, addr: u16) -> (r: u8)
        requires
            old(self).card_view().wf(),
            old(self).card_view().is_language_card(),
            addr >= OVERLAY_BASE,
        ensures
            final(self).card_view() == old(self).card_view(),
            r == old(self).card_view().read_language_rom(addr),
    ;

    /// Writes a byte of `$D000` to `$FFFF` through the card. Only for a
    /// Language Card.
    fn write_language_rom(&mut self, addr: u16, val: u8)
        requires
            old(self).card_view().wf(),
            old(self).card_view().is_language_card(),
            addr >= OVERLAY_BASE,
        ensures
            final(self).card_view().wf(),
            final(self).card_view() == old(self).card_view().write_language_rom(addr, val),
    ;

    /// Whether the card overlays the system ROM.
    fn is_language_card(&self) -> (b: bool)
        ensures
            b == self.card_view().is_language_card(),
    ;
}

/// The card in a slot: one of the two kinds that there are.
pub enum Card {
    Language(LanguageCard),
    Disk(DiskII),
}

impl View for Card {
    type V = CardView;

    open spec fn view(&self) -> CardView {
        match *self {
            Card::Language(card) => CardView::Language(card@),
            Card::Disk(card) => CardView::Disk(card@),
        }
    }
}

impl Card {
    /// Whether soft-switch `switch` of the card can be accessed.
    pub fn can_access_switch(&self, switch: u16) -> (b: bool)
        requires
            self@.wf(),
        ensures
            b == self@.can_access_switch(switch),
    {
        match self {
            Card::Language(_) => true,
            Card::Disk(card) => card.can_access_switch(switch),
        }
    }
}

impl PeripheralCard for Card {
    open spec fn card_view(&self) -> CardView {
        self@
    }

    fn read_switch(&mut self, switch: u16) -> (r: u8) {
        match self {
            Card::Language(card) => card.read_switch(switch),
            Card::Disk(card) => card.read_switch(switch),
        }
    }

    fn write_switch(&mut self, switch: u16, val: u8) {
        match self {
            Card::Language(card) => card.write_switch(switch, val),
            Card::Disk(card) => card.write_switch(switch, val),
        }
    }

    fn read_switch_without_mm(&mut self, switch: u16) -> (r: u8) {
        match self {
            Card::Language(card) => card.read_switch_without_mm(switch),
            Card::Disk(card) => card.read_switch_without_mm(switch),
        }
    }

    fn write_switch_without_mm(&mut self, switch: u16, val: u8) {
        match self {
            Card::Language(card) => card.write_switch_without_mm(switch, val),
            Card::Disk(card) => card.write_switch_without_mm(switch, val),
        }
    }

    fn read_rom(&mut self, addr: u16) -> (r: u8) {
        match self {
            Card::Language(card) => card.read_rom(addr),
            Card::Disk(card) => card.read_rom(addr),
        }
    }

    fn read_expansion_rom(&mut self, addr: u16) -> (r: u8) {
        match self {
            Card::Language(card) => card.read_expansion_rom(addr),
            Card::Disk(card) => card.read_expansion_rom(addr),
        }
    }

    fn read_language_rom(&mut self, addr: u16) -> (r: u8) {
        match self {
            Card::Language(card) => card.read_language_rom(addr),
            Card::Disk(card) => card.read_language_rom(addr),
        }
    }

    fn write_language_rom(&mut self, addr: u16, val: u8) {
        match self {
            Card::Language(card) => card.write_language_rom(addr, val),
            Card::Disk(card) => card.write_language_rom(addr, val),
        }
    }

    fn is_language_card(&self) -> (b: bool) {
        match self {
            Card::Language(card) => card.is_language_card(),
            Card::Disk(card) => card.is_language_card(),
        }
    }
}

} // verus!

//! The machine as a whole: how it is put together, and what its frame
//! loop decides.
use vstd::prelude::*;
use crate::input::KeyboardInput;
use crate::mapper::Mapper;
use crate::mapper::MapperView;
use crate::mapper::ROM_SIZE;
use crate::peripheral_card::disk::DiskView;
use crate::peripheral_card::language_card::LanguageCardView;
use crate::peripheral_card::Card;
use crate::peripheral_card::CardView;
use crate::peripheral_card::DiskII;
use crate::peripheral_card::LanguageCard;

verus! {

/// CPU cycles in a frame: a sixtieth of a second of a 1 MHz clock.
pub const CYCLES_PER_FRAME: u64 = 16666;

/// Nanoseconds in a frame.
pub const FRAME_NANOS: u64 = 16666666;

/// The slot of the Language Card.
pub const LANGUAGE_CARD_SLOT: usize = 0;

/// The slot of the disk controller.
pub const DISK_SLOT: usize = 6;

/// What the frame loop does about an input.
#[derive(Clone, Copy, Debug, PartialEq, Eq)]
pub enum InputAction {
    /// Leave the loop.
    Quit,
    /// Reset the CPU.
    Reset,
    /// Put the byte into the keyboard latch.
    SetKey(u8),
    /// Nothing outside the loop's own state.
    Nothing,
}

/// What the frame loop does with the time that a frame has left.
#[derive(Clone, Copy, Debug, PartialEq, Eq)]
pub enum Pace {
    /// Sleep for this many nanoseconds.
    Sleep(u64),
    /// The frame took this many nanoseconds too long: warn, and go on.
    Overrun(u64),
}

/// The state of the frame loop.
#[derive(Clone, Copy, Debug, PartialEq, Eq)]
pub struct AppleII {
    /// While paused, the screen is drawn but the CPU stands still and
    /// takes neither keys nor a reset.
    pub paused: bool,
}

/// What the loop does about `input` when it is or is not paused.
pub open spec fn action_for(paused: bool, input: KeyboardInput) -> InputAction {
    match input {
        KeyboardInput::Quit => InputAction::Quit,
        KeyboardInput::Reset => if paused {
            InputAction::Nothing
        } else {
            InputAction::Reset
        },
        KeyboardInput::Key(val) => if paused {
            InputAction::Nothing
        } else {
            InputAction::SetKey(val)
        },
        KeyboardInput::Pause => InputAction::Nothing,
    }
}

/// What the loop does once a frame's work took `elapsed` nanoseconds.
pub open spec fn pace_for(elapsed: u64) -> Pace {
    if elapsed > FRAME_NANOS {
        Pace::Overrun((elapsed - FRAME_NANOS) as u64)
    } else {
        Pace::Sleep((FRAME_NANOS - elapsed) as u64)
    }
}

/// The machine as it is switched on: the system ROM, a Language Card in
/// slot 0 and a disk controller in slot 6, with the disk of raw image
/// `disk` in its first drive.
pub open spec fn machine(rom: Seq<u8>, disk: Seq<u8>) -> MapperView {
    MapperView::initial(rom).with_card(
        LANGUAGE_CARD_SLOT as int,
        CardView::Language(LanguageCardView::initial(rom)),
    ).with_card(DISK_SLOT as int, CardView::Disk(DiskView::initial().with_disk(0, disk)))
}

impl AppleII {
    /// A loop that is not paused.
    pub fn new() -> (apple: AppleII)
        ensures
            !apple.paused,
    {
        AppleII { paused: false }
    }

    /// Takes one input from the keyboard and says what to do about it.
    /// A pause input flips the pause; nothing else changes it.
    pub fn handle_input(&mut self, input: KeyboardInput) -> (action: InputAction)
        ensures
            action == action_for(old(self).paused, input),
            final(self).paused == (old(self).paused != (input is Pause)),
    {
        match input {
            KeyboardInput::Quit => InputAction::Quit,
            KeyboardInput::Reset => if !self.paused {
                InputAction::Reset
            } else {
                InputAction::Nothing
            },
            KeyboardInput::Key(val) => if !self.paused {
                InputAction::SetKey(val)
            } else {
                InputAction::Nothing
            },
            KeyboardInput::Pause => {
                self.paused = !self.paused;
                InputAction::Nothing
            },
        }
    }

    /// How many cycles the CPU runs in this frame: a frame's worth, or
    /// none while paused.
    pub fn cycles_to_run(&self) -> (cycles: u64)
        ensures
            cycles == if self.paused { 0 } else { CYCLES_PER_FRAME },
    {
        if !self.paused {
            CYCLES_PER_FRAME
        } else {
            0
        }
    }
}

/// What to do with the rest of a frame whose work took `elapsed`
/// nanoseconds.
pub fn pace(elapsed: u64) -> (p: Pace)
    ensures
        p == pace_for(elapsed),
{
    if elapsed > FRAME_NANOS {
        Pace::Overrun(elapsed - FRAME_NANOS)
    } else {
        Pace::Sleep(FRAME_NANOS - elapsed)
    }
}

/// The system ROM from the bytes of a ROM file, which must be of the
/// ROM's size exactly.
pub fn load_rom(bytes: &[u8]) -> (rom: Option<[u8; ROM_SIZE]>)
    ensures
        rom is Some <==> bytes@.len() == ROM_SIZE,
        rom matches Some(image) ==> image@ == bytes@,
{
    if bytes.len() != ROM_SIZE {
        return None;
    }
    let mut image: [u8; ROM_SIZE] = [0u8; ROM_SIZE];
    for i in 0..ROM_SIZE
        invariant
            bytes@.len() == ROM_SIZE,
            forall|j: int| 0 <= j < i ==> image@[j] == bytes@[j],
    {
        image[i] = bytes[i];
    }
    assert(image@ =~= bytes@);
    Some(image)
}

/// Puts the machine together: the bus with the system ROM `rom`, a
/// Language Card in slot 0 and a disk controller in slot 6, with the disk
/// of raw image `disk` in its first drive.
pub fn build_machine(rom: [u8; ROM_SIZE], disk: &[u8]) -> (map: Mapper)
    ensures
        map.wf(),
        map@ == machine(rom@, disk@),
{
    let mut dc = DiskII::new();
    dc.set_first_disk(disk);
    let lc = LanguageCard::new(rom);
    let mut map = Mapper::new(rom);
    map.add_card(Card::Language(lc), LANGUAGE_CARD_SLOT);
    map.add_card(Card::Disk(dc), DISK_SLOT);
    map
}

} // verus!

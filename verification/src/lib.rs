//! The logic of an Apple ][: the memory-mapped bus, the Language Card and
//! Disk ][ peripheral cards, the video scan-out and the keyboard
//! map, each with a contract over a mathematical model of the machine.
pub mod appleii;
pub mod bits;
pub mod input;
pub mod mapper;
pub mod monitor;
pub mod peripheral_card;

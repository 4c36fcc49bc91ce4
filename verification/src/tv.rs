//! The television: its kinds and which show is on at a given time.
use vstd::prelude::*;

use crate::calendar::{valid_date, DateValue, SECONDS_PER_DAY};
use crate::rng::{seeded_usize, usize_draw};

verus! {

/// The kinds of television.
#[derive(Clone, Copy, Debug, PartialEq, Eq, Structural)]
pub enum TvKind {
    CRT,
    LCD,
}

/// Minutes each show runs.
pub const SHOW_RUN_TIME: u8 = 15;

/// Number of shows.
pub const SHOW_COUNT: usize = 4;

/// The seed of the show on at that time: the bytes day, month, hour and the quarter of
/// the hour (in 15-minute slots), read as a big-endian number.
pub open spec fn show_seed(day: u8, month: u8, hour: u8, slot: u8) -> int {
    day * 16777216 + month * 65536 + hour * 256 + slot
}

/// The seed of the show on at `day`, `month`, `hour`, `minute`.
pub fn show_seed_for(day: u8, month: u8, hour: u8, minute: u8) -> (r: u64)
    ensures
        r == show_seed(day, month, hour, minute / SHOW_RUN_TIME),
{
    let slot: u8 = minute / SHOW_RUN_TIME;
    (day as u64) * 16777216 + (month as u64) * 65536 + (hour as u64) * 256 + (slot as u64)
}

/// Which of the shows is on at date `date`, `time` seconds after midnight: drawn by a
/// generator seeded with the seed of that quarter hour (day, month, hour, quarter), so it
/// stays the same for the whole quarter hour.
pub fn get_show_for_time(date: &DateValue, time: u32) -> (r: usize)
    requires
        valid_date(*date),
        time < SECONDS_PER_DAY,
    ensures
        r < SHOW_COUNT,
        r == usize_draw(
            usize::BITS,
            show_seed(
                date.day as u8,
                date.month as u8,
                (time / 3600) as u8,
                ((time % 3600) / 60) as u8 / SHOW_RUN_TIME,
            ) as u64,
            0,
            SHOW_COUNT,
        ),
{
    let day: u8 = date.day as u8;
    let month: u8 = date.month as u8;
    let hour: u8 = (time / 3600) as u8;
    let minute: u8 = ((time % 3600) / 60) as u8;
    let seed = show_seed_for(day, month, hour, minute);
    let (show, _next) = seeded_usize(usize::BITS, seed, 0, SHOW_COUNT);
    show
}

} // verus!

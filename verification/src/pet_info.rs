//! Paging through the pet information screen and the records of past pets.
use vstd::prelude::*;

verus! {

/// A page of the pet information screen.
#[derive(Clone, Copy, Debug, PartialEq, Eq, Structural)]
pub enum PetInfoPage {
    Main,
    LifeStages,
    Parents,
}

/// The number of pages.
pub const PAGE_COUNT: usize = 3;

/// The position of a page in the page order.
pub open spec fn page_index(p: PetInfoPage) -> int {
    match p {
        PetInfoPage::Main => 0,
        PetInfoPage::LifeStages => 1,
        PetInfoPage::Parents => 2,
    }
}

/// The page at position `i` of the page order.
pub open spec fn page_at(i: int) -> PetInfoPage {
    if i == 0 {
        PetInfoPage::Main
    } else if i == 1 {
        PetInfoPage::LifeStages
    } else {
        PetInfoPage::Parents
    }
}

/// The page after a frame on page `p`: none (back home) when left is pressed on the main page;
/// otherwise right turns to the next page and then left to the one before, both wrapping.
pub open spec fn page_after(p: PetInfoPage, left: bool, right: bool) -> Option<PetInfoPage> {
    if p == PetInfoPage::Main && left {
        None
    } else {
        let a = if right {
            page_at((page_index(p) + 1) % 3)
        } else {
            p
        };
        let b = if left {
            page_at((page_index(a) + 2) % 3)
        } else {
            a
        };
        Some(b)
    }
}

fn page_from_index(i: usize) -> (r: PetInfoPage)
    requires
        i < PAGE_COUNT,
    ensures
        r == page_at(i as int),
{
    if i == 0 {
        PetInfoPage::Main
    } else if i == 1 {
        PetInfoPage::LifeStages
    } else {
        PetInfoPage::Parents
    }
}

impl PetInfoPage {
    /// The position of the page in the page order.
    pub fn index(&self) -> (r: usize)
        ensures
            r == page_index(*self),
            r < PAGE_COUNT,
    {
        match self {
            PetInfoPage::Main => 0,
            PetInfoPage::LifeStages => 1,
            PetInfoPage::Parents => 2,
        }
    }

    /// One frame of the pet information screen with the buttons pressed; none means back to
    /// the home screen.
    pub fn tick(&self, left: bool, right: bool) -> (r: Option<PetInfoPage>)
        ensures
            r == page_after(*self, left, right),
    {
        if matches!(self, PetInfoPage::Main) && left {
            return None;
        }
        let mut page = *self;
        if right {
            let mut index = page.index() + 1;
            if index >= PAGE_COUNT {
                index = 0;
            }
            page = page_from_index(index);
        }
        if left {
            let index = page.index();
            let back = if index == 0 {
                PAGE_COUNT - 1
            } else {
                index - 1
            };
            page = page_from_index(back);
        }
        Some(page)
    }
}

/// The record shown after a frame with record `selected` of `count` records shown: left goes
/// back (home, none, before the first) and right forward (to the first, past the last).
pub open spec fn record_after(selected: int, left: bool, right: bool, count: int) -> Option<int> {
    let change = (if left {
        -1int
    } else {
        0
    }) + (if right {
        1int
    } else {
        0
    });
    let u = selected + change;
    if u < 0 {
        None
    } else if u >= count {
        Some(0)
    } else {
        Some(u)
    }
}

/// One frame of the records screen: the record shown next, or none for the home screen.
pub fn records_tick(selected: usize, left: bool, right: bool, count: usize) -> (r: Option<usize>)
    requires
        selected < usize::MAX,
    ensures
        match record_after(selected as int, left, right, count as int) {
            Some(u) => r == Some(u as usize),
            None => r is None,
        },
{
    if left && !right && selected == 0 {
        return None;
    }
    let mut updated: usize = selected;
    if right && !left {
        updated = updated + 1;
    } else if left && !right {
        updated = updated - 1;
    }
    if updated >= count {
        updated = 0;
    }
    Some(updated)
}

/// Turning a page forward and back, or back and forward, returns to the page (except that
/// left on the main page goes home).
pub proof fn lemma_page_round_trip(p: PetInfoPage)
    ensures
        page_after(p, true, true) == if p == PetInfoPage::Main {
            None
        } else {
            Some(p)
        },
        p != PetInfoPage::Parents ==> page_after(page_after(p, false, true).unwrap(), true, false)
            == Some(p),
{
}

} // verus!

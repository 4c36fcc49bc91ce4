//! The shop screen: opening hours, the shop keeper, and buying the items for sale.
use vstd::prelude::*;

verus! {

/// How long the sign shakes after a purchase or a refused one, in milliseconds.
pub const SIGN_SHAKE_MS: u64 = 500;

/// What the shop screen shows: the closed sign, the shop keeper, or the item for sale at an
/// index.
#[derive(Clone, Copy, Debug, PartialEq, Eq, Structural)]
pub enum ShopState {
    Closed,
    ShopKeeper,
    Selected(usize),
}

/// The sounds the shop screen asks for, in the order asked.
#[derive(Clone, Copy, Debug, PartialEq, Eq, Structural)]
pub enum ShopSound {
    /// The closed-shop music.
    ClosedMusic,
    /// The shop music.
    ShopMusic,
    /// Silence the music.
    Clear,
    /// The purchase chime.
    BuyChime,
    /// The refusal sound.
    Error,
}

/// The buttons pressed in a frame.
#[derive(Clone, Copy, Debug, PartialEq, Eq, Structural)]
pub struct ShopInput {
    pub left: bool,
    pub right: bool,
    pub middle: bool,
    /// Any button at all.
    pub any: bool,
}

/// What the game knows of the item on show: its price, whether only one can be owned, and
/// whether one is owned.
#[derive(Clone, Copy, Debug, PartialEq, Eq, Structural)]
pub struct ShopItemInfo {
    pub cost: u64,
    pub unique: bool,
    pub owned: bool,
}

/// What a frame of the shop screen asks of the game.
pub struct ShopTick {
    /// Go back to the home screen.
    pub go_home: bool,
    /// The item on show was bought: add it to the inventory (its price is taken from the
    /// money).
    pub bought: bool,
    pub sounds: Vec<ShopSound>,
}

/// Whether the time of day `now` lies strictly inside the opening hours `open..close` (all
/// in seconds after midnight) on a trading day.
pub open spec fn shop_open(now: int, open: int, close: int, non_trading_day: bool) -> bool {
    open < now < close && !non_trading_day
}

/// Whether the item can be bought with `money`: it costs less than that, and it is not a
/// unique item already owned.
pub open spec fn can_buy(money: int, item: ShopItemInfo) -> bool {
    money > item.cost && !(item.unique && item.owned)
}

/// The state after the cursor moves from item `selected` among `count` items: past either
/// end it goes back to the shop keeper.
pub open spec fn selection_after(selected: int, left: bool, right: bool, count: int) -> ShopState {
    let s = selected + (if right {
        1int
    } else {
        0
    }) - (if left {
        1int
    } else {
        0
    });
    if s < 0 || s >= count {
        ShopState::ShopKeeper
    } else {
        ShopState::Selected(s as usize)
    }
}

/// Moving the cursor over the items either lands on an item for sale or goes back to the shop
/// keeper; a right step and a left step in one frame leave it where it was.
pub proof fn lemma_selection_stays_on_items(selected: int, left: bool, right: bool, count: int)
    requires
        0 <= selected < count,
    ensures
        selection_after(selected, left, right, count) matches ShopState::Selected(j) ==> 0 <= j
            < count,
        selection_after(selected, true, true, count) == ShopState::Selected(selected as usize),
{
}

/// The shop screen.
pub struct ShopScene {
    state: ShopState,
    for_sale: Vec<u16>,
    sign_shake_ms: u64,
}

impl ShopScene {
    pub closed spec fn shop_state(self) -> ShopState {
        self.state
    }

    /// The items for sale, in the order shown.
    pub closed spec fn items(self) -> Seq<u16> {
        self.for_sale@
    }

    /// How long the sign still shakes, in milliseconds.
    pub closed spec fn shake(self) -> int {
        self.sign_shake_ms as int
    }

    /// The shop keeper, with nothing for sale yet.
    pub fn new() -> (r: Self)
        ensures
            r.shop_state() == ShopState::ShopKeeper,
            r.items() == Seq::<u16>::empty(),
            r.shake() == 0,
    {
        ShopScene { state: ShopState::ShopKeeper, for_sale: Vec::new(), sign_shake_ms: 0 }
    }

    /// Sets up the screen with the items for sale; the shop is closed before its opening
    /// time, after its closing time, and on days without trade.
    pub fn setup(&mut self, for_sale: Vec<u16>, now: u32, open: u32, close: u32, non_trading_day: bool)
        ensures
            final(self).items() == for_sale@,
            final(self).shake() == old(self).shake(),
            final(self).shop_state() == if now < open || now > close || non_trading_day {
                ShopState::Closed
            } else {
                old(self).shop_state()
            },
    {
        self.for_sale = for_sale;
        if now < open || now > close || non_trading_day {
            self.state = ShopState::Closed;
        }
    }

    /// The number of items for sale.
    pub fn item_count(&self) -> (r: usize)
        ensures
            r == self.items().len(),
    {
        self.for_sale.len()
    }

    /// The item on show, if the cursor is on one.
    pub fn selected_item(&self) -> (r: Option<u16>)
        ensures
            r == (match self.shop_state() {
                ShopState::Selected(i) => if i < self.items().len() {
                    Some(self.items()[i as int])
                } else {
                    None
                },
                _ => None,
            }),
    {
        match self.state {
            ShopState::Selected(i) => {
                if i < self.for_sale.len() {
                    Some(self.for_sale[i])
                } else {
                    None
                }
            },
            _ => None,
        }
    }

    /// One frame of `delta` milliseconds. `now`, `open` and `close` are times of day in
    /// seconds, `playing` tells whether music is playing, `item` describes the item on show
    /// and `money` is what the player has.
    ///
    /// Closed, any button goes home; otherwise the shop opens within its hours, and the
    /// closed-shop music starts when nothing plays. At the shop keeper, the shop music starts
    /// when nothing plays, right silences it and shows the first item, and left goes home.
    /// On an item, the middle button buys it when the player can, or is refused; then right
    /// and left move through the items, and past either end back to the shop keeper.
    pub fn tick(
        &mut self,
        delta: u64,
        input: ShopInput,
        now: u32,
        open: u32,
        close: u32,
        non_trading_day: bool,
        playing: bool,
        item: ShopItemInfo,
        money: &mut u64,
    ) -> (r: ShopTick)
        ensures
            old(self).shop_state() is Selected && input.middle && *old(money) > item.cost
                && !item.unique ==> r.bought && *final(money) == *old(money) - item.cost
                && r.sounds@ == seq![ShopSound::BuyChime],
            old(self).shop_state() is Selected && input.middle && *old(money) > item.cost
                && !item.owned ==> r.bought && *final(money) == *old(money) - item.cost,
            old(self).shop_state() is Selected && input.middle && item.unique && item.owned
                ==> !r.bought && *final(money) == *old(money) && r.sounds@ == seq![
                ShopSound::Error],
            old(self).shop_state() is Selected && *old(money) <= item.cost ==> !r.bought
                && *final(money) == *old(money),
            final(self).items() == old(self).items(),
            match old(self).shop_state() {
                ShopState::Closed => if input.any {
                    &&& r.go_home && !r.bought && r.sounds@ == Seq::<ShopSound>::empty()
                    &&& final(self).shop_state() == ShopState::Closed
                    &&& *final(money) == *old(money)
                    &&& final(self).shake() == (if old(self).shake() >= delta {
                        old(self).shake() - delta
                    } else {
                        0
                    })
                } else {
                    &&& !r.go_home && !r.bought
                    &&& r.sounds@ == if playing {
                        Seq::<ShopSound>::empty()
                    } else {
                        seq![ShopSound::ClosedMusic]
                    }
                    &&& final(self).shop_state() == if shop_open(
                        now as int,
                        open as int,
                        close as int,
                        non_trading_day,
                    ) {
                        ShopState::ShopKeeper
                    } else {
                        ShopState::Closed
                    }
                    &&& *final(money) == *old(money)
                    &&& final(self).shake() == (if old(self).shake() >= delta {
                        old(self).shake() - delta
                    } else {
                        0
                    })
                },
                ShopState::ShopKeeper => {
                    &&& r.go_home == input.left
                    &&& !r.bought
                    &&& r.sounds@ == (if playing {
                        Seq::<ShopSound>::empty()
                    } else {
                        seq![ShopSound::ShopMusic]
                    }) + (if input.right {
                        seq![ShopSound::Clear]
                    } else {
                        Seq::<ShopSound>::empty()
                    })
                    &&& final(self).shop_state() == if input.right {
                        ShopState::Selected(0)
                    } else {
                        ShopState::ShopKeeper
                    }
                    &&& *final(money) == *old(money)
                    &&& final(self).shake() == (if old(self).shake() >= delta {
                        old(self).shake() - delta
                    } else {
                        0
                    })
                },
                ShopState::Selected(i) => {
                    let buys = input.middle && can_buy(*old(money) as int, item);
                    &&& !r.go_home
                    &&& r.bought == buys
                    &&& r.sounds@ == if buys {
                        seq![ShopSound::BuyChime]
                    } else if input.middle {
                        seq![ShopSound::Error]
                    } else {
                        Seq::<ShopSound>::empty()
                    }
                    &&& *final(money) == if buys {
                        *old(money) - item.cost
                    } else {
                        *old(money) as int
                    }
                    &&& final(self).shake() == if input.middle {
                        SIGN_SHAKE_MS as int
                    } else if old(self).shake() >= delta {
                        old(self).shake() - delta
                    } else {
                        0
                    }
                    &&& final(self).shop_state() == selection_after(
                        i as int,
                        input.left,
                        input.right,
                        old(self).items().len() as int,
                    )
                },
            },
    {
        self.sign_shake_ms = if self.sign_shake_ms >= delta {
            self.sign_shake_ms - delta
        } else {
            0
        };
        let mut sounds: Vec<ShopSound> = Vec::new();
        match self.state {
            ShopState::Closed => {
                if input.any {
                    return ShopTick { go_home: true, bought: false, sounds };
                }
                if open < now && now < close && !non_trading_day {
                    self.state = ShopState::ShopKeeper;
                }
                if !playing {
                    sounds.push(ShopSound::ClosedMusic);
                }
                ShopTick { go_home: false, bought: false, sounds }
            },
            ShopState::ShopKeeper => {
                if !playing {
                    sounds.push(ShopSound::ShopMusic);
                }
                if input.right {
                    sounds.push(ShopSound::Clear);
                    self.state = ShopState::Selected(0);
                }
                proof {
                    let music = if playing {
                        Seq::<ShopSound>::empty()
                    } else {
                        seq![ShopSound::ShopMusic]
                    };
                    let clear = if input.right {
                        seq![ShopSound::Clear]
                    } else {
                        Seq::<ShopSound>::empty()
                    };
                    assert(sounds@ == music + clear);
                }
                ShopTick { go_home: input.left, bought: false, sounds }
            },
            ShopState::Selected(selected) => {
                let mut bought = false;
                if input.middle {
                    if *money > item.cost && !(item.unique && item.owned) {
                        *money = *money - item.cost;
                        sounds.push(ShopSound::BuyChime);
                        bought = true;
                    } else {
                        sounds.push(ShopSound::Error);
                    }
                    self.sign_shake_ms = SIGN_SHAKE_MS;
                }
                let count = self.for_sale.len();
                let mut next: i128 = selected as i128;
                if input.right {
                    next = next + 1;
                }
                if input.left {
                    next = next - 1;
                }
                if next < 0 || next >= count as i128 {
                    self.state = ShopState::ShopKeeper;
                } else {
                    self.state = ShopState::Selected(next as usize);
                }
                ShopTick { go_home: false, bought, sounds }
            },
        }
    }
}

/// An item can be bought exactly when the money is more than its cost, and it is not a
/// unique item already owned: a second copy of an item that is not unique can always be
/// bought, and a unique item once.
pub proof fn lemma_buying_rule(money: int, item: ShopItemInfo)
    ensures
        !item.unique ==> (can_buy(money, item) <==> money > item.cost),
        !item.owned ==> (can_buy(money, item) <==> money > item.cost),
        item.unique && item.owned ==> !can_buy(money, item),
        can_buy(money, item) ==> money > item.cost,
{
}

/// The shop is closed on a day without trade and outside its hours, and open strictly inside
/// them on a trading day.
pub proof fn lemma_opening_hours(now: int, open: int, close: int, non_trading_day: bool)
    ensures
        non_trading_day ==> !shop_open(now, open, close, non_trading_day),
        now <= open || now >= close ==> !shop_open(now, open, close, non_trading_day),
        open < now < close && !non_trading_day ==> shop_open(now, open, close, non_trading_day),
{
}

/// A right step moves to the next item, or back to the shop keeper from the last; a left step
/// to the item before, or back to the shop keeper from the first.
pub proof fn lemma_selection_steps(selected: int, count: int)
    requires
        0 <= selected < count,
    ensures
        selected + 1 < count ==> selection_after(selected, false, true, count)
            == ShopState::Selected((selected + 1) as usize),
        selected + 1 == count ==> selection_after(selected, false, true, count)
            == ShopState::ShopKeeper,
        selected > 0 ==> selection_after(selected, true, false, count) == ShopState::Selected(
            (selected - 1) as usize,
        ),
        selected == 0 ==> selection_after(selected, true, false, count) == ShopState::ShopKeeper,
        selection_after(selected, false, false, count) == ShopState::Selected(selected as usize),
{
}

} // verus!

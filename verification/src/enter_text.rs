//! The text entry screen: a row of character slots and a submit position, edited one
//! character at a time from a fixed alphabet.
use vstd::prelude::*;

use crate::pet::PetDefinitionId;

verus! {

/// Number of characters that can be entered.
pub const ENTERABLE_COUNT: usize = 38;

/// The longest text the screen edits.
pub const MAX_TEXT_LEN: usize = 31;

/// The `i`-th enterable character (as an ASCII byte), in the order `a` to `z`, `0` to `9`,
/// `$`, space.
pub open spec fn enterable_at(i: int) -> u8 {
    if i < 26 {
        (97 + i) as u8
    } else if i < 36 {
        (48 + i - 26) as u8
    } else if i == 36 {
        36u8
    } else {
        32u8
    }
}

/// Whether byte `c` is an enterable character.
pub open spec fn is_enterable(c: u8) -> bool {
    (97 <= c <= 122) || (48 <= c <= 57) || c == 36 || c == 32
}

/// The position of enterable character `c` in the enterable order.
pub open spec fn enterable_position(c: u8) -> int {
    if 97 <= c <= 122 {
        c - 97
    } else if 48 <= c <= 57 {
        c - 48 + 26
    } else if c == 36 {
        36
    } else {
        37
    }
}

/// The `i`-th enterable character.
pub fn enterable_char(i: usize) -> (r: u8)
    requires
        i < ENTERABLE_COUNT,
    ensures
        r == enterable_at(i as int),
        is_enterable(r),
        enterable_position(r) == i,
{
    if i < 26 {
        97 + i as u8
    } else if i < 36 {
        48 + (i - 26) as u8
    } else if i == 36 {
        36
    } else {
        32
    }
}

/// The position of `c` in the enterable order (its first occurrence), if it is enterable.
pub fn find_enterable(c: u8) -> (r: Option<usize>)
    ensures
        is_enterable(c) ==> r == Some(enterable_position(c) as usize),
        !is_enterable(c) ==> r is None,
{
    if 97 <= c && c <= 122 {
        Some((c - 97) as usize)
    } else if 48 <= c && c <= 57 {
        Some((c - 48 + 26) as usize)
    } else if c == 36 {
        Some(36)
    } else if c == 32 {
        Some(37)
    } else {
        None
    }
}

/// A copy of `v`.
fn copy_bytes(v: &Vec<u8>) -> (r: Vec<u8>)
    ensures
        r@ == v@,
{
    let mut out: Vec<u8> = Vec::new();
    let mut i: usize = 0;
    while i < v.len()
        invariant
            i <= v.len(),
            out@ == v@.subrange(0, i as int),
        decreases v.len() - i,
    {
        out.push(v[i]);
        i = i + 1;
    }
    assert(out@ == v@);
    out
}

/// Whether the cursor moves between the slots or picks the character of a slot.
#[derive(Clone, Copy, Debug, PartialEq, Eq, Structural)]
pub enum EnterTextState {
    SelectIndex,
    SelectChar,
}

/// What a tick of the text entry screen hands back: nothing yet, or the text entered.
#[derive(Clone, Debug, PartialEq, Eq)]
pub enum EnterTextAction {
    Stay,
    Done(Vec<u8>),
}

/// The slot the cursor is on after a tick among `max_len` slots and the submit position
/// `max_len`: left moves back (from the first slot to submit), otherwise right moves on
/// (from submit to the first slot); it does not stay on submit while the text is not valid.
pub open spec fn index_after(sel: int, max_len: int, left: bool, right: bool, valid: bool) -> int {
    let u = if left {
        if sel == 0 {
            max_len
        } else {
            sel - 1
        }
    } else if right {
        (sel + 1) % (max_len + 1)
    } else {
        sel
    };
    if u == max_len && !valid {
        0
    } else {
        u
    }
}

/// The character position after a tick that picks a character: left moves back (from the
/// first to the last), then right moves on (from the last to the first).
pub open spec fn char_after(ci: int, left: bool, right: bool) -> int {
    let a = if left {
        if ci == 0 {
            ENTERABLE_COUNT - 1
        } else {
            ci - 1
        }
    } else {
        ci
    };
    if right {
        (a + 1) % (ENTERABLE_COUNT as int)
    } else {
        a
    }
}

/// The character position picking starts at for a slot holding `c`: `a` for a blank slot.
pub open spec fn start_char(c: u8) -> int {
    if c == 32 {
        0
    } else {
        enterable_position(c)
    }
}

/// One step back and one step forward through the characters returns to the character
/// picking started at, and so does one step forward and one back.
pub proof fn lemma_char_step_inverse(ci: int)
    requires
        0 <= ci < ENTERABLE_COUNT,
    ensures
        char_after(char_after(ci, true, false), false, true) == ci,
        char_after(char_after(ci, false, true), true, false) == ci,
        char_after(ci, true, true) == ci,
{
}

/// The text entry screen.
pub struct EnterTextScene {
    state: EnterTextState,
    display_text: String,
    text: Vec<u8>,
    max_len: usize,
    selected_index: usize,
    char_index: usize,
    show_pet: Option<PetDefinitionId>,
}

impl EnterTextScene {
    #[verifier::type_invariant]
    spec fn wf(self) -> bool {
        &&& self.max_len <= MAX_TEXT_LEN
        &&& self.text.len() == self.max_len
        &&& forall|i: int| 0 <= i < self.text.len() ==> is_enterable(#[trigger] self.text[i])
        &&& self.selected_index <= self.max_len
        &&& self.char_index < ENTERABLE_COUNT
        &&& self.state == EnterTextState::SelectChar ==> self.selected_index < self.max_len
    }

    pub closed spec fn entry_state(self) -> EnterTextState {
        self.state
    }

    /// The text as entered so far, one ASCII byte per slot.
    pub closed spec fn entered(self) -> Seq<u8> {
        self.text@
    }

    pub closed spec fn slots(self) -> int {
        self.max_len as int
    }

    /// The slot the cursor is on; the number of slots stands for submit.
    pub closed spec fn slot(self) -> int {
        self.selected_index as int
    }

    pub closed spec fn char_position(self) -> int {
        self.char_index as int
    }

    pub closed spec fn title(self) -> Seq<char> {
        self.display_text@
    }

    pub closed spec fn pet(self) -> Option<PetDefinitionId> {
        self.show_pet
    }

    /// The text entered so far; every slot holds an enterable character.
    pub fn text(&self) -> (r: &Vec<u8>)
        ensures
            r@ == self.entered(),
            r.len() == self.slots(),
            forall|i: int| 0 <= i < r.len() ==> is_enterable(#[trigger] r@[i]),
    {
        proof {
            use_type_invariant(self);
        }
        &self.text
    }

    /// A screen of `max_len` blank slots (at most `MAX_TEXT_LEN`), with the cursor on the
    /// first one.
    pub fn new(max_len: usize, display_text: String) -> (r: Self)
        ensures
            r.entry_state() == EnterTextState::SelectIndex,
            r.slots() == if max_len <= MAX_TEXT_LEN {
                max_len as int
            } else {
                MAX_TEXT_LEN as int
            },
            r.entered() == Seq::new(r.slots() as nat, |i: int| 32u8),
            r.slot() == 0,
            r.char_position() == 0,
            r.title() == display_text@,
            r.pet() is None,
    {
        let len: usize = if max_len <= MAX_TEXT_LEN {
            max_len
        } else {
            MAX_TEXT_LEN
        };
        let mut text: Vec<u8> = Vec::new();
        let mut i: usize = 0;
        while i < len
            invariant
                i <= len,
                len <= MAX_TEXT_LEN,
                text@ == Seq::new(i as nat, |j: int| 32u8),
            decreases len - i,
        {
            text.push(32u8);
            i = i + 1;
        }
        EnterTextScene {
            state: EnterTextState::SelectIndex,
            display_text,
            text,
            max_len: len,
            selected_index: 0,
            char_index: 0,
            show_pet: None,
        }
    }

    /// The same screen showing the pet of definition `pet_def_id`.
    pub fn with_show_pet(self, pet_def_id: PetDefinitionId) -> (r: Self)
        ensures
            r.pet() == Some(pet_def_id),
            r.entry_state() == self.entry_state(),
            r.entered() == self.entered(),
            r.slots() == self.slots(),
            r.slot() == self.slot(),
            r.char_position() == self.char_position(),
            r.title() == self.title(),
    {
        proof {
            use_type_invariant(&self);
        }
        EnterTextScene { show_pet: Some(pet_def_id), ..self }
    }

    /// One frame of the screen. Moving between slots, left and right move the cursor and the
    /// middle button hands back the text on the submit position or starts picking the
    /// character of the slot; `text_valid` tells whether the text entered so far is accepted,
    /// and the cursor does not stay on submit when it is not. Picking a character, left and
    /// right step through the characters and the middle button puts the character in the slot.
    pub fn tick(&mut self, left: bool, right: bool, middle: bool, text_valid: bool) -> (r:
        EnterTextAction)
        ensures
            final(self).slots() == old(self).slots(),
            final(self).title() == old(self).title(),
            final(self).pet() == old(self).pet(),
            old(self).entry_state() == EnterTextState::SelectIndex ==> {
                let s = index_after(old(self).slot(), old(self).slots(), left, right, text_valid);
                &&& final(self).slot() == s
                &&& final(self).entered() == old(self).entered()
                &&& if middle && s == old(self).slots() {
                    &&& r matches EnterTextAction::Done(t) && t@ == old(self).entered()
                    &&& final(self).entry_state() == EnterTextState::SelectIndex
                    &&& final(self).char_position() == old(self).char_position()
                } else if middle {
                    &&& r == EnterTextAction::Stay
                    &&& final(self).entry_state() == EnterTextState::SelectChar
                    &&& final(self).char_position() == start_char(old(self).entered()[s])
                } else {
                    &&& r == EnterTextAction::Stay
                    &&& final(self).entry_state() == EnterTextState::SelectIndex
                    &&& final(self).char_position() == old(self).char_position()
                }
            },
            old(self).entry_state() == EnterTextState::SelectChar ==> {
                let c = char_after(old(self).char_position(), left, right);
                &&& r == EnterTextAction::Stay
                &&& final(self).slot() == old(self).slot()
                &&& final(self).char_position() == c
                &&& if middle {
                    &&& final(self).entered() == old(self).entered().update(
                        old(self).slot(),
                        enterable_at(c),
                    )
                    &&& final(self).entry_state() == EnterTextState::SelectIndex
                } else {
                    &&& final(self).entered() == old(self).entered()
                    &&& final(self).entry_state() == EnterTextState::SelectChar
                }
            },
    {
        proof {
            use_type_invariant(&*self);
        }
        match self.state {
            EnterTextState::SelectIndex => {
                let mut updated = self.selected_index;
                if left {
                    updated = if updated == 0 {
                        self.max_len
                    } else {
                        updated - 1
                    };
                } else if right {
                    updated = (updated + 1) % (self.max_len + 1);
                }
                if updated == self.max_len && !text_valid {
                    updated = 0;
                }
                self.selected_index = updated;
                if middle {
                    if self.selected_index == self.max_len {
                        return EnterTextAction::Done(copy_bytes(&self.text));
                    } else {
                        let mut c = self.text[self.selected_index];
                        if c == 32 {
                            c = 97;
                        }
                        assert(is_enterable(self.text@[self.selected_index as int]));
                        self.char_index = find_enterable(c).unwrap();
                        self.state = EnterTextState::SelectChar;
                    }
                }
                EnterTextAction::Stay
            },
            EnterTextState::SelectChar => {
                let mut updated = self.char_index;
                if left {
                    updated = if updated == 0 {
                        ENTERABLE_COUNT - 1
                    } else {
                        updated - 1
                    };
                }
                if right {
                    updated = (updated + 1) % ENTERABLE_COUNT;
                }
                self.char_index = updated;
                if middle {
                    let c = enterable_char(self.char_index);
                    let mut text = copy_bytes(&self.text);
                    text.set(self.selected_index, c);
                    self.text = text;
                    self.state = EnterTextState::SelectIndex;
                }
                EnterTextAction::Stay
            },
        }
    }
}

} // verus!

//! The 16-key keypad: which logical keys the host currently reports as
//! pressed, and the queue the blocking key-wait opcode consumes from.

use vstd::prelude::*;

verus! {

/// One of the 16 logical CHIP-8 keys.
#[derive(Clone, Copy, PartialEq, Eq, Structural, Debug)]
pub enum ChipKeyCode {
    ONE,
    TWO,
    THREE,
    FOUR,
    FIVE,
    SIX,
    SEVEN,
    EIGHT,
    NINE,
    ZERO,
    A,
    B,
    C,
    D,
    E,
    F,
}

/// The hexadecimal value a key stands for.
pub open spec fn key_val(k: ChipKeyCode) -> u8 {
    match k {
        ChipKeyCode::ZERO => 0x0,
        ChipKeyCode::ONE => 0x1,
        ChipKeyCode::TWO => 0x2,
        ChipKeyCode::THREE => 0x3,
        ChipKeyCode::FOUR => 0x4,
        ChipKeyCode::FIVE => 0x5,
        ChipKeyCode::SIX => 0x6,
        ChipKeyCode::SEVEN => 0x7,
        ChipKeyCode::EIGHT => 0x8,
        ChipKeyCode::NINE => 0x9,
        ChipKeyCode::A => 0xA,
        ChipKeyCode::B => 0xB,
        ChipKeyCode::C => 0xC,
        ChipKeyCode::D => 0xD,
        ChipKeyCode::E => 0xE,
        ChipKeyCode::F => 0xF,
    }
}

/// Whether some key in `events` has the value `num`.
pub open spec fn key_down(events: Seq<ChipKeyCode>, num: u8) -> bool {
    exists|i: int| 0 <= i < events.len() && #[trigger] key_val(events[i]) == num
}

/// The hexadecimal value of a key, as executable code.
pub fn key_value(k: &ChipKeyCode) -> (r: u8)
    ensures
        r == key_val(*k),
{
    match k {
        ChipKeyCode::ZERO => 0x0,
        ChipKeyCode::ONE => 0x1,
        ChipKeyCode::TWO => 0x2,
        ChipKeyCode::THREE => 0x3,
        ChipKeyCode::FOUR => 0x4,
        ChipKeyCode::FIVE => 0x5,
        ChipKeyCode::SIX => 0x6,
        ChipKeyCode::SEVEN => 0x7,
        ChipKeyCode::EIGHT => 0x8,
        ChipKeyCode::NINE => 0x9,
        ChipKeyCode::A => 0xA,
        ChipKeyCode::B => 0xB,
        ChipKeyCode::C => 0xC,
        ChipKeyCode::D => 0xD,
        ChipKeyCode::E => 0xE,
        ChipKeyCode::F => 0xF,
    }
}

/// The keys the host reported with its latest poll, oldest first.
pub struct Keypad {
    pub events: Vec<ChipKeyCode>,
}

impl Keypad {
    /// A keypad with no key reported.
    pub fn new() -> (r: Self)
        ensures
            r.events@.len() == 0,
    {
        Keypad { events: Vec::new() }
    }

    /// Whether a key with value `num` is currently reported as pressed.
    pub fn is_pressed(&self, num: u8) -> (r: bool)
        ensures
            r == key_down(self.events@, num),
    {
        let mut i: usize = 0;
        while i < self.events.len()
            invariant
                i <= self.events@.len(),
                forall|j: int| 0 <= j < i ==> #[trigger] key_val(self.events@[j]) != num,
            decreases self.events@.len() - i,
        {
            if key_value(&self.events[i]) == num {
                return true;
            }
            i = i + 1;
        }
        false
    }

    /// Take the most recently reported key and return its value.
    pub fn grab_key(&mut self) -> (r: u8)
        requires
            old(self).events@.len() > 0,
        ensures
            r == key_val(old(self).events@.last()),
            final(self).events@ == old(self).events@.drop_last(),
    {
        match self.events.pop() {
            Option::Some(k) => key_value(&k),
            Option::None => unreached(),
        }
    }

    /// Replace the reported keys with the host's latest poll.
    pub fn update_events(&mut self, keys: Vec<ChipKeyCode>)
        ensures
            final(self).events@ == keys@,
    {
        self.events = keys;
    }
}

} // verus!

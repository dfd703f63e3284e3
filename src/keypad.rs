//! The sixteen-key input latch and the keyboard layout that feeds it.

use vstd::prelude::*;

verus! {

/// Pressed (`true`) or released state of keys `0x0` to `0xF`.
pub struct Keypad {
    pub keys: [bool; 16],
}

impl View for Keypad {
    type V = Seq<bool>;

    open spec fn view(&self) -> Seq<bool> {
        self.keys@
    }
}

/// The lowest pressed key from `k` on, if any.
pub open spec fn lowest_pressed_from(keys: Seq<bool>, k: int) -> Option<u8>
    decreases 16 - k,
{
    if k >= 16 || k < 0 {
        None
    } else if keys[k] {
        Some(k as u8)
    } else {
        lowest_pressed_from(keys, k + 1)
    }
}

/// The lowest pressed key, if any.
pub open spec fn lowest_pressed(keys: Seq<bool>) -> Option<u8> {
    lowest_pressed_from(keys, 0)
}

/// `lowest_pressed_from` finds exactly the least pressed key at or above `k`.
pub proof fn lemma_lowest_pressed_from(keys: Seq<bool>, k: int)
    requires
        0 <= k <= 16,
    ensures
        match lowest_pressed_from(keys, k) {
            Some(p) => k <= p < 16 && keys[p as int] && forall|j: int| k <= j < p ==> !keys[j],
            None => forall|j: int| k <= j < 16 ==> !keys[j],
        },
    decreases 16 - k,
{
    if k < 16 && !keys[k] {
        lemma_lowest_pressed_from(keys, k + 1);
    }
}

/// The key index that each keyboard character stands for: the left four
/// columns of the keyboard, rows `1 2 3 4`, `q w e r`, `a s d f`,
/// `z x c v`, carry the keypad rows `1 2 3 C`, `4 5 6 D`, `7 8 9 E`,
/// `A 0 B F`.
pub open spec fn layout(c: char) -> Option<u8> {
    if c == '1' { Some(0x1) }
    else if c == '2' { Some(0x2) }
    else if c == '3' { Some(0x3) }
    else if c == '4' { Some(0xC) }
    else if c == 'q' { Some(0x4) }
    else if c == 'w' { Some(0x5) }
    else if c == 'e' { Some(0x6) }
    else if c == 'r' { Some(0xD) }
    else if c == 'a' { Some(0x7) }
    else if c == 's' { Some(0x8) }
    else if c == 'd' { Some(0x9) }
    else if c == 'f' { Some(0xE) }
    else if c == 'z' { Some(0xA) }
    else if c == 'x' { Some(0x0) }
    else if c == 'c' { Some(0xB) }
    else if c == 'v' { Some(0xF) }
    else { None }
}

/// The keypad key that keyboard character `c` stands for, if any.
pub fn key_for_char(c: char) -> (k: Option<u8>)
    ensures
        k == layout(c),
        k matches Some(i) ==> i < 16,
{
    match c {
        '1' => Some(0x1),
        '2' => Some(0x2),
        '3' => Some(0x3),
        '4' => Some(0xC),
        'q' => Some(0x4),
        'w' => Some(0x5),
        'e' => Some(0x6),
        'r' => Some(0xD),
        'a' => Some(0x7),
        's' => Some(0x8),
        'd' => Some(0x9),
        'f' => Some(0xE),
        'z' => Some(0xA),
        'x' => Some(0x0),
        'c' => Some(0xB),
        'v' => Some(0xF),
        _ => None,
    }
}

impl Keypad {
    /// A keypad with every key released.
    pub fn new() -> (p: Keypad)
        ensures
            p@ == Seq::new(16, |i: int| false),
    {
        let p = Keypad { keys: [false; 16] };
        assert(p@ =~= Seq::new(16, |i: int| false));
        p
    }

    /// Records key `k` as pressed or released.
    pub fn set(&mut self, k: u8, pressed: bool)
        requires
            k < 16,
        ensures
            final(self)@ == old(self)@.update(k as int, pressed),
    {
        self.keys[k as usize] = pressed;
    }

    /// Whether key `k` is pressed.
    pub fn is_pressed(&self, k: u8) -> (pressed: bool)
        requires
            k < 16,
        ensures
            pressed == self@[k as int],
    {
        self.keys[k as usize]
    }

    /// The lowest pressed key, scanning `0x0` to `0xF`, or `None` when no
    /// key is pressed.
    pub fn first_pressed(&self) -> (r: Option<u8>)
        ensures
            r == lowest_pressed(self@),
            match r {
                Some(k) => k < 16 && self@[k as int] && forall|j: int| 0 <= j < k ==> !self@[j],
                None => forall|j: int| 0 <= j < 16 ==> !self@[j],
            },
    {
        proof {
            lemma_lowest_pressed_from(self@, 0);
        }
        let mut k: u8 = 0;
        while k < 16
            invariant
                k <= 16,
                lowest_pressed(self@) == lowest_pressed_from(self@, k as int),
                forall|j: int| 0 <= j < k ==> !self@[j],
            decreases 16 - k,
        {
            if self.keys[k as usize] {
                return Some(k);
            }
            k = k + 1;
        }
        None
    }
}

} // verus!

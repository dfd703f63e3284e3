//! Display tints for lit pixels.

use vstd::prelude::*;
use vstd::string::StringSliceAdditionalSpecFns;

verus! {

/// The colour in which lit pixels are shown.
#[derive(Clone, Copy, Debug, PartialEq, Eq, Structural)]
pub enum Color {
    Purple,
    Green,
    Red,
    Blue,
}

/// The `0xRRGGBB` value of each tint.
pub open spec fn rgb_of(c: Color) -> u32 {
    match c {
        Color::Purple => 0xaf12e8,
        Color::Blue => 0x0000ff,
        Color::Green => 0x008000,
        Color::Red => 0xff0000,
    }
}

/// The UTF-8 bytes of the name that selects each tint (ASCII codes of
/// "purple", "green", "red" and "blue").
pub open spec fn name_bytes(c: Color) -> Seq<u8> {
    match c {
        Color::Purple => seq![112u8, 117u8, 114u8, 112u8, 108u8, 101u8],
        Color::Green => seq![103u8, 114u8, 101u8, 101u8, 110u8],
        Color::Red => seq![114u8, 101u8, 100u8],
        Color::Blue => seq![98u8, 108u8, 117u8, 101u8],
    }
}

/// The tint named by `bytes`; any other text selects purple.
pub open spec fn color_named(bytes: Seq<u8>) -> Color {
    if bytes == name_bytes(Color::Green) {
        Color::Green
    } else if bytes == name_bytes(Color::Red) {
        Color::Red
    } else if bytes == name_bytes(Color::Blue) {
        Color::Blue
    } else {
        Color::Purple
    }
}

/// Whether `bytes` holds exactly the bytes of `name`.
fn bytes_equal(bytes: &[u8], name: &[u8]) -> (r: bool)
    ensures
        r == (bytes@ == name@),
{
    if bytes.len() != name.len() {
        return false;
    }
    let mut i: usize = 0;
    while i < bytes.len()
        invariant
            bytes@.len() == name@.len(),
            i <= bytes@.len(),
            bytes@.subrange(0, i as int) == name@.subrange(0, i as int),
        decreases bytes@.len() - i,
    {
        if bytes[i] != name[i] {
            assert(bytes@[i as int] != name@[i as int]);
            return false;
        }
        assert(bytes@.subrange(0, i + 1) =~= bytes@.subrange(0, i as int).push(bytes@[i as int]));
        assert(name@.subrange(0, i + 1) =~= name@.subrange(0, i as int).push(name@[i as int]));
        i = i + 1;
    }
    assert(bytes@ =~= bytes@.subrange(0, i as int));
    assert(name@ =~= name@.subrange(0, i as int));
    true
}

impl Color {
    /// The tint named `s` (`"purple"`, `"green"`, `"red"` or `"blue"`);
    /// any other name selects purple.
    pub fn from_name(s: &str) -> (r: Color)
        ensures
            r == color_named(s.spec_bytes()),
    {
        let bytes = s.as_bytes();
        if bytes_equal(bytes, &[103u8, 114u8, 101u8, 101u8, 110u8]) {
            Color::Green
        } else if bytes_equal(bytes, &[114u8, 101u8, 100u8]) {
            Color::Red
        } else if bytes_equal(bytes, &[98u8, 108u8, 117u8, 101u8]) {
            Color::Blue
        } else {
            Color::Purple
        }
    }

    /// The `0xRRGGBB` value in which lit pixels are shown.
    pub fn hex_color(&self) -> (r: u32)
        ensures
            r == rgb_of(*self),
    {
        match self {
            Color::Purple => 0xaf12e8,
            Color::Blue => 0x0000ff,
            Color::Green => 0x008000,
            Color::Red => 0xff0000,
        }
    }
}

impl std::str::FromStr for Color {
    type Err = std::string::ParseError;

    fn from_str(s: &str) -> Result<Color, std::string::ParseError> {
        Ok(Color::from_name(s))
    }
}

} // verus!

//! What a front end has to settle before it starts a machine.

use vstd::prelude::*;

verus! {

/// Ticks of the timer clock per second.
pub const TICK_RATE: u32 = 60;

/// The clock speed to run at for a request of `hz` instructions per
/// second. The speed has to be a whole number of instructions per tick of
/// the 60 Hz clock, or instructions and timers drift apart: any other
/// request, and a negative one, is turned down.
pub open spec fn clock_speed_of(hz: i32) -> Option<usize> {
    if hz >= 0 && hz % 60 == 0 {
        Some(hz as usize)
    } else {
        None
    }
}

/// The clock speed to run at for a request of `hz` instructions per
/// second, or `None` if the request is turned down.
pub fn clock_speed(hz: i32) -> (speed: Option<usize>)
    ensures
        speed == clock_speed_of(hz),
{
    if hz < 0 {
        return None;
    }
    let speed: u32 = hz as u32;
    if speed % TICK_RATE == 0 {
        Some(speed as usize)
    } else {
        None
    }
}

/// What `read_color::rgb_maybe_a` reads from the characters of a text: red,
/// green and blue, and an alpha if the text goes on with one; `None` if
/// the text does not start with a colour.
pub uninterp spec fn rgb_maybe_a_of(text: Seq<char>) -> Option<(Seq<u8>, Option<u8>)>;

/// Reads a colour from `text` with `read_color::rgb_maybe_a`, which takes
/// hexadecimal digits from the start of the text and looks at nothing but
/// the text. The contract gives what it returns a name and says no more.
#[verifier::external_body]
fn read_rgb_maybe_a(text: &str) -> (parsed: Option<([u8; 3], Option<u8>)>)
    ensures
        match parsed {
            Some((rgb, alpha)) => rgb_maybe_a_of(text@) == Some((rgb@, alpha)),
            None => rgb_maybe_a_of(text@) is None,
        },
{
    read_color::rgb_maybe_a(&mut text.chars())
}

/// The colour for a parsed colour option: red, green and blue as parsed,
/// with the parsed alpha or, where none was given, fully opaque. An option
/// that did not parse gives `fallback`.
pub open spec fn colour_of(parsed: Option<(Seq<u8>, Option<u8>)>, fallback: Seq<u8>) -> Seq<u8> {
    match parsed {
        Some((rgb, Some(alpha))) => seq![rgb[0], rgb[1], rgb[2], alpha],
        Some((rgb, None)) => seq![rgb[0], rgb[1], rgb[2], 255u8],
        None => fallback,
    }
}

/// The view of a parsed colour option.
pub open spec fn parsed_view(parsed: Option<([u8; 3], Option<u8>)>) -> Option<
    (Seq<u8>, Option<u8>),
> {
    match parsed {
        Some((rgb, alpha)) => Some((rgb@, alpha)),
        None => None,
    }
}

/// The colour for a parsed colour option.
pub fn colour(parsed: Option<([u8; 3], Option<u8>)>, fallback: [u8; 4]) -> (rgba: [u8; 4])
    ensures
        rgba@ == colour_of(parsed_view(parsed), fallback@),
{
    match parsed {
        Some((rgb, a)) => {
            let alpha: u8 = match a {
                Some(alpha) => alpha,
                None => 255,
            };
            let rgba: [u8; 4] = [rgb[0], rgb[1], rgb[2], alpha];
            assert(rgba@ =~= colour_of(parsed_view(parsed), fallback@));
            rgba
        },
        None => fallback,
    }
}

/// The colour that a colour option names: `text` is read as hexadecimal
/// red, green and blue with an alpha that may be left out, and a text that
/// cannot be read so gives `fallback`.
pub fn colour_from_text(text: &str, fallback: [u8; 4]) -> (rgba: [u8; 4])
    ensures
        rgba@ == colour_of(rgb_maybe_a_of(text@), fallback@),
{
    colour(read_rgb_maybe_a(text), fallback)
}

} // verus!

//! The status LED: a hue that walks around the color wheel, one step per frame.
use vstd::prelude::*;

verus! {

/// Hue steps per frame.
pub const SPEED: u16 = 1;

/// Number of hues on the wheel.
pub const HUES: u16 = 1536;

/// The RGB color of `hue`: the wheel has six segments of 256 hues, going
/// red, yellow, green, cyan, blue, magenta and back to red.
pub open spec fn spec_color_wheel(hue: u16) -> (u8, u8, u8) {
    let x = (hue % 256) as u8;
    let segment = hue / 256;
    if segment == 0 {
        (255, x, 0)
    } else if segment == 1 {
        ((255 - x) as u8, 255, 0)
    } else if segment == 2 {
        (0, 255, x)
    } else if segment == 3 {
        (0, (255 - x) as u8, 255)
    } else if segment == 4 {
        (x, 0, 255)
    } else {
        (255, 0, (255 - x) as u8)
    }
}

/// Converts a hue value (0-1535) to RGB values (0-255).
pub fn color_wheel(hue: u16) -> (r: (u8, u8, u8))
    ensures
        r == spec_color_wheel(hue),
{
    let x = (hue & 0xFF) as u8;
    assert(hue & 0xFFu16 == hue % 256 && hue >> 8u16 == hue / 256) by (bit_vector);
    match hue >> 8 {
        0 => (255, x, 0),
        1 => (255 - x, 255, 0),
        2 => (0, 255, x),
        3 => (0, 255 - x, 255),
        4 => (x, 0, 255),
        _ => (255, 0, 255 - x),
    }
}

/// One frame of the LED: the duty cycles (out of 255) of the red, green and
/// blue channels for `hue`, and the hue of the next frame.
pub fn blinky_step(hue: u16) -> (r: ((u8, u8, u8), u16))
    requires
        hue <= u16::MAX - SPEED,
    ensures
        r.0 == spec_color_wheel(hue),
        r.1 == (hue + SPEED) % (HUES as int),
{
    let rgb = color_wheel(hue);
    (rgb, (hue + SPEED) % HUES)
}

/// Two channel values that differ by at most one.
pub open spec fn adjacent(a: u8, b: u8) -> bool {
    a <= b + 1 && b <= a + 1
}

/// The wheel is continuous and closed: each channel of the next hue differs
/// from the current one by at most one, and the last hue (1535) is as red as
/// the first.
pub proof fn lemma_wheel_continuous(hue: u16)
    requires
        hue < HUES - 1,
    ensures
        adjacent(spec_color_wheel(hue).0, spec_color_wheel((hue + 1) as u16).0),
        adjacent(spec_color_wheel(hue).1, spec_color_wheel((hue + 1) as u16).1),
        adjacent(spec_color_wheel(hue).2, spec_color_wheel((hue + 1) as u16).2),
        spec_color_wheel(0) == (255u8, 0u8, 0u8),
        spec_color_wheel((HUES - 1) as u16) == (255u8, 0u8, 0u8),
{
    let n = (hue + 1) as u16;
    assert(hue % 256 < 255 ==> n / 256 == hue / 256 && n % 256 == hue % 256 + 1);
    assert(hue % 256 == 255 ==> n / 256 == hue / 256 + 1 && n % 256 == 0);
}

/// The wheel starts at red and passes yellow, green, cyan, blue and magenta
/// every 256 hues; in each segment one channel moves linearly while the
/// others hold: from red, green rises; from yellow, red falls; from green,
/// blue rises; from cyan, green falls; from blue, red rises; from magenta,
/// blue falls.
pub proof fn lemma_wheel_segments(hue: u16)
    requires
        hue < HUES,
    ensures
        spec_color_wheel(256) == (255u8, 255u8, 0u8),
        spec_color_wheel(512) == (0u8, 255u8, 0u8),
        spec_color_wheel(768) == (0u8, 255u8, 255u8),
        spec_color_wheel(1024) == (0u8, 0u8, 255u8),
        spec_color_wheel(1280) == (255u8, 0u8, 255u8),
        hue < 256 ==> spec_color_wheel(hue) == (255u8, hue as u8, 0u8),
        256 <= hue < 512 ==> spec_color_wheel(hue) == ((255 - (hue - 256)) as u8, 255u8, 0u8),
        512 <= hue < 768 ==> spec_color_wheel(hue) == (0u8, 255u8, (hue - 512) as u8),
        768 <= hue < 1024 ==> spec_color_wheel(hue) == (0u8, (255 - (hue - 768)) as u8, 255u8),
        1024 <= hue < 1280 ==> spec_color_wheel(hue) == ((hue - 1024) as u8, 0u8, 255u8),
        1280 <= hue ==> spec_color_wheel(hue) == (255u8, 0u8, (255 - (hue - 1280)) as u8),
{
}

/// Every hue of the wheel is a fully saturated color: one channel is fully
/// on and one is off.
pub proof fn lemma_color_saturated(hue: u16)
    requires
        hue < HUES,
    ensures
        ({
            let (r, g, b) = spec_color_wheel(hue);
            (r == 255 || g == 255 || b == 255) && (r == 0 || g == 0 || b == 0)
        }),
{
}

} // verus!

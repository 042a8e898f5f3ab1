//! The demonstration picture: a colour gradient over the whole screen, a
//! white crosshair through the centre, and coloured corner markers.
use vstd::prelude::*;

verus! {

/// Colour of the crosshair and of the centre marker.
pub const CROSSHAIR_COLOR: u32 = 0x00ff_ffff;

/// Red, green and blue channels of the gradient at `(x, y)` on a
/// `width` x `height` screen: red grows with `x`, green with `y`, blue with
/// `x + y`, each scaled to 0..=255.
pub open spec fn gradient_channels(x: u32, y: u32, width: u32, height: u32) -> (int, int, int) {
    (
        (x * 255 / width as int) % 256,
        (y * 255 / height as int) % 256,
        ((x + y) * 255 / (width + height)) % 256,
    )
}

/// Whether the gradient at `(x, y)` is computed without a 32-bit overflow
/// or a division by zero.
pub open spec fn gradient_defined(x: u32, y: u32, width: u32, height: u32) -> bool {
    &&& width > 0
    &&& height > 0
    &&& x * 255 <= u32::MAX
    &&& y * 255 <= u32::MAX
    &&& (x + y) * 255 <= u32::MAX
    &&& width + height <= u32::MAX
}

/// The gradient colour `0x00RRGGBB` at `(x, y)`, or `None` where its 32-bit
/// computation would overflow or divide by zero.
pub fn test_pattern_color(x: u32, y: u32, width: u32, height: u32) -> (r: Option<u32>)
    ensures
        r == (if gradient_defined(x, y, width, height) {
            let (red, green, blue) = gradient_channels(x, y, width, height);
            Some((red * 0x1_0000 + green * 0x100 + blue) as u32)
        } else {
            None
        }),
{
    if width == 0 || height == 0 || x > u32::MAX / 255 || y > u32::MAX / 255 || x > u32::MAX - y
        || x + y > u32::MAX / 255 || width > u32::MAX - height {
        return None;
    }
    let rr = (x * 255) / width;
    let gg = (y * 255) / height;
    let bb = ((x + y) * 255) / (width + height);
    let red = rr & 0xff;
    let green = gg & 0xff;
    let blue = bb & 0xff;
    let color = (red << 16) | (green << 8) | blue;
    assert(red == rr % 256 && green == gg % 256 && blue == bb % 256 && color == (rr % 256)
        * 0x1_0000 + (gg % 256) * 0x100 + bb % 256) by (bit_vector)
        requires
            red == rr & 0xff,
            green == gg & 0xff,
            blue == bb & 0xff,
            color == (red << 16) | (green << 8) | blue,
    ;
    Some(color)
}

/// The five markers of a `width` x `height` picture, in the order they are
/// drawn, as `(x, y, color)`: the corners in red, green, blue and yellow,
/// then the centre in white.
pub open spec fn pattern_markers(width: u32, height: u32) -> Seq<(u32, u32, u32)> {
    seq![
        (0u32, 0u32, 0x00ff_0000u32),
        ((width - 1) as u32, 0u32, 0x0000_ff00u32),
        (0u32, (height - 1) as u32, 0x0000_00ffu32),
        ((width - 1) as u32, (height - 1) as u32, 0x00ff_ff00u32),
        ((width / 2) as u32, (height / 2) as u32, CROSSHAIR_COLOR),
    ]
}

/// The colour of the last marker of `markers` placed at `(x, y)`, if any.
pub open spec fn last_marker_color(markers: Seq<(u32, u32, u32)>, x: u32, y: u32) -> Option<u32>
    decreases markers.len(),
{
    if markers.len() == 0 {
        None
    } else if markers.last().0 == x && markers.last().1 == y {
        Some(markers.last().2)
    } else {
        last_marker_color(markers.drop_last(), x, y)
    }
}

/// The colour pixel `(x, y)` ends with once the picture is drawn: the
/// picture is drawn in three passes, the gradient over every pixel, then the
/// crosshair through the centre row and column, then the markers in order,
/// so the last pass that reaches a pixel decides its colour.
pub open spec fn pattern_final_color(x: u32, y: u32, width: u32, height: u32) -> u32 {
    match last_marker_color(pattern_markers(width, height), x, y) {
        Some(color) => color,
        None => if x == width / 2 || y == height / 2 {
            CROSSHAIR_COLOR
        } else {
            let (red, green, blue) = gradient_channels(x, y, width, height);
            (red * 0x1_0000 + green * 0x100 + blue) as u32
        },
    }
}

/// The colour of visible pixel `(x, y)` in the finished picture; `None`
/// outside the screen, and where the gradient pass could not compute the
/// pixel's colour (a 32-bit overflow, at which the picture is not drawn).
pub fn test_pattern_final_color(x: u32, y: u32, width: u32, height: u32) -> (r: Option<u32>)
    ensures
        r == (if x < width && y < height && gradient_defined(x, y, width, height) {
            Some(pattern_final_color(x, y, width, height))
        } else {
            None
        }),
{
    if x >= width || y >= height {
        return None;
    }
    let gradient = match test_pattern_color(x, y, width, height) {
        Some(c) => c,
        None => {
            return None;
        },
    };
    let guides = match test_pattern_guides(width, height) {
        Some(g) => g,
        None => {
            return None;
        },
    };
    proof {
        reveal_with_fuel(last_marker_color, 6);
    }
    let mut i: usize = 5;
    while i > 0
        invariant
            i <= 5,
            x < width,
            y < height,
            gradient_defined(x, y, width, height),
            guides.markers@ == pattern_markers(width, height),
            last_marker_color(pattern_markers(width, height), x, y) == last_marker_color(
                pattern_markers(width, height).take(i as int),
                x,
                y,
            ),
        decreases i,
    {
        let (mx, my, color) = guides.markers[i - 1];
        let ghost prefix = pattern_markers(width, height).take(i as int);
        assert(prefix.drop_last() =~= pattern_markers(width, height).take(i - 1));
        assert(prefix.len() == i && prefix.last() == guides.markers@[i - 1]);
        assert(guides.markers@[i - 1] == (mx, my, color));
        if mx == x && my == y {
            assert(last_marker_color(prefix, x, y) == Some(color));
            return Some(color);
        }
        i = i - 1;
    }
    assert(pattern_markers(width, height).take(0) =~= Seq::<(u32, u32, u32)>::empty());
    if x == guides.center_x || y == guides.center_y {
        Some(CROSSHAIR_COLOR)
    } else {
        Some(gradient)
    }
}

/// The fixed marks of the picture on a non-empty screen: the centre, and
/// the five markers (corners in red, green, blue and yellow, then the
/// centre in white) as `(x, y, color)`.
#[derive(Clone, Copy, Debug, PartialEq, Eq)]
pub struct PatternGuides {
    pub center_x: u32,
    pub center_y: u32,
    pub markers: [(u32, u32, u32); 5],
}

/// The marks of the picture on a `width` x `height` screen; none on an
/// empty screen, where nothing is drawn.
pub fn test_pattern_guides(width: u32, height: u32) -> (r: Option<PatternGuides>)
    ensures
        width == 0 || height == 0 ==> r is None,
        width > 0 && height > 0 ==> (r matches Some(g) && g.center_x == width / 2 && g.center_y
            == height / 2 && g.markers@ == pattern_markers(width, height)),
{
    if width == 0 || height == 0 {
        return None;
    }
    let max_x = width - 1;
    let max_y = height - 1;
    let center_x = width / 2;
    let center_y = height / 2;
    let markers = [
        (0, 0, 0x00ff_0000),
        (max_x, 0, 0x0000_ff00),
        (0, max_y, 0x0000_00ff),
        (max_x, max_y, 0x00ff_ff00),
        (center_x, center_y, CROSSHAIR_COLOR),
    ];
    let g = PatternGuides { center_x, center_y, markers };
    assert(g.markers@ =~= pattern_markers(width, height));
    Some(g)
}

} // verus!

//! The window of the sprite viewer: when it asks the daemon, where it starts, and what it
//! shows before the first frame.
use vstd::prelude::*;

use crate::picture::{well_formed, Frame, FrameView};
use crate::viewer::FRAME_SIZE;

verus! {

/// How long the viewer waits between two frames, in milliseconds.
pub const POLL_MS: u64 = 16;

/// How long it waits between two attempts to connect again, in milliseconds.
pub const RECONNECT_MS: u64 = 2_000;

/// How long it waits between two moves of the window, in milliseconds.
pub const MOVE_MS: u64 = 33;

/// When the viewer asked the daemon last, and whether it is connected. Times are in
/// milliseconds from some fixed moment.
#[derive(Debug)]
pub struct PollClock {
    pub last_poll: u64,
    pub last_attempt: u64,
    pub connected: bool,
}

/// So much time has passed.
pub open spec fn passed(since: u64, now: u64, ms: u64) -> bool {
    now >= since && now - since >= ms
}

fn has_passed(since: u64, now: u64, ms: u64) -> (r: bool)
    ensures
        r == passed(since, now, ms),
{
    now >= since && now - since >= ms
}

impl PollClock {
    /// The viewer starts now, connected.
    pub fn new(now: u64) -> (c: PollClock)
        ensures
            c == (PollClock { last_poll: now, last_attempt: now, connected: true }),
    {
        PollClock { last_poll: now, last_attempt: now, connected: true }
    }

    /// Whether the next frame is due. Where it is, it is asked for now.
    pub fn poll_due(&mut self, now: u64) -> (due: bool)
        ensures
            due == passed(old(self).last_poll, now, POLL_MS),
            *final(self) == (if due {
                PollClock { last_poll: now, ..*old(self) }
            } else {
                *old(self)
            }),
    {
        if has_passed(self.last_poll, now, POLL_MS) {
            self.last_poll = now;
            true
        } else {
            false
        }
    }

    /// The daemon did not answer: whether to connect again now, and then whether that is
    /// news.
    pub fn poll_failed(&mut self, now: u64) -> (r: Option<bool>)
        ensures
            r == (if passed(old(self).last_attempt, now, RECONNECT_MS) {
                Some(old(self).connected)
            } else {
                None
            }),
            *final(self) == (if r is Some {
                PollClock { last_attempt: now, connected: false, ..*old(self) }
            } else {
                *old(self)
            }),
    {
        if has_passed(self.last_attempt, now, RECONNECT_MS) {
            self.last_attempt = now;
            let news = self.connected;
            self.connected = false;
            Some(news)
        } else {
            None
        }
    }

    /// The viewer is connected again.
    pub fn reconnected(&mut self)
        ensures
            *final(self) == (PollClock { connected: true, ..*old(self) }),
    {
        self.connected = true;
    }
}

/// Whether the next move of the window is due. Where it is, it is made now.
pub fn move_due(last_move: &mut u64, now: u64) -> (due: bool)
    ensures
        due == passed(*old(last_move), now, MOVE_MS),
        *final(last_move) == (if due {
            now
        } else {
            *old(last_move)
        }),
{
    if has_passed(*last_move, now, MOVE_MS) {
        *last_move = now;
        true
    } else {
        false
    }
}

/// The side of the window, in pixels.
pub fn display_size(scale: u32) -> (r: u32)
    requires
        FRAME_SIZE * scale <= u32::MAX,
    ensures
        r == FRAME_SIZE * scale,
{
    FRAME_SIZE * scale
}

/// A side of the screen in which the window has room.
pub open spec fn roomy(monitor: u32, side: u32) -> int {
    if monitor >= side + 64 {
        monitor as int
    } else {
        side + 64
    }
}

/// A side of the screen in which the window has room.
pub fn screen_side(monitor: u32, side: u32) -> (r: u32)
    requires
        side + 64 <= u32::MAX,
    ensures
        r == roomy(monitor, side),
{
    if monitor >= side + 64 {
        monitor
    } else {
        side + 64
    }
}

/// Where the window starts along a side of the screen: near its end.
pub open spec fn start_at(screen: u32, side: u32) -> int {
    if screen >= side + 32 {
        screen - (side + 32)
    } else {
        0
    }
}

/// Where the window starts along a side of the screen.
pub fn start_position(screen: u32, side: u32) -> (r: u32)
    requires
        side + 32 <= u32::MAX,
    ensures
        r == start_at(screen, side),
{
    if screen >= side + 32 {
        screen - (side + 32)
    } else {
        0
    }
}

/// Whether the compositor gave the window another size than it asked for.
pub fn size_ignored(width: u32, height: u32, side: u32) -> (r: bool)
    ensures
        r == (width != side || height != side),
{
    width != side || height != side
}

/// The window starts on the screen, whole.
pub proof fn law_window_starts_on_the_screen(monitor: u32, side: u32)
    requires
        side + 64 <= u32::MAX,
    ensures
        0 <= start_at(roomy(monitor, side) as u32, side),
        start_at(roomy(monitor, side) as u32, side) + side <= roomy(monitor, side),
{
}

/// How far two positions are apart.
pub open spec fn apart(a: int, b: int) -> int {
    if a >= b {
        a - b
    } else {
        b - a
    }
}

/// How far a pixel is from the middle of the frame, squared.
pub open spec fn off_centre(x: int, y: int) -> int {
    apart(x, 24) * apart(x, 24) + apart(y, 24) * apart(y, 24)
}

/// The pixel is near enough to the middle to be this green: it fades from forty in the
/// middle to nothing at a distance of half the frame.
pub open spec fn green_at_least(square: int, g: int) -> bool {
    25 * square <= 9 * ((40 - g) * (40 - g))
}

/// The greatest green up to `g` that a pixel is near enough for, or none.
pub open spec fn green_up_to(square: int, g: int) -> int
    decreases g,
{
    if g <= 0 {
        0
    } else if green_at_least(square, g) {
        g
    } else {
        green_up_to(square, g - 1)
    }
}

/// The green of a pixel.
pub open spec fn green(x: int, y: int) -> int {
    green_up_to(off_centre(x, y), 40)
}

/// Byte `k` of the picture that is shown before the first frame.
pub open spec fn placeholder_byte(k: int) -> u8 {
    let pixel = k / 4;
    if k % 4 == 1 {
        green(pixel % 48, pixel / 48) as u8
    } else if k % 4 == 3 {
        255
    } else {
        0
    }
}

/// The picture that is shown before the first frame: a dark green that fades towards the
/// edge.
pub open spec fn placeholder_view() -> FrameView {
    FrameView {
        width: FRAME_SIZE,
        height: FRAME_SIZE,
        pixels: Seq::new(9_216, |k: int| placeholder_byte(k)),
    }
}

fn distance(a: u64, b: u64) -> (r: u64)
    ensures
        r == apart(a as int, b as int),
{
    if a >= b {
        a - b
    } else {
        b - a
    }
}

fn green_of(x: u64, y: u64) -> (r: u8)
    requires
        x < 48,
        y < 48,
    ensures
        r == green(x as int, y as int),
{
    let dx: u64 = distance(x, 24);
    let dy: u64 = distance(y, 24);
    assert(dx * dx <= 576) by (nonlinear_arith)
        requires
            0 <= dx <= 24,
    ;
    assert(dy * dy <= 576) by (nonlinear_arith)
        requires
            0 <= dy <= 24,
    ;
    let square: u64 = dx * dx + dy * dy;
    let mut g: u64 = 40;
    while g > 0
        invariant
            g <= 40,
            square <= 1_152,
            square == off_centre(x as int, y as int),
            green(x as int, y as int) == green_up_to(square as int, g as int),
        decreases g,
    {
        let rest: u64 = 40 - g;
        assert(rest * rest <= 1_600) by (nonlinear_arith)
            requires
                0 <= rest <= 40,
        ;
        if 25 * square <= 9 * (rest * rest) {
            return g as u8;
        }
        g = g - 1;
    }
    0
}

/// The picture that is shown before the first frame.
pub fn placeholder_rgba() -> (f: Frame)
    ensures
        f@ == placeholder_view(),
        well_formed(f@),
{
    let mut pixels: Vec<u8> = Vec::new();
    let mut pixel: u64 = 0;
    while pixel < 2_304
        invariant
            pixel <= 2_304,
            pixels@.len() == 4 * pixel,
            forall|k: int| 0 <= k < pixels@.len() ==> #[trigger] pixels@[k] == placeholder_byte(k),
        decreases 2_304 - pixel,
    {
        let g: u8 = green_of(pixel % 48, pixel / 48);
        pixels.push(0);
        pixels.push(g);
        pixels.push(0);
        pixels.push(255);
        pixel = pixel + 1;
    }
    let f = Frame { width: FRAME_SIZE, height: FRAME_SIZE, pixels };
    assert(f@.pixels =~= placeholder_view().pixels);
    f
}

proof fn lemma_green_bounds(square: int, g: int)
    requires
        0 <= g <= 40,
    ensures
        0 <= green_up_to(square, g) <= g,
        green_up_to(square, g) > 0 ==> green_at_least(square, green_up_to(square, g)),
    decreases g,
{
    if g > 0 && !green_at_least(square, g) {
        lemma_green_bounds(square, g - 1);
    }
}

/// The green is at most forty, which it is in the middle, and there is none at a distance
/// of half the frame or more.
pub proof fn law_placeholder_fades(x: int, y: int)
    ensures
        0 <= green(x, y) <= 40,
        green(24, 24) == 40,
        off_centre(x, y) >= 576 ==> green(x, y) == 0,
{
    lemma_green_bounds(off_centre(x, y), 40);
    assert(green_at_least(off_centre(24, 24), 40)) by {
        assert(apart(24, 24) * apart(24, 24) == 0);
        assert((40 - 40) * (40 - 40) == 0);
    }
    if off_centre(x, y) >= 576 {
        let g = green(x, y);
        if g > 0 {
            assert(9 * ((40 - g) * (40 - g)) < 14_400) by (nonlinear_arith)
                requires
                    0 < g <= 40,
            ;
        }
    }
}

/// Which of the formats that a surface offers is taken, given which of them are sRGB: the
/// first that is not, or else the first.
pub fn pick_format(srgb: &Vec<bool>) -> (i: usize)
    requires
        srgb@.len() > 0,
    ensures
        i < srgb@.len(),
        srgb@[i as int] ==> i == 0 && forall|j: int| 0 <= j < srgb@.len() ==> srgb@[j],
        !srgb@[i as int] ==> forall|j: int| 0 <= j < i ==> srgb@[j],
{
    let mut i: usize = 0;
    while i < srgb.len()
        invariant
            i <= srgb@.len(),
            forall|j: int| 0 <= j < i ==> srgb@[j],
        decreases srgb@.len() - i,
    {
        if !srgb[i] {
            return i;
        }
        i = i + 1;
    }
    0
}

/// How a compositor puts a surface over what is behind it.
#[derive(Debug, Clone, Copy, PartialEq, Eq, Structural)]
pub enum AlphaMode {
    /// The colours are multiplied by their opacity already, as the shader does it.
    PreMultiplied,
    PostMultiplied,
    Inherit,
    /// Any other.
    Other,
}

/// How well a mode suits the shader: the smaller the number, the better.
pub open spec fn alpha_rank(mode: AlphaMode) -> int {
    match mode {
        AlphaMode::PreMultiplied => 0,
        AlphaMode::PostMultiplied => 1,
        AlphaMode::Inherit => 2,
        AlphaMode::Other => 3,
    }
}

fn find_alpha(offered: &Vec<AlphaMode>, mode: AlphaMode) -> (r: Option<usize>)
    ensures
        match r {
            Some(i) => i < offered@.len() && offered@[i as int] == mode && forall|j: int|
                0 <= j < i ==> offered@[j] != mode,
            None => forall|j: int| 0 <= j < offered@.len() ==> offered@[j] != mode,
        },
{
    let mut i: usize = 0;
    while i < offered.len()
        invariant
            i <= offered@.len(),
            forall|j: int| 0 <= j < i ==> offered@[j] != mode,
        decreases offered@.len() - i,
    {
        if offered[i] == mode {
            return Some(i);
        }
        i = i + 1;
    }
    None
}

/// Which of the modes that a surface offers is taken: the best that it has, and of those
/// the first.
pub fn pick_alpha(offered: &Vec<AlphaMode>) -> (i: usize)
    requires
        offered@.len() > 0,
    ensures
        i < offered@.len(),
        forall|j: int|
            0 <= j < offered@.len() ==> alpha_rank(offered@[i as int]) <= alpha_rank(
                #[trigger] offered@[j],
            ),
        forall|j: int| 0 <= j < i ==> #[trigger] offered@[j] != offered@[i as int],
        offered@.contains(AlphaMode::PreMultiplied) ==> offered@[i as int]
            == AlphaMode::PreMultiplied,
        !offered@.contains(AlphaMode::PreMultiplied) && offered@.contains(AlphaMode::PostMultiplied)
            ==> offered@[i as int] == AlphaMode::PostMultiplied,
        !offered@.contains(AlphaMode::PreMultiplied) && !offered@.contains(
            AlphaMode::PostMultiplied,
        ) && offered@.contains(AlphaMode::Inherit) ==> offered@[i as int] == AlphaMode::Inherit,
{
    if let Some(i) = find_alpha(offered, AlphaMode::PreMultiplied) {
        return i;
    }
    if let Some(i) = find_alpha(offered, AlphaMode::PostMultiplied) {
        return i;
    }
    if let Some(i) = find_alpha(offered, AlphaMode::Inherit) {
        return i;
    }
    0
}

} // verus!

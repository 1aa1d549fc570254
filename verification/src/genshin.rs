use crate::random::gen_range_inclusive;
use crate::winapi_bindings::bindings::{
    click_message, click_message_of, space_key_message, space_key_message_of, Message, Rgb,
};
use rand::thread_rng;
use vstd::prelude::*;

verus! {

/// `v * dim / dim0`, rounded toward zero: a reference coordinate `v`, laid out
/// for an extent of `dim0`, carried over to an extent of `dim`.
pub open spec fn scaled(v: int, dim: int, dim0: int) -> int {
    if v * dim >= 0 {
        (v * dim) / dim0
    } else {
        -((-(v * dim)) / dim0)
    }
}

/// For a reference coordinate and an extent that are not negative, rounding
/// toward zero is rounding down: the scaled coordinate is the floor of
/// `v * dim / dim0`.
pub proof fn lemma_scaled_is_floor(v: int, dim: int, dim0: int)
    requires
        0 <= v,
        0 <= dim,
        0 < dim0,
    ensures
        scaled(v, dim, dim0) == (v * dim) / dim0,
        scaled(v, dim, dim0) * dim0 <= v * dim < (scaled(v, dim, dim0) + 1) * dim0,
{
    assert(v * dim >= 0) by (nonlinear_arith)
        requires
            0 <= v,
            0 <= dim,
    ;
    let p = v * dim;
    assert((p / dim0) * dim0 <= p < (p / dim0 + 1) * dim0) by (nonlinear_arith)
        requires
            0 < dim0,
    ;
}

/// A reference coordinate inside the reference extent stays inside the
/// window: the scaled coordinate lies between zero and `dim`, on the side of
/// `dim`.
pub proof fn lemma_scaled_within(v: int, dim: int, dim0: int)
    requires
        0 <= v <= dim0,
        0 < dim0,
    ensures
        dim >= 0 ==> 0 <= scaled(v, dim, dim0) <= dim,
        dim <= 0 ==> dim <= scaled(v, dim, dim0) <= 0,
{
    if dim >= 0 {
        assert(0 <= v * dim <= dim0 * dim) by (nonlinear_arith)
            requires
                0 <= v <= dim0,
                0 <= dim,
        ;
        let p = v * dim;
        assert(0 <= p / dim0 <= dim) by (nonlinear_arith)
            requires
                0 <= p <= dim0 * dim,
                0 < dim0,
        ;
    } else {
        assert(0 <= -(v * dim) <= dim0 * (-dim)) by (nonlinear_arith)
            requires
                0 <= v <= dim0,
                dim < 0,
        ;
        let p = -(v * dim);
        let m = -dim;
        assert(0 <= p / dim0 <= m) by (nonlinear_arith)
            requires
                0 <= p <= dim0 * m,
                0 < dim0,
        ;
    }
}

/// Scaling keeps the order of reference coordinates when the extent is not
/// negative.
pub proof fn lemma_scaled_monotonic(v1: int, v2: int, dim: int, dim0: int)
    requires
        0 <= v1 <= v2,
        0 <= dim,
        0 < dim0,
    ensures
        scaled(v1, dim, dim0) <= scaled(v2, dim, dim0),
{
    assert(0 <= v1 * dim <= v2 * dim) by (nonlinear_arith)
        requires
            0 <= v1 <= v2,
            0 <= dim,
    ;
    let p1 = v1 * dim;
    let p2 = v2 * dim;
    assert(p1 / dim0 <= p2 / dim0) by (nonlinear_arith)
        requires
            0 <= p1 <= p2,
            0 < dim0,
    ;
}

/// For a window of positive size every coordinate is the floor of its
/// reference point times the window's extent over the reference extent,
/// each axis by itself.
pub proof fn lemma_geometry_is_floor(width: i32, height: i32)
    requires
        width > 0,
        height > 0,
    ensures
        WindowProps::for_size(width, height).bottom_dialogue_min_x == (1300 * width) / 1920,
        WindowProps::for_size(width, height).bottom_dialogue_max_x == (1700 * width) / 1920,
        WindowProps::for_size(width, height).bottom_dialogue_min_y == (790 * height) / 1080,
        WindowProps::for_size(width, height).bottom_dialogue_max_y == (800 * height) / 1080,
        WindowProps::for_size(width, height).playing_icon_x == (84 * width) / 1920,
        WindowProps::for_size(width, height).playing_icon_y == (46 * height) / 1080,
        WindowProps::for_size(width, height).dialogue_icon_x == (1301 * width) / 1920,
        WindowProps::for_size(width, height).dialogue_icon_lower_y == (808 * height) / 1080,
        WindowProps::for_size(width, height).dialogue_icon_higher_y == (790 * height) / 1080,
        WindowProps::for_size(width, height).loading_screen_x == (1200 * width) / 1920,
        WindowProps::for_size(width, height).loading_screen_y == (700 * height) / 1080,
{
}

/// Width of the layout on which the reference points were measured.
pub const DEFAULT_WIDTH: i32 = 1920;

/// Height of the layout on which the reference points were measured.
pub const DEFAULT_HEIGHT: i32 = 1080;

/// The pixel coordinates the probe and the click need, for one window size.
///
/// A value is a snapshot: it is right for the window size it was computed
/// from and for no other.
#[derive(Clone, Copy, Debug, PartialEq, Eq, Structural)]
pub struct WindowProps {
    pub bottom_dialogue_min_x: i32,
    pub bottom_dialogue_max_x: i32,
    pub bottom_dialogue_min_y: i32,
    pub bottom_dialogue_max_y: i32,
    pub playing_icon_x: i32,
    pub playing_icon_y: i32,
    pub dialogue_icon_x: i32,
    pub dialogue_icon_lower_y: i32,
    pub dialogue_icon_higher_y: i32,
    pub loading_screen_x: i32,
    pub loading_screen_y: i32,
}

impl WindowProps {
    /// The coordinates for a window `width` wide and `height` high: each
    /// reference point scaled on its own axis.
    pub open spec fn for_size(width: i32, height: i32) -> WindowProps {
        WindowProps {
            bottom_dialogue_min_x: scaled(1300, width as int, 1920) as i32,
            bottom_dialogue_max_x: scaled(1700, width as int, 1920) as i32,
            bottom_dialogue_min_y: scaled(790, height as int, 1080) as i32,
            bottom_dialogue_max_y: scaled(800, height as int, 1080) as i32,
            playing_icon_x: scaled(84, width as int, 1920) as i32,
            playing_icon_y: scaled(46, height as int, 1080) as i32,
            dialogue_icon_x: scaled(1301, width as int, 1920) as i32,
            dialogue_icon_lower_y: scaled(808, height as int, 1080) as i32,
            dialogue_icon_higher_y: scaled(790, height as int, 1080) as i32,
            loading_screen_x: scaled(1200, width as int, 1920) as i32,
            loading_screen_y: scaled(700, height as int, 1080) as i32,
        }
    }

    /// The bottom-dialogue rectangle holds at least one point.
    pub open spec fn has_dialogue_area(&self) -> bool {
        &&& self.bottom_dialogue_min_x <= self.bottom_dialogue_max_x
        &&& self.bottom_dialogue_min_y <= self.bottom_dialogue_max_y
    }

    /// The point `(x, y)` lies in the bottom-dialogue rectangle, borders
    /// included.
    pub open spec fn in_dialogue_area(&self, x: int, y: int) -> bool {
        &&& self.bottom_dialogue_min_x <= x <= self.bottom_dialogue_max_x
        &&& self.bottom_dialogue_min_y <= y <= self.bottom_dialogue_max_y
    }

    /// Computes the coordinates for a window of the given size.
    pub fn new(width: i32, height: i32) -> (props: WindowProps)
        ensures
            props == WindowProps::for_size(width, height),
            width >= 0 && height >= 0 ==> props.has_dialogue_area(),
    {
        proof {
            lemma_scaled_within(1300, width as int, 1920);
            lemma_scaled_within(1700, width as int, 1920);
            lemma_scaled_within(84, width as int, 1920);
            lemma_scaled_within(1301, width as int, 1920);
            lemma_scaled_within(1200, width as int, 1920);
            lemma_scaled_within(790, height as int, 1080);
            lemma_scaled_within(800, height as int, 1080);
            lemma_scaled_within(46, height as int, 1080);
            lemma_scaled_within(808, height as int, 1080);
            lemma_scaled_within(700, height as int, 1080);
            if width >= 0 {
                lemma_scaled_monotonic(1300, 1700, width as int, 1920);
            }
            if height >= 0 {
                lemma_scaled_monotonic(790, 800, height as int, 1080);
            }
        }
        WindowProps {
            bottom_dialogue_min_x: Self::width_adjust(1300, width),
            bottom_dialogue_max_x: Self::width_adjust(1700, width),
            bottom_dialogue_min_y: Self::height_adjust(790, height),
            bottom_dialogue_max_y: Self::height_adjust(800, height),
            playing_icon_x: Self::width_adjust(84, width),
            playing_icon_y: Self::height_adjust(46, height),
            dialogue_icon_x: Self::width_adjust(1301, width),
            dialogue_icon_lower_y: Self::height_adjust(808, height),
            dialogue_icon_higher_y: Self::height_adjust(790, height),
            loading_screen_x: Self::width_adjust(1200, width),
            loading_screen_y: Self::height_adjust(700, height),
        }
    }

    /// Carries a horizontal reference coordinate over to a window
    /// `window_width` wide. The result has to fit the coordinate type.
    pub fn width_adjust(width: i32, window_width: i32) -> (x: i32)
        requires
            i32::MIN <= scaled(width as int, window_width as int, 1920) <= i32::MAX,
        ensures
            x == scaled(width as int, window_width as int, 1920),
    {
        scale(width, window_width, DEFAULT_WIDTH)
    }

    /// Carries a vertical reference coordinate over to a window
    /// `window_height` high. The result has to fit the coordinate type.
    pub fn height_adjust(height: i32, window_height: i32) -> (y: i32)
        requires
            i32::MIN <= scaled(height as int, window_height as int, 1080) <= i32::MAX,
        ensures
            y == scaled(height as int, window_height as int, 1080),
    {
        scale(height, window_height, DEFAULT_HEIGHT)
    }
}

/// `v * dim / dim0` in 64 bits, where the product cannot overflow.
fn scale(v: i32, dim: i32, dim0: i32) -> (r: i32)
    requires
        0 < dim0,
        i32::MIN <= scaled(v as int, dim as int, dim0 as int) <= i32::MAX,
    ensures
        r == scaled(v as int, dim as int, dim0 as int),
{
    assert(-0x4000_0000_0000_0000 <= (v as int) * (dim as int) <= 0x4000_0000_0000_0000)
        by (nonlinear_arith)
        requires
            -0x8000_0000 <= v <= 0x7fff_ffff,
            -0x8000_0000 <= dim <= 0x7fff_ffff,
    ;
    let product: i64 = (v as i64) * (dim as i64);
    let quotient: i64 = product / (dim0 as i64);
    quotient as i32
}

/// A position on the screen.
#[derive(Clone, Copy, Debug, PartialEq, Eq, Structural)]
pub struct Point {
    pub x: i32,
    pub y: i32,
}

/// The places the probe looks at, in the order in which it looks.
#[derive(Clone, Copy, Debug, PartialEq, Eq, Structural)]
pub enum ProbePoint {
    PlayingIcon,
    LoadingScreen,
    DialogueIconLower,
    DialogueIconHigher,
}

impl WindowProps {
    /// Where the probe reads the pixel for `point`.
    pub open spec fn point_of(&self, point: ProbePoint) -> Point {
        match point {
            ProbePoint::PlayingIcon => Point { x: self.playing_icon_x, y: self.playing_icon_y },
            ProbePoint::LoadingScreen => Point {
                x: self.loading_screen_x,
                y: self.loading_screen_y,
            },
            ProbePoint::DialogueIconLower => Point {
                x: self.dialogue_icon_x,
                y: self.dialogue_icon_lower_y,
            },
            ProbePoint::DialogueIconHigher => Point {
                x: self.dialogue_icon_x,
                y: self.dialogue_icon_higher_y,
            },
        }
    }

    /// The position of the pixel that the probe reads for `point`.
    pub fn point(&self, point: ProbePoint) -> (p: Point)
        ensures
            p == self.point_of(point),
    {
        match point {
            ProbePoint::PlayingIcon => Point { x: self.playing_icon_x, y: self.playing_icon_y },
            ProbePoint::LoadingScreen => Point {
                x: self.loading_screen_x,
                y: self.loading_screen_y,
            },
            ProbePoint::DialogueIconLower => Point {
                x: self.dialogue_icon_x,
                y: self.dialogue_icon_lower_y,
            },
            ProbePoint::DialogueIconHigher => Point {
                x: self.dialogue_icon_x,
                y: self.dialogue_icon_higher_y,
            },
        }
    }
}

/// What the window shows, as far as the automation cares.
#[derive(Clone, Copy, Debug, PartialEq, Eq, Structural)]
pub enum DialogState {
    /// A dialog is playing and offers nothing to choose.
    ChoicelessPlaying,
    /// A dialog is playing and waits for a choice.
    ChoicePlaying,
    /// No dialog is playing.
    NotPlaying,
}

/// The colour of the icon that marks a dialog without choices.
pub open spec fn playing_marker() -> Rgb {
    Rgb { r: 236, g: 229, b: 216 }
}

/// Pure white.
pub open spec fn white() -> Rgb {
    Rgb { r: 255, g: 255, b: 255 }
}

/// The colours read at the four probe points.
#[derive(Clone, Copy, Debug, PartialEq, Eq, Structural)]
pub struct PixelSamples {
    pub playing_icon: Rgb,
    pub loading_screen: Rgb,
    pub dialogue_icon_lower: Rgb,
    pub dialogue_icon_higher: Rgb,
}

impl PixelSamples {
    /// The colour read at `point`.
    pub open spec fn at(&self, point: ProbePoint) -> Rgb {
        match point {
            ProbePoint::PlayingIcon => self.playing_icon,
            ProbePoint::LoadingScreen => self.loading_screen,
            ProbePoint::DialogueIconLower => self.dialogue_icon_lower,
            ProbePoint::DialogueIconHigher => self.dialogue_icon_higher,
        }
    }
}

/// The dialog state that four sampled colours stand for. The tests are made
/// in a fixed order and the first that matches decides.
pub open spec fn dialog_state(samples: PixelSamples) -> DialogState {
    if samples.playing_icon == playing_marker() {
        DialogState::ChoicelessPlaying
    } else if samples.loading_screen == white() {
        DialogState::NotPlaying
    } else if samples.dialogue_icon_lower == white() || samples.dialogue_icon_higher == white() {
        DialogState::ChoicePlaying
    } else {
        DialogState::NotPlaying
    }
}

/// What the probe does after one more pixel: it has its answer, or it names
/// the next point to read.
#[derive(Clone, Copy, Debug, PartialEq, Eq, Structural)]
pub enum ProbeStep {
    Sample(ProbePoint),
    Decided(DialogState),
}

/// The step the probe takes on reading `color` at `point`.
pub open spec fn probe_step(point: ProbePoint, color: Rgb) -> ProbeStep {
    match point {
        ProbePoint::PlayingIcon => if color == playing_marker() {
            ProbeStep::Decided(DialogState::ChoicelessPlaying)
        } else {
            ProbeStep::Sample(ProbePoint::LoadingScreen)
        },
        ProbePoint::LoadingScreen => if color == white() {
            ProbeStep::Decided(DialogState::NotPlaying)
        } else {
            ProbeStep::Sample(ProbePoint::DialogueIconLower)
        },
        ProbePoint::DialogueIconLower => if color == white() {
            ProbeStep::Decided(DialogState::ChoicePlaying)
        } else {
            ProbeStep::Sample(ProbePoint::DialogueIconHigher)
        },
        ProbePoint::DialogueIconHigher => if color == white() {
            ProbeStep::Decided(DialogState::ChoicePlaying)
        } else {
            ProbeStep::Decided(DialogState::NotPlaying)
        },
    }
}

/// How many points the probe may still read once it stands at `point`.
pub open spec fn points_left(point: ProbePoint) -> nat {
    match point {
        ProbePoint::PlayingIcon => 3,
        ProbePoint::LoadingScreen => 2,
        ProbePoint::DialogueIconLower => 1,
        ProbePoint::DialogueIconHigher => 0,
    }
}

/// The answer the probe reaches when it starts at `point` and reads its
/// pixels from `samples`.
pub open spec fn probe_from(point: ProbePoint, samples: PixelSamples) -> DialogState
    decreases points_left(point),
{
    match probe_step(point, samples.at(point)) {
        ProbeStep::Decided(state) => state,
        ProbeStep::Sample(next) => probe_from(next, samples),
    }
}

/// Reading the pixels one at a time, from the playing icon on, gives the
/// state that the four colours stand for.
pub proof fn lemma_probe_reaches_dialog_state(samples: PixelSamples)
    ensures
        probe_from(ProbePoint::PlayingIcon, samples) == dialog_state(samples),
{
    reveal_with_fuel(probe_from, 5);
}

/// A playing icon in the marker colour means a dialog without choices,
/// whatever the other three pixels show.
pub proof fn lemma_marker_decides(samples: PixelSamples)
    requires
        samples.playing_icon == playing_marker(),
    ensures
        dialog_state(samples) == DialogState::ChoicelessPlaying,
{
}

/// Whether `color` is the marker colour of the playing icon.
pub fn is_playing_marker(color: Rgb) -> (b: bool)
    ensures
        b == (color == playing_marker()),
{
    color.r == 236 && color.g == 229 && color.b == 216
}

/// Whether `color` is pure white.
pub fn is_white(color: Rgb) -> (b: bool)
    ensures
        b == (color == white()),
{
    color.r == 255 && color.g == 255 && color.b == 255
}

/// The point at which every probe starts.
pub fn probe_start() -> (point: ProbePoint)
    ensures
        point == ProbePoint::PlayingIcon,
{
    ProbePoint::PlayingIcon
}

/// Takes one step of the probe: `color` is the pixel read at `point`.
pub fn probe(point: ProbePoint, color: Rgb) -> (step: ProbeStep)
    ensures
        step == probe_step(point, color),
{
    match point {
        ProbePoint::PlayingIcon => if is_playing_marker(color) {
            ProbeStep::Decided(DialogState::ChoicelessPlaying)
        } else {
            ProbeStep::Sample(ProbePoint::LoadingScreen)
        },
        ProbePoint::LoadingScreen => if is_white(color) {
            ProbeStep::Decided(DialogState::NotPlaying)
        } else {
            ProbeStep::Sample(ProbePoint::DialogueIconLower)
        },
        ProbePoint::DialogueIconLower => if is_white(color) {
            ProbeStep::Decided(DialogState::ChoicePlaying)
        } else {
            ProbeStep::Sample(ProbePoint::DialogueIconHigher)
        },
        ProbePoint::DialogueIconHigher => if is_white(color) {
            ProbeStep::Decided(DialogState::ChoicePlaying)
        } else {
            ProbeStep::Decided(DialogState::NotPlaying)
        },
    }
}

/// How long a key or button is held before it is let go, in milliseconds.
pub const DEFAULT_DURATION_MILLIS: u64 = 50;

/// One synthetic input: where the pointer goes first, if anywhere, the
/// message that presses, how long to hold, and the message that releases.
#[derive(Clone, Copy, Debug, PartialEq, Eq, Structural)]
pub struct Gesture {
    pub pointer: Option<Point>,
    pub press: Message,
    pub hold_millis: u64,
    pub release: Message,
}

/// One stroke of the space bar in the window `hwnd`.
pub open spec fn space_gesture(hwnd: usize) -> Gesture {
    Gesture {
        pointer: None,
        press: space_key_message_of(hwnd, true),
        hold_millis: 50,
        release: space_key_message_of(hwnd, false),
    }
}

/// One left click in the window `hwnd` at `(x, y)`, the pointer moved there
/// first.
pub open spec fn click_gesture(hwnd: usize, x: i32, y: i32) -> Gesture {
    Gesture {
        pointer: Some(Point { x, y }),
        press: click_message_of(hwnd, true, x, y),
        hold_millis: 50,
        release: click_message_of(hwnd, false, x, y),
    }
}

/// Title of the window that is automated.
pub const GENSHIN_WINDOW_NAME: &'static str = "Genshin Impact";

/// Window class of the window that is automated.
pub const GENSHIN_WINDOW_CLASS_NAME: &'static str = "UnityWndClass";

/// The window that is automated, by its handle. The handle is never null.
#[derive(Clone, Copy, Debug, PartialEq, Eq, Structural)]
pub struct Window {
    pub(crate) hwnd: usize,
}

impl Window {
    #[verifier::type_invariant]
    spec fn resolved(self) -> bool {
        self.hwnd != 0
    }

    /// The handle of the window.
    pub open(crate) spec fn handle(self) -> usize {
        self.hwnd
    }

    /// The window with the handle `hwnd`.
    pub open(crate) spec fn with_handle(hwnd: usize) -> Window {
        Window { hwnd }
    }

    /// Takes the handle that a lookup returned. The null handle means that no
    /// window was found.
    pub fn new(hwnd: usize) -> (found: Option<Window>)
        ensures
            found == if hwnd == 0 {
                None
            } else {
                Some(Window::with_handle(hwnd))
            },
    {
        if hwnd == 0 {
            None
        } else {
            Some(Window { hwnd })
        }
    }

    /// The handle of the window, for calls that address it.
    pub fn hwnd(&self) -> (hwnd: usize)
        ensures
            hwnd == self.handle(),
            hwnd != 0,
    {
        proof {
            use_type_invariant(self);
        }
        self.hwnd
    }

    /// Whether this window has the focus, given the foreground window that
    /// the system reports (`None` where there is none).
    pub fn is_active(&self, foreground: Option<usize>) -> (active: bool)
        ensures
            active == (foreground == Some(self.handle())),
    {
        match foreground {
            Some(fg_w) => self.hwnd == fg_w,
            None => false,
        }
    }

    /// Whether a dialog is playing, with or without a choice.
    pub fn dialog_played(&self, samples: &PixelSamples) -> (played: bool)
        ensures
            played == (dialog_state(*samples) != DialogState::NotPlaying),
    {
        if is_playing_marker(samples.playing_icon) {
            return true;
        }
        if is_white(samples.loading_screen) {
            return false;
        }
        if is_white(samples.dialogue_icon_lower) {
            return true;
        }
        if is_white(samples.dialogue_icon_higher) {
            return true;
        }
        false
    }

    /// Whether the dialog that is playing offers nothing to choose.
    pub fn is_dialog_without_option(&self, samples: &PixelSamples) -> (choiceless: bool)
        ensures
            choiceless == (dialog_state(*samples) == DialogState::ChoicelessPlaying),
    {
        is_playing_marker(samples.playing_icon)
    }

    /// The gesture that advances a dialog without choices: the space bar
    /// pressed, held and released.
    pub fn click_space(&self) -> (gesture: Gesture)
        ensures
            gesture == space_gesture(self.handle()),
    {
        Gesture {
            pointer: None,
            press: space_key_message(self.hwnd, true),
            hold_millis: DEFAULT_DURATION_MILLIS,
            release: space_key_message(self.hwnd, false),
        }
    }

    /// The gesture that clicks the left button at `(pos_x, pos_y)`.
    pub fn click_at(&self, pos_x: i32, pos_y: i32) -> (gesture: Gesture)
        ensures
            gesture == click_gesture(self.handle(), pos_x, pos_y),
    {
        Gesture {
            pointer: Some(Point { x: pos_x, y: pos_y }),
            press: click_message(self.hwnd, true, pos_x, pos_y),
            hold_millis: DEFAULT_DURATION_MILLIS,
            release: click_message(self.hwnd, false, pos_x, pos_y),
        }
    }

    /// The gesture that advances a dialog with choices: a left click at a
    /// position drawn at random from the bottom-dialogue rectangle, which has
    /// to hold a point. Two calls may differ in the position.
    pub fn click_left_m_button_random_pos(&self, props: &WindowProps) -> (gesture: Gesture)
        requires
            props.has_dialogue_area(),
        ensures
            gesture.pointer matches Some(p) && props.in_dialogue_area(p.x as int, p.y as int)
                && gesture == click_gesture(self.handle(), p.x, p.y),
    {
        let mut rnd = thread_rng();
        let pos_x = gen_range_inclusive(
            &mut rnd,
            props.bottom_dialogue_min_x,
            props.bottom_dialogue_max_x,
        );
        let pos_y = gen_range_inclusive(
            &mut rnd,
            props.bottom_dialogue_min_y,
            props.bottom_dialogue_max_y,
        );
        self.click_at(pos_x, pos_y)
    }
}

} // verus!

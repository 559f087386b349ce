//! The render loop: what is drawn in each frame, and what is released when
//! the window closes.

use crate::font::{acquisitions, lemma_releases_balance_acquisitions, stage_after};
use crate::font::{LoadEvent, LoadStage, SdfOptions, Text};
use crate::resource::Resource;
use vstd::prelude::*;

verus! {

/// Width of the window in pixels.
pub const WINDOW_WIDTH: i32 = 1280;

/// Height of the window in pixels.
pub const WINDOW_HEIGHT: i32 = 720;

/// Title of the window.
pub const WINDOW_TITLE: &'static str = "Font Demo";

/// Frames per second that the backend paces the loop at.
pub const TARGET_FPS: u32 = 60;

/// The text that every frame shows.
pub const GREETING: &'static str = "Hello World!";

/// Side of the filled square in the middle of the window.
pub const SQUARE_SIDE: i32 = 256;

/// Left edge of the text.
pub const TEXT_X: i32 = 20;

/// Top edge of the text.
pub const TEXT_Y: i32 = 100;

/// Pixel height that the text is drawn at.
pub const TEXT_SIZE: i32 = 14;

/// Space between neighbouring letters.
pub const TEXT_SPACING: i32 = 1;

/// A colour with its opacity.
#[derive(Debug, Clone, Copy, PartialEq, Eq)]
pub struct Color {
    pub r: u8,
    pub g: u8,
    pub b: u8,
    pub a: u8,
}

impl Color {
    pub open spec fn spec_rust_orange() -> Color {
        Color { r: 222, g: 165, b: 132, a: 255 }
    }

    pub open spec fn spec_ray_white() -> Color {
        Color { r: 255, g: 255, b: 255, a: 255 }
    }

    /// The colour of the square and of the text.
    #[verifier::when_used_as_spec(spec_rust_orange)]
    pub fn rust_orange() -> (color: Color)
        ensures
            color == Color::spec_rust_orange(),
    {
        Color { r: 222, g: 165, b: 132, a: 255 }
    }

    /// The colour of the background.
    #[verifier::when_used_as_spec(spec_ray_white)]
    pub fn ray_white() -> (color: Color)
        ensures
            color == Color::spec_ray_white(),
    {
        Color { r: 255, g: 255, b: 255, a: 255 }
    }
}

/// The window that the backend is asked to open.
#[derive(Debug, Clone, Copy, PartialEq, Eq)]
pub struct Window {
    pub width: i32,
    pub height: i32,
    pub title: &'static str,
    pub target_fps: u32,
}

impl Window {
    pub open spec fn spec_font_demo() -> Window {
        Window {
            width: WINDOW_WIDTH,
            height: WINDOW_HEIGHT,
            title: WINDOW_TITLE,
            target_fps: TARGET_FPS,
        }
    }

    /// The window of the program.
    #[verifier::when_used_as_spec(spec_font_demo)]
    pub fn font_demo() -> (window: Window)
        ensures
            window == Window::spec_font_demo(),
    {
        Window {
            width: WINDOW_WIDTH,
            height: WINDOW_HEIGHT,
            title: WINDOW_TITLE,
            target_fps: TARGET_FPS,
        }
    }
}

/// One call of the backend while a frame is drawn.
#[derive(Debug, Clone, Copy, PartialEq, Eq)]
pub enum DrawCommand {
    /// Fill the frame buffer.
    ClearBackground(Color),
    /// Draw a filled rectangle.
    Rectangle { x: i32, y: i32, width: i32, height: i32, color: Color },
    /// Draw `text` with the font whose atlas is `texture`, through `shader`.
    Text {
        texture: u32,
        shader: u32,
        text: &'static str,
        x: i32,
        y: i32,
        size: i32,
        spacing: i32,
        color: Color,
    },
    /// Show the frame and wait for the next one.
    Present,
}

/// Half of `n`, rounded toward zero.
pub open spec fn half(n: int) -> int {
    if n >= 0 {
        n / 2
    } else {
        -((-n) / 2)
    }
}

/// The square in the middle of `window`.
pub open spec fn centered_square(window: Window) -> DrawCommand {
    DrawCommand::Rectangle {
        x: (half(window.width as int) - SQUARE_SIDE / 2) as i32,
        y: (half(window.height as int) - SQUARE_SIDE / 2) as i32,
        width: SQUARE_SIDE,
        height: SQUARE_SIDE,
        color: Color::rust_orange(),
    }
}

/// The greeting, drawn with the font and the shader of `text`.
pub open spec fn greeting(text: Text) -> DrawCommand {
    DrawCommand::Text {
        texture: text.0.texture.id,
        shader: text.1.id,
        text: GREETING,
        x: TEXT_X,
        y: TEXT_Y,
        size: TEXT_SIZE,
        spacing: TEXT_SPACING,
        color: Color::rust_orange(),
    }
}

/// The calls that draw one frame, in their order.
pub open spec fn frame(window: Window, text: Text) -> Seq<DrawCommand> {
    seq![
        DrawCommand::ClearBackground(Color::ray_white()),
        centered_square(window),
        greeting(text),
        DrawCommand::Present,
    ]
}

/// The state of the render loop.
#[derive(Debug, PartialEq, Eq)]
pub enum RenderLoop {
    /// Frames are drawn with the bundle.
    Running { window: Window, text: Text },
    /// The window was asked to close. The loop has ended and holds nothing.
    Closing,
}

/// What one turn of the loop comes to.
#[derive(Debug, PartialEq, Eq)]
pub struct Turn {
    pub state: RenderLoop,
    /// The calls that draw this frame; none where no frame is drawn.
    pub draw: Vec<DrawCommand>,
    /// Allocations to unload now, in this order.
    pub release: Vec<Resource>,
}

/// The allocations that the loop holds, oldest first.
pub open spec fn held(state: RenderLoop) -> Seq<Resource> {
    match state {
        RenderLoop::Running { text, .. } => text.resources(),
        RenderLoop::Closing => Seq::empty(),
    }
}

/// The state after one turn in which the window reported `close_requested`.
pub open spec fn next_state(state: RenderLoop, close_requested: bool) -> RenderLoop {
    match state {
        RenderLoop::Running { window, text } => if close_requested {
            RenderLoop::Closing
        } else {
            state
        },
        RenderLoop::Closing => RenderLoop::Closing,
    }
}

/// What is drawn in that turn.
pub open spec fn drawn(state: RenderLoop, close_requested: bool) -> Seq<DrawCommand> {
    match state {
        RenderLoop::Running { window, text } => if close_requested {
            Seq::empty()
        } else {
            frame(window, text)
        },
        RenderLoop::Closing => Seq::empty(),
    }
}

/// What is released in that turn, in the order of release: the youngest
/// allocation first.
pub open spec fn released(state: RenderLoop, close_requested: bool) -> Seq<Resource> {
    match state {
        RenderLoop::Running { window, text } => if close_requested {
            text.resources().reverse()
        } else {
            Seq::empty()
        },
        RenderLoop::Closing => Seq::empty(),
    }
}

impl RenderLoop {
    /// Enters the loop with a loaded bundle.
    pub fn new(window: Window, text: Text) -> (state: RenderLoop)
        ensures
            state == (RenderLoop::Running { window, text }),
    {
        RenderLoop::Running { window, text }
    }

    /// How many backend allocations the loop holds.
    pub fn outstanding(&self) -> (count: usize)
        ensures
            count == held(*self).len(),
    {
        match self {
            RenderLoop::Running { .. } => 3,
            RenderLoop::Closing => 0,
        }
    }

    /// Whether the loop goes on.
    pub fn is_running(&self) -> (running: bool)
        ensures
            running == (*self is Running),
    {
        match self {
            RenderLoop::Running { .. } => true,
            RenderLoop::Closing => false,
        }
    }

    /// One turn of the loop. `close_requested` is what the window reported
    /// when it was polled at the start of the turn.
    ///
    /// While the loop runs and no close is requested, one frame is drawn: the
    /// background, the square, the greeting, then the frame is shown. On a
    /// close request nothing is drawn, the loop ends, and all that the
    /// bundle holds is released. After that no turn does anything.
    pub fn step(self, close_requested: bool) -> (turn: Turn)
        ensures
            turn.state == next_state(self, close_requested),
            turn.draw@ == drawn(self, close_requested),
            turn.release@ == released(self, close_requested),
    {
        match self {
            RenderLoop::Running { window, text } => {
                if close_requested {
                    let mut release: Vec<Resource> = Vec::new();
                    release.push(Resource::Shader { id: text.1.id });
                    release.push(Resource::Texture { id: text.0.texture.id });
                    release.push(text.0.glyphs.release());
                    assert(release@ =~= text.resources().reverse());
                    Turn { state: RenderLoop::Closing, draw: Vec::new(), release }
                } else {
                    let mut draw: Vec<DrawCommand> = Vec::new();
                    draw.push(DrawCommand::ClearBackground(Color::ray_white()));
                    draw.push(
                        DrawCommand::Rectangle {
                            x: window.width / 2 - SQUARE_SIDE / 2,
                            y: window.height / 2 - SQUARE_SIDE / 2,
                            width: SQUARE_SIDE,
                            height: SQUARE_SIDE,
                            color: Color::rust_orange(),
                        },
                    );
                    draw.push(
                        DrawCommand::Text {
                            texture: text.0.texture.id,
                            shader: text.1.id,
                            text: GREETING,
                            x: TEXT_X,
                            y: TEXT_Y,
                            size: TEXT_SIZE,
                            spacing: TEXT_SPACING,
                            color: Color::rust_orange(),
                        },
                    );
                    draw.push(DrawCommand::Present);
                    assert(draw@ =~= frame(window, text));
                    Turn { state: RenderLoop::Running { window, text }, draw, release: Vec::new() }
                }
            },
            RenderLoop::Closing => Turn {
                state: RenderLoop::Closing,
                draw: Vec::new(),
                release: Vec::new(),
            },
        }
    }
}

/// The state after the turns `polls`, one close report per turn.
pub open spec fn state_after(state: RenderLoop, polls: Seq<bool>) -> RenderLoop
    decreases polls.len(),
{
    if polls.len() == 0 {
        state
    } else {
        state_after(next_state(state, polls.first()), polls.drop_first())
    }
}

/// How many frames are drawn over the turns `polls`.
pub open spec fn frames_drawn(state: RenderLoop, polls: Seq<bool>) -> nat
    decreases polls.len(),
{
    if polls.len() == 0 {
        0
    } else {
        (if drawn(state, polls.first()).len() > 0 {
            1nat
        } else {
            0nat
        }) + frames_drawn(next_state(state, polls.first()), polls.drop_first())
    }
}

/// How many allocations are released over the turns `polls`.
pub open spec fn releases(state: RenderLoop, polls: Seq<bool>) -> nat
    decreases polls.len(),
{
    if polls.len() == 0 {
        0
    } else {
        released(state, polls.first()).len() + releases(
            next_state(state, polls.first()),
            polls.drop_first(),
        )
    }
}

/// How many turns pass before the first close report.
pub open spec fn turns_before_close(polls: Seq<bool>) -> nat
    decreases polls.len(),
{
    if polls.len() == 0 || polls.first() {
        0
    } else {
        1 + turns_before_close(polls.drop_first())
    }
}

/// Every allocation is accounted for in every turn: what is held after the
/// turn, followed by what the turn released (the oldest first), is what was
/// held before.
pub proof fn lemma_turn_conserves(state: RenderLoop, close_requested: bool)
    ensures
        held(next_state(state, close_requested)) + released(state, close_requested).reverse()
            == held(state),
{
    let after = held(next_state(state, close_requested)) + released(
        state,
        close_requested,
    ).reverse();
    assert(after =~= held(state));
}

/// A close request ends the loop at once: no frame is drawn in that turn,
/// and everything held is released, the youngest allocation first.
pub proof fn lemma_close_ends_loop(state: RenderLoop)
    ensures
        next_state(state, true) == RenderLoop::Closing,
        drawn(state, true).len() == 0,
        released(state, true) == held(state).reverse(),
        held(next_state(state, true)).len() == 0,
{
    assert(released(state, true) =~= held(state).reverse());
}

/// Once the loop has ended no turn draws or releases anything.
pub proof fn lemma_closing_is_final(polls: Seq<bool>)
    ensures
        state_after(RenderLoop::Closing, polls) == RenderLoop::Closing,
        frames_drawn(RenderLoop::Closing, polls) == 0,
        releases(RenderLoop::Closing, polls) == 0,
    decreases polls.len(),
{
    if polls.len() > 0 {
        lemma_closing_is_final(polls.drop_first());
    }
}

/// A running loop draws one frame per turn up to the first close report and
/// none from then on. Where a close is reported at all, the loop ends
/// holding nothing and has released each allocation that it held once.
pub proof fn lemma_frames_until_close(state: RenderLoop, polls: Seq<bool>)
    requires
        state is Running,
    ensures
        frames_drawn(state, polls) == turns_before_close(polls),
        polls.contains(true) ==> {
            &&& state_after(state, polls) == RenderLoop::Closing
            &&& held(state_after(state, polls)).len() == 0
            &&& releases(state, polls) == held(state).len()
        },
        !polls.contains(true) ==> state_after(state, polls) == state && releases(state, polls) == 0,
    decreases polls.len(),
{
    if polls.len() > 0 {
        let rest = polls.drop_first();
        assert(polls.contains(true) <==> polls.first() || rest.contains(true)) by {
            if rest.contains(true) {
                let i = choose|i: int| 0 <= i < rest.len() && rest[i];
                assert(polls[i + 1]);
            }
            if polls.contains(true) && !polls.first() {
                let i = choose|i: int| 0 <= i < polls.len() && polls[i];
                assert(rest[i - 1]);
            }
        }
        if polls.first() {
            lemma_closing_is_final(rest);
        } else {
            lemma_frames_until_close(state, rest);
        }
    }
}

/// From an empty start to a closed window, every allocation that the
/// backend handed over while the bundle was loaded is released exactly once:
/// the releases of the load and of the render loop together are as many as
/// the acquisitions, and nothing is held at the end.
pub proof fn lemma_run_releases_all(
    options: SdfOptions,
    events: Seq<LoadEvent>,
    window: Window,
    polls: Seq<bool>,
)
    requires
        stage_after(LoadStage::Idle(options), events) is Loaded,
        polls.contains(true),
    ensures
        ({
            let text = stage_after(LoadStage::Idle(options), events)->Loaded_0;
            let entered = RenderLoop::Running { window, text };
            &&& crate::font::releases(LoadStage::Idle(options), events) + releases(entered, polls)
                == acquisitions(events)
            &&& held(state_after(entered, polls)).len() == 0
        }),
{
    let text = stage_after(LoadStage::Idle(options), events)->Loaded_0;
    lemma_releases_balance_acquisitions(LoadStage::Idle(options), events);
    lemma_frames_until_close(RenderLoop::Running { window, text }, polls);
}

} // verus!

//! The loading animation's state.
use vstd::prelude::*;
use crate::monitor::elapsed;

verus! {

/// The animation drawn while loading.
#[derive(Clone, Copy, PartialEq, Eq, Structural, Debug)]
pub enum LoadingStyle {
    Bounce,
    MultiBounce,
    Wave,
    Spinner,
    Bouncy,
}

impl Default for LoadingStyle {
    fn default() -> (r: LoadingStyle)
        ensures
            r == LoadingStyle::Bounce,
    {
        LoadingStyle::Bounce
    }
}

/// The most frames any style has.
pub const MAX_FRAMES: usize = 10;

/// The frames of a style's animation, in order.
pub open spec fn style_frames(s: LoadingStyle) -> Seq<&'static str> {
    match s {
        LoadingStyle::Bounce => seq![
            "\u{25cf}    ",
            " \u{25cf}   ",
            "  \u{25cf}  ",
            "   \u{25cf} ",
            "    \u{25cf}",
            "   \u{25cf} ",
            "  \u{25cf}  ",
            " \u{25cf}   ",
        ],
        LoadingStyle::MultiBounce => seq![
            "\u{25cf}   \u{25cb}   \u{25cb}",
            "\u{25cb}   \u{25cf}   \u{25cb}",
            "\u{25cb}   \u{25cb}   \u{25cf}",
            "\u{25cb}   \u{25cf}   \u{25cb}",
        ],
        LoadingStyle::Wave => seq![
            "\u{2801} \u{2802} \u{2804}",
            "\u{2802} \u{2804} \u{2802}",
            "\u{2804} \u{2802} \u{2801}",
            "\u{2802} \u{2801} \u{2802}",
        ],
        LoadingStyle::Spinner => seq![
            "\u{280b}",
            "\u{2819}",
            "\u{2839}",
            "\u{2838}",
            "\u{283c}",
            "\u{2834}",
            "\u{2826}",
            "\u{2827}",
            "\u{2807}",
            "\u{280f}",
        ],
        LoadingStyle::Bouncy => seq![
            "( \u{25cf}    )",
            "(  \u{25cf}   )",
            "(   \u{25cf}  )",
            "(    \u{25cf} )",
            "(     \u{25cf})",
            "(    \u{25cf} )",
            "(   \u{25cf}  )",
            "(  \u{25cf}   )",
            "( \u{25cf}    )",
            "(\u{25cf}     )",
        ],
    }
}

pub open spec fn frame_count(s: LoadingStyle) -> nat {
    style_frames(s).len()
}

impl LoadingStyle {
    /// The frames of this style's animation, in order.
    pub fn frames(&self) -> (r: Vec<&'static str>)
        ensures
            r@ == style_frames(*self),
    {
        match self {
            LoadingStyle::Bounce => vec![
                "\u{25cf}    ",
                " \u{25cf}   ",
                "  \u{25cf}  ",
                "   \u{25cf} ",
                "    \u{25cf}",
                "   \u{25cf} ",
                "  \u{25cf}  ",
                " \u{25cf}   ",
            ],
            LoadingStyle::MultiBounce => vec![
                "\u{25cf}   \u{25cb}   \u{25cb}",
                "\u{25cb}   \u{25cf}   \u{25cb}",
                "\u{25cb}   \u{25cb}   \u{25cf}",
                "\u{25cb}   \u{25cf}   \u{25cb}",
            ],
            LoadingStyle::Wave => vec![
                "\u{2801} \u{2802} \u{2804}",
                "\u{2802} \u{2804} \u{2802}",
                "\u{2804} \u{2802} \u{2801}",
                "\u{2802} \u{2801} \u{2802}",
            ],
            LoadingStyle::Spinner => vec![
                "\u{280b}",
                "\u{2819}",
                "\u{2839}",
                "\u{2838}",
                "\u{283c}",
                "\u{2834}",
                "\u{2826}",
                "\u{2827}",
                "\u{2807}",
                "\u{280f}",
            ],
            LoadingStyle::Bouncy => vec![
                "( \u{25cf}    )",
                "(  \u{25cf}   )",
                "(   \u{25cf}  )",
                "(    \u{25cf} )",
                "(     \u{25cf})",
                "(    \u{25cf} )",
                "(   \u{25cf}  )",
                "(  \u{25cf}   )",
                "( \u{25cf}    )",
                "(\u{25cf}     )",
            ],
        }
    }
}

/// Loading animation state; times are in milliseconds.
pub struct LoadingState {
    pub frame_idx: usize,
    pub last_tick: u64,
    pub start_time: u64,
    pub duration: Option<u64>,
    pub tick_speed: u64,
    pub style: LoadingStyle,
}

/// The pause between frames unless set otherwise.
pub const DEFAULT_TICK_MS: u64 = 100;

impl LoadingState {
    pub open spec fn wf(&self) -> bool {
        self.frame_idx < MAX_FRAMES
    }

    /// Whether loading is over at `now`.
    pub open spec fn complete_at(&self, now: u64) -> bool {
        match self.duration {
            Some(d) => elapsed(self.start_time, now) >= d,
            None => false,
        }
    }

    pub open spec fn new_spec(duration: u64, now: u64) -> LoadingState {
        LoadingState {
            frame_idx: 0,
            last_tick: now,
            start_time: now,
            duration: Some(duration),
            tick_speed: DEFAULT_TICK_MS,
            style: LoadingStyle::Bouncy,
        }
    }

    /// A loading state that completes `duration` after `now`.
    pub fn new(duration: u64, now: u64) -> (r: LoadingState)
        ensures
            r.wf(),
            r == LoadingState::new_spec(duration, now),
    {
        LoadingState {
            frame_idx: 0,
            last_tick: now,
            start_time: now,
            duration: Some(duration),
            tick_speed: DEFAULT_TICK_MS,
            style: LoadingStyle::Bouncy,
        }
    }

    /// A loading state that never completes on its own.
    pub fn indefinite(now: u64) -> (r: LoadingState)
        ensures
            r.wf(),
            r == (LoadingState {
                frame_idx: 0,
                last_tick: now,
                start_time: now,
                duration: None,
                tick_speed: DEFAULT_TICK_MS,
                style: LoadingStyle::Bouncy,
            }),
    {
        LoadingState {
            frame_idx: 0,
            last_tick: now,
            start_time: now,
            duration: None,
            tick_speed: DEFAULT_TICK_MS,
            style: LoadingStyle::Bouncy,
        }
    }

    /// The same state with another animation style.
    pub fn style(self, style: LoadingStyle) -> (r: LoadingState)
        requires
            self.wf(),
        ensures
            r.wf(),
            r == (LoadingState { style, ..self }),
    {
        LoadingState { style, ..self }
    }

    /// The same state with another pause between frames.
    pub fn with_tick_speed(self, speed: u64) -> (r: LoadingState)
        requires
            self.wf(),
        ensures
            r.wf(),
            r == (LoadingState { tick_speed: speed, ..self }),
    {
        LoadingState { tick_speed: speed, ..self }
    }

    /// Whether loading is over at `now`; an indefinite state never is.
    pub fn is_complete(&self, now: u64) -> (r: bool)
        ensures
            r == self.complete_at(now),
    {
        match self.duration {
            Some(d) => now.saturating_sub(self.start_time) >= d,
            None => false,
        }
    }

    /// Ends loading at once.
    pub fn complete(&mut self)
        requires
            old(self).wf(),
        ensures
            final(self).wf(),
            *final(self) == (LoadingState { duration: Some(0), ..*old(self) }),
    {
        self.duration = Some(0);
    }

    /// Moves to the next frame once a pause has passed since the last move.
    pub fn tick(&mut self, now: u64)
        requires
            old(self).wf(),
        ensures
            final(self).wf(),
            if elapsed(old(self).last_tick, now) >= old(self).tick_speed {
                *final(self) == (LoadingState {
                    frame_idx: ((old(self).frame_idx as int + 1) % (frame_count(old(self).style) as int)) as usize,
                    last_tick: now,
                    ..*old(self)
                })
            } else {
                *final(self) == *old(self)
            },
    {
        if now.saturating_sub(self.last_tick) >= self.tick_speed {
            let frames = self.style.frames();
            self.frame_idx = (self.frame_idx + 1) % frames.len();
            self.last_tick = now;
        }
    }

    /// The frame to draw.
    pub fn current_frame(&self) -> (r: &'static str)
        ensures
            r == style_frames(self.style)[(self.frame_idx as int) % (frame_count(self.style) as int)],
    {
        let frames = self.style.frames();
        frames[self.frame_idx % frames.len()]
    }
}

} // verus!

//! The typewriter animation's state: phrases typed out, paused on, deleted.
use vstd::prelude::*;
use crate::monitor::elapsed;
use crate::text::{chars_of, string_of};

verus! {

/// Where the animation stands.
#[derive(Clone, Copy, PartialEq, Eq, Structural, Debug)]
pub enum AnimationState {
    Typing,
    PausedAfterType,
    Deleting,
    PausedAfterDelete,
}

/// Timing of the animation, in milliseconds.
#[derive(Clone, Copy, PartialEq, Eq, Structural, Debug)]
pub struct Config {
    pub type_speed: u64,
    pub delete_speed: u64,
    pub pause_after_type: u64,
    pub pause_after_delete: u64,
}

impl Default for Config {
    fn default() -> (r: Config)
        ensures
            r == (Config {
                type_speed: 50,
                delete_speed: 30,
                pause_after_type: 2000,
                pause_after_delete: 300,
            }),
    {
        Config { type_speed: 50, delete_speed: 30, pause_after_type: 2000, pause_after_delete: 300 }
    }
}

/// The wait before the next step in a given state.
pub open spec fn delay_of(c: Config, s: AnimationState) -> u64 {
    match s {
        AnimationState::Typing => c.type_speed,
        AnimationState::Deleting => c.delete_speed,
        AnimationState::PausedAfterType => c.pause_after_type,
        AnimationState::PausedAfterDelete => c.pause_after_delete,
    }
}

/// Typewriter animation state; times are in milliseconds.
pub struct TypewriterState {
    pub phrases: Vec<Vec<char>>,
    pub config: Config,
    pub animation_state: AnimationState,
    pub phrase_idx: usize,
    pub char_idx: usize,
    pub display_text: String,
    pub last_tick: u64,
}

impl TypewriterState {
    /// The shown text is always the first `char_idx` characters of the
    /// current phrase.
    pub open spec fn wf(&self) -> bool {
        self.phrases@.len() == 0 ==> self.display_text@.len() == 0 && self.char_idx == 0
            && self.phrase_idx == 0
    }

    pub open spec fn shows_prefix(&self) -> bool {
        &&& self.phrase_idx < self.phrases@.len()
        &&& self.char_idx <= self.phrases@[self.phrase_idx as int]@.len()
        &&& self.display_text@ == self.phrases@[self.phrase_idx as int]@.take(self.char_idx as int)
        &&& self.animation_state == AnimationState::PausedAfterDelete ==> self.char_idx == 0
    }

    pub open spec fn inv(&self) -> bool {
        self.wf() && (self.phrases@.len() > 0 ==> self.shows_prefix())
    }

    /// A typewriter over `phrases` that starts typing the first one.
    pub fn new(phrases: &[&str], now: u64) -> (r: TypewriterState)
        ensures
            r.inv(),
            r.phrases@.len() == phrases@.len(),
            forall|i: int| 0 <= i < phrases@.len() ==> #[trigger] r.phrases@[i]@ == phrases@[i]@,
            r.config == (Config {
                type_speed: 50,
                delete_speed: 30,
                pause_after_type: 2000,
                pause_after_delete: 300,
            }),
            r.animation_state == AnimationState::Typing,
            r.phrase_idx == 0,
            r.char_idx == 0,
            r.display_text@.len() == 0,
            r.last_tick == now,
    {
        let mut all: Vec<Vec<char>> = Vec::new();
        let mut i: usize = 0;
        while i < phrases.len()
            invariant
                i <= phrases@.len(),
                all@.len() == i,
                forall|k: int| 0 <= k < i ==> #[trigger] all@[k]@ == phrases@[k]@,
            decreases phrases@.len() - i,
        {
            all.push(chars_of(phrases[i]));
            i += 1;
        }
        let empty: Vec<char> = Vec::new();
        let display_text = string_of(empty.as_slice());
        let r = TypewriterState {
            phrases: all,
            config: Config::default(),
            animation_state: AnimationState::Typing,
            phrase_idx: 0,
            char_idx: 0,
            display_text,
            last_tick: now,
        };
        assert(r.phrases@.len() > 0 ==> r.phrases@[0]@.take(0) =~= Seq::<char>::empty());
        r
    }

    /// The text shown now.
    pub fn display_text(&self) -> (r: &str)
        ensures
            r@ == self.display_text@,
    {
        self.display_text.as_str()
    }

    /// Takes the next step once the wait for the current state has passed;
    /// with no phrases nothing happens.
    pub fn tick(&mut self, now: u64)
        requires
            old(self).inv(),
        ensures
            final(self).inv(),
            old(self).phrases@.len() == 0 || elapsed(old(self).last_tick, now) < delay_of(
                old(self).config,
                old(self).animation_state,
            ) ==> *final(self) == *old(self),
            old(self).phrases@.len() > 0 && elapsed(old(self).last_tick, now) >= delay_of(
                old(self).config,
                old(self).animation_state,
            ) ==> final(self).last_tick == now && final(self).stepped_from(*old(self)),
    {
        if self.phrases.len() == 0 {
            return;
        }
        let delay = match self.animation_state {
            AnimationState::Typing => self.config.type_speed,
            AnimationState::Deleting => self.config.delete_speed,
            AnimationState::PausedAfterType => self.config.pause_after_type,
            AnimationState::PausedAfterDelete => self.config.pause_after_delete,
        };
        if now.saturating_sub(self.last_tick) < delay {
            return;
        }
        self.last_tick = now;
        self.advance();
    }

    /// One step of the animation from `prev`: type a character until the
    /// phrase is complete, pause, delete back to nothing, pause, then move
    /// to the next phrase (after the last, the first).
    pub open spec fn stepped_from(&self, prev: TypewriterState) -> bool {
        let len = prev.phrases@[prev.phrase_idx as int]@.len();
        &&& self.phrases == prev.phrases
        &&& self.config == prev.config
        &&& match prev.animation_state {
            AnimationState::Typing => if prev.char_idx < len {
                self.char_idx == prev.char_idx + 1 && self.animation_state == AnimationState::Typing
                    && self.phrase_idx == prev.phrase_idx
            } else {
                self.char_idx == prev.char_idx && self.animation_state
                    == AnimationState::PausedAfterType && self.phrase_idx == prev.phrase_idx
            },
            AnimationState::PausedAfterType => self.char_idx == prev.char_idx
                && self.animation_state == AnimationState::Deleting && self.phrase_idx
                == prev.phrase_idx,
            AnimationState::Deleting => if prev.char_idx > 0 {
                self.char_idx == prev.char_idx - 1 && self.animation_state
                    == AnimationState::Deleting && self.phrase_idx == prev.phrase_idx
            } else {
                self.char_idx == prev.char_idx && self.animation_state
                    == AnimationState::PausedAfterDelete && self.phrase_idx == prev.phrase_idx
            },
            AnimationState::PausedAfterDelete => self.char_idx == prev.char_idx
                && self.animation_state == AnimationState::Typing && self.phrase_idx as int == (
                prev.phrase_idx as int + 1) % (prev.phrases@.len() as int),
        }
    }

    fn advance(&mut self)
        requires
            old(self).inv(),
            old(self).phrases@.len() > 0,
        ensures
            final(self).inv(),
            final(self).stepped_from(*old(self)),
            final(self).last_tick == old(self).last_tick,
    {
        let len = self.phrases[self.phrase_idx].len();
        match self.animation_state {
            AnimationState::Typing => {
                if self.char_idx < len {
                    self.char_idx += 1;
                    self.display_text = string_of(
                        slice_prefix(self.phrases[self.phrase_idx].as_slice(), self.char_idx),
                    );
                } else {
                    self.animation_state = AnimationState::PausedAfterType;
                }
            },
            AnimationState::PausedAfterType => {
                self.animation_state = AnimationState::Deleting;
            },
            AnimationState::Deleting => {
                if self.char_idx > 0 {
                    self.char_idx -= 1;
                    self.display_text = string_of(
                        slice_prefix(self.phrases[self.phrase_idx].as_slice(), self.char_idx),
                    );
                } else {
                    self.animation_state = AnimationState::PausedAfterDelete;
                }
            },
            AnimationState::PausedAfterDelete => {
                let count = self.phrases.len();
                let next = (self.phrase_idx + 1) % count;
                proof {
                    assert(self.char_idx == 0);
                    assert(self.phrases@[next as int]@.take(0) =~= Seq::<char>::empty());
                    assert(self.display_text@ =~= Seq::<char>::empty());
                }
                self.phrase_idx = next;
                self.animation_state = AnimationState::Typing;
            },
        }
    }
}

/// The first `n` characters of `cs`.
fn slice_prefix(cs: &[char], n: usize) -> (r: &[char])
    requires
        n <= cs@.len(),
    ensures
        r@ == cs@.take(n as int),
{
    let (head, _) = cs.split_at(n);
    head
}

} // verus!

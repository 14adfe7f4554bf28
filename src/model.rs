//! The application model and its reaction to messages.
use vstd::prelude::*;
use crate::msg::{Msg, ViewId};
use crate::widgets::loading::LoadingState;

verus! {

/// How long the loading screen lasts, in milliseconds.
pub const LOADING_MS: u64 = 3000;

/// Application state.
pub struct Model {
    pub quit: bool,
    pub current_view: ViewId,
    pub redraw: bool,
    pub loading: LoadingState,
    pub width: u16,
    pub height: u16,
}

impl Model {
    pub open spec fn wf(&self) -> bool {
        self.loading.wf()
    }

    /// The model at startup (`now`): loading, on an 80 by 24 terminal.
    pub fn new(now: u64) -> (r: Model)
        ensures
            r.wf(),
            !r.quit,
            r.current_view == ViewId::Loading,
            r.redraw,
            r.loading == LoadingState::new_spec(LOADING_MS, now),
            r.width == 80,
            r.height == 24,
    {
        Model {
            quit: false,
            current_view: ViewId::Loading,
            redraw: true,
            loading: LoadingState::new(LOADING_MS, now),
            width: 80,
            height: 24,
        }
    }

    /// Records new terminal dimensions.
    pub fn set_size(&mut self, width: u16, height: u16)
        ensures
            final(self).width == width,
            final(self).height == height,
            final(self).redraw,
            final(self).quit == old(self).quit,
            final(self).current_view == old(self).current_view,
            final(self).loading == old(self).loading,
    {
        self.width = width;
        self.height = height;
        self.redraw = true;
    }

    /// Leaves the loading screen for home once loading is over at `now`.
    pub fn check_loading_complete(&mut self, now: u64)
        ensures
            final(self).quit == old(self).quit,
            final(self).loading == old(self).loading,
            final(self).width == old(self).width,
            final(self).height == old(self).height,
            if old(self).current_view == ViewId::Loading && old(self).loading.complete_at(now) {
                final(self).current_view == ViewId::Home && final(self).redraw
            } else {
                final(self).current_view == old(self).current_view && final(self).redraw
                    == old(self).redraw
            },
    {
        if self.current_view == ViewId::Loading && self.loading.is_complete(now) {
            self.current_view = ViewId::Home;
            self.redraw = true;
        }
    }

    /// Reacts to a message at `now`. Every message asks for a redraw; quit,
    /// navigation and going back change the view; a tick on the loading
    /// screen advances its animation and may end it.
    pub fn update(&mut self, msg: Option<Msg>, now: u64) -> (r: Option<Msg>)
        requires
            old(self).wf(),
        ensures
            r is None,
            final(self).wf(),
            final(self).redraw,
            final(self).width == old(self).width,
            final(self).height == old(self).height,
            final(self).quit == (old(self).quit || msg matches Some(Msg::Quit)),
            match msg {
                Some(Msg::NavigateTo(v)) => final(self).current_view == v,
                Some(Msg::GoBack) => final(self).current_view == ViewId::Home,
                Some(Msg::Tick) => old(self).current_view == ViewId::Loading
                    ==> final(self).current_view == if final(self).loading.complete_at(now) {
                    ViewId::Home
                } else {
                    ViewId::Loading
                },
                _ => final(self).current_view == old(self).current_view,
            },
            !(msg matches Some(Msg::Tick) && old(self).current_view == ViewId::Loading)
                ==> final(self).loading == old(self).loading,
    {
        self.redraw = true;
        match msg {
            Some(Msg::Quit) => {
                self.quit = true;
            },
            Some(Msg::NavigateTo(view_id)) => {
                self.current_view = view_id;
            },
            Some(Msg::GoBack) => {
                self.current_view = ViewId::Home;
            },
            Some(Msg::Tick) => {
                if self.current_view == ViewId::Loading {
                    self.loading.tick(now);
                    self.check_loading_complete(now);
                }
            },
            _ => {},
        }
        None
    }
}

} // verus!

//! Views, their navigation entries and the result of handling a key.
use vstd::prelude::*;
use vstd::view::View as _;

verus! {

/// Which view is active.
#[derive(Clone, Copy, PartialEq, Eq, Structural, Debug)]
pub enum View {
    Loading,
    Home,
    Resume,
    Blog,
    Projects,
    Contact,
}

/// What a view did with a key.
#[derive(Clone, Copy, PartialEq, Eq, Structural, Debug)]
pub enum ViewResult {
    Handled,
    Ignored,
    Back,
    NavigateTo(View),
    Quit,
}

/// A navigable view's menu entry.
#[derive(Clone, Copy, Debug)]
pub struct ViewConfig {
    pub view: View,
    pub shortcut: char,
    pub label: &'static str,
    pub description: &'static str,
}

/// The number of navigable views.
pub const VIEW_COUNT: usize = 5;

/// The navigable views in menu order.
pub open spec fn menu_view(i: int) -> View {
    if i == 0 {
        View::Home
    } else if i == 1 {
        View::Resume
    } else if i == 2 {
        View::Blog
    } else if i == 3 {
        View::Projects
    } else {
        View::Contact
    }
}

pub open spec fn shortcut_of(v: View) -> Option<char> {
    match v {
        View::Home => Some('h'),
        View::Resume => Some('r'),
        View::Blog => Some('b'),
        View::Projects => Some('p'),
        View::Contact => Some('c'),
        View::Loading => None,
    }
}

pub open spec fn view_for_shortcut(c: char) -> Option<View> {
    if c == 'h' {
        Some(View::Home)
    } else if c == 'r' {
        Some(View::Resume)
    } else if c == 'b' {
        Some(View::Blog)
    } else if c == 'p' {
        Some(View::Projects)
    } else if c == 'c' {
        Some(View::Contact)
    } else {
        None
    }
}

/// The menu entries of the navigable views, in menu order.
pub fn views() -> (r: Vec<ViewConfig>)
    ensures
        r@.len() == VIEW_COUNT,
        forall|i: int|
            0 <= i < VIEW_COUNT ==> #[trigger] r@[i].view == menu_view(i) && shortcut_of(
                menu_view(i),
            ) == Some(r@[i].shortcut),
{
    vec![
        ViewConfig {
            view: View::Home,
            shortcut: 'h',
            label: "Home",
            description: "You are here",
        },
        ViewConfig {
            view: View::Resume,
            shortcut: 'r',
            label: "Resume",
            description: "View my professional experience",
        },
        ViewConfig {
            view: View::Blog,
            shortcut: 'b',
            label: "Blog",
            description: "Read my technical articles",
        },
        ViewConfig {
            view: View::Projects,
            shortcut: 'p',
            label: "Projects",
            description: "Explore my work",
        },
        ViewConfig {
            view: View::Contact,
            shortcut: 'c',
            label: "Contact",
            description: "Get in touch",
        },
    ]
}

impl View {
    /// The view whose menu entry has shortcut `c`.
    pub fn from_shortcut(c: char) -> (r: Option<View>)
        ensures
            r == view_for_shortcut(c),
    {
        let all = views();
        let mut i: usize = 0;
        while i < all.len()
            invariant
                all@.len() == VIEW_COUNT,
                forall|k: int|
                    0 <= k < VIEW_COUNT ==> #[trigger] all@[k].view == menu_view(k) && shortcut_of(
                        menu_view(k),
                    ) == Some(all@[k].shortcut),
                i <= VIEW_COUNT,
                forall|k: int| 0 <= k < i ==> shortcut_of(menu_view(k)) != Some(c),
            decreases VIEW_COUNT - i,
        {
            if all[i].shortcut == c {
                return Some(all[i].view);
            }
            i += 1;
        }
        assert(shortcut_of(menu_view(0)) != Some(c));
        assert(shortcut_of(menu_view(1)) != Some(c));
        assert(shortcut_of(menu_view(2)) != Some(c));
        assert(shortcut_of(menu_view(3)) != Some(c));
        assert(shortcut_of(menu_view(4)) != Some(c));
        None
    }

    /// The menu entry of this view, if it is navigable.
    pub fn config(self) -> (r: Option<ViewConfig>)
        ensures
            match r {
                Some(cfg) => cfg.view == self && shortcut_of(self) == Some(cfg.shortcut),
                None => shortcut_of(self) is None,
            },
    {
        let all = views();
        let mut i: usize = 0;
        while i < all.len()
            invariant
                all@.len() == VIEW_COUNT,
                forall|k: int|
                    0 <= k < VIEW_COUNT ==> #[trigger] all@[k].view == menu_view(k) && shortcut_of(
                        menu_view(k),
                    ) == Some(all@[k].shortcut),
                i <= VIEW_COUNT,
                forall|k: int| 0 <= k < i ==> menu_view(k) != self,
            decreases VIEW_COUNT - i,
        {
            if all[i].view == self {
                return Some(all[i]);
            }
            i += 1;
        }
        assert(menu_view(0) != self && menu_view(1) != self && menu_view(2) != self);
        assert(menu_view(3) != self && menu_view(4) != self);
        None
    }
}

} // verus!

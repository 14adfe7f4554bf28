//! The site's content: resume, bio, logo, phrases, menu, posts and projects.
use vstd::prelude::*;
use crate::text::chars_of;

verus! {

/// A blog post.
#[derive(Debug, Clone)]
pub struct PostData {
    pub slug: String,
    pub title: String,
    pub excerpt: String,
    pub tags: Vec<String>,
    pub content: String,
    pub published: String,
}

/// A project.
#[derive(Debug, Clone)]
pub struct ProjectData {
    pub slug: String,
    pub name: String,
    pub excerpt: String,
    pub description: String,
    pub tech_stack: Vec<String>,
    pub url: Option<String>,
    pub github_url: Option<String>,
    pub featured: bool,
}

/// A menu entry as the content describes it.
#[derive(Debug, Clone)]
pub struct MenuItemData {
    pub key: String,
    pub label: String,
    pub desc: String,
}

/// All of the site's content.
#[derive(Debug, Clone)]
pub struct ContentData {
    pub resume: String,
    pub bio: String,
    pub logo: String,
    pub typewriter_phrases: Vec<String>,
    pub menu_items: Vec<MenuItemData>,
    pub posts: Vec<PostData>,
    pub projects: Vec<ProjectData>,
}

/// A blog post, borrowed from the content.
pub struct Post<'a> {
    pub slug: &'a str,
    pub title: &'a str,
    pub excerpt: &'a str,
    pub tags: Vec<&'a str>,
    pub content: &'a str,
    pub published: &'a str,
}

/// A project, borrowed from the content.
pub struct Project<'a> {
    pub slug: &'a str,
    pub name: &'a str,
    pub excerpt: &'a str,
    pub description: &'a str,
    pub tech_stack: Vec<&'a str>,
    pub url: Option<&'a str>,
    pub github_url: Option<&'a str>,
    pub featured: bool,
}

/// A home-menu entry, borrowed from the content.
pub struct MenuItem<'a> {
    pub key: char,
    pub label: &'a str,
    pub desc: &'a str,
}

/// The hotkey of a menu entry: the first character of its key, or `?`.
pub open spec fn hotkey_of(key: Seq<char>) -> char {
    if key.len() > 0 {
        key[0]
    } else {
        '?'
    }
}

fn borrow_all<'a>(v: &'a Vec<String>) -> (r: Vec<&'a str>)
    ensures
        r@.len() == v@.len(),
        forall|i: int| 0 <= i < v@.len() ==> #[trigger] r@[i]@ == v@[i]@,
{
    let mut out: Vec<&'a str> = Vec::new();
    let mut i: usize = 0;
    while i < v.len()
        invariant
            i <= v@.len(),
            out@.len() == i,
            forall|k: int| 0 <= k < i ==> #[trigger] out@[k]@ == v@[k]@,
        decreases v@.len() - i,
    {
        out.push(v[i].as_str());
        i += 1;
    }
    out
}

fn borrow_opt<'a>(o: &'a Option<String>) -> (r: Option<&'a str>)
    ensures
        match o {
            Some(s) => r matches Some(t) && t@ == s@,
            None => r is None,
        },
{
    match o {
        Some(s) => Some(s.as_str()),
        None => None,
    }
}

impl ContentData {
    /// The resume, in markdown.
    pub fn resume(&self) -> (r: &str)
        ensures
            r@ == self.resume@,
    {
        self.resume.as_str()
    }

    /// The bio shown on the home screen.
    pub fn bio(&self) -> (r: &str)
        ensures
            r@ == self.bio@,
    {
        self.bio.as_str()
    }

    /// The text-art logo.
    pub fn logo(&self) -> (r: &str)
        ensures
            r@ == self.logo@,
    {
        self.logo.as_str()
    }

    /// The phrases of the home screen's typewriter.
    pub fn typewriter_phrases(&self) -> (r: Vec<&str>)
        ensures
            r@.len() == self.typewriter_phrases@.len(),
            forall|i: int|
                0 <= i < r@.len() ==> #[trigger] r@[i]@ == self.typewriter_phrases@[i]@,
    {
        borrow_all(&self.typewriter_phrases)
    }

    /// The blog posts.
    pub fn posts(&self) -> (r: &[PostData])
        ensures
            r@ == self.posts@,
    {
        self.posts.as_slice()
    }

    /// The projects.
    pub fn projects(&self) -> (r: &[ProjectData])
        ensures
            r@ == self.projects@,
    {
        self.projects.as_slice()
    }

    /// The blog posts, borrowed, in order.
    pub fn post_list(&self) -> (r: Vec<Post<'_>>)
        ensures
            r@.len() == self.posts@.len(),
            forall|i: int|
                0 <= i < r@.len() ==> {
                    let p = #[trigger] self.posts@[i];
                    &&& r@[i].slug@ == p.slug@
                    &&& r@[i].title@ == p.title@
                    &&& r@[i].excerpt@ == p.excerpt@
                    &&& r@[i].content@ == p.content@
                    &&& r@[i].published@ == p.published@
                    &&& r@[i].tags@.len() == p.tags@.len()
                },
    {
        let mut out: Vec<Post<'_>> = Vec::new();
        let mut i: usize = 0;
        while i < self.posts.len()
            invariant
                i <= self.posts@.len(),
                out@.len() == i,
                forall|k: int|
                    0 <= k < i ==> {
                        let p = #[trigger] self.posts@[k];
                        &&& out@[k].slug@ == p.slug@
                        &&& out@[k].title@ == p.title@
                        &&& out@[k].excerpt@ == p.excerpt@
                        &&& out@[k].content@ == p.content@
                        &&& out@[k].published@ == p.published@
                        &&& out@[k].tags@.len() == p.tags@.len()
                    },
            decreases self.posts@.len() - i,
        {
            let p = &self.posts[i];
            out.push(
                Post {
                    slug: p.slug.as_str(),
                    title: p.title.as_str(),
                    excerpt: p.excerpt.as_str(),
                    tags: borrow_all(&p.tags),
                    content: p.content.as_str(),
                    published: p.published.as_str(),
                },
            );
            i += 1;
        }
        out
    }

    /// The projects, borrowed, in order.
    pub fn project_list(&self) -> (r: Vec<Project<'_>>)
        ensures
            r@.len() == self.projects@.len(),
            forall|i: int|
                0 <= i < r@.len() ==> {
                    let p = #[trigger] self.projects@[i];
                    &&& r@[i].slug@ == p.slug@
                    &&& r@[i].name@ == p.name@
                    &&& r@[i].description@ == p.description@
                    &&& r@[i].featured == p.featured
                    &&& r@[i].tech_stack@.len() == p.tech_stack@.len()
                    &&& (r@[i].url is Some <==> p.url is Some)
                    &&& (r@[i].github_url is Some <==> p.github_url is Some)
                },
    {
        let mut out: Vec<Project<'_>> = Vec::new();
        let mut i: usize = 0;
        while i < self.projects.len()
            invariant
                i <= self.projects@.len(),
                out@.len() == i,
                forall|k: int|
                    0 <= k < i ==> {
                        let p = #[trigger] self.projects@[k];
                        &&& out@[k].slug@ == p.slug@
                        &&& out@[k].name@ == p.name@
                        &&& out@[k].description@ == p.description@
                        &&& out@[k].featured == p.featured
                        &&& out@[k].tech_stack@.len() == p.tech_stack@.len()
                        &&& (out@[k].url is Some <==> p.url is Some)
                        &&& (out@[k].github_url is Some <==> p.github_url is Some)
                    },
            decreases self.projects@.len() - i,
        {
            let p = &self.projects[i];
            out.push(
                Project {
                    slug: p.slug.as_str(),
                    name: p.name.as_str(),
                    excerpt: p.excerpt.as_str(),
                    description: p.description.as_str(),
                    tech_stack: borrow_all(&p.tech_stack),
                    url: borrow_opt(&p.url),
                    github_url: borrow_opt(&p.github_url),
                    featured: p.featured,
                },
            );
            i += 1;
        }
        out
    }

    /// The home menu, each entry's hotkey taken from its key.
    pub fn menu(&self) -> (r: Vec<MenuItem<'_>>)
        ensures
            r@.len() == self.menu_items@.len(),
            forall|i: int|
                0 <= i < r@.len() ==> {
                    let m = #[trigger] self.menu_items@[i];
                    &&& r@[i].key == hotkey_of(m.key@)
                    &&& r@[i].label@ == m.label@
                    &&& r@[i].desc@ == m.desc@
                },
    {
        let mut out: Vec<MenuItem<'_>> = Vec::new();
        let mut i: usize = 0;
        while i < self.menu_items.len()
            invariant
                i <= self.menu_items@.len(),
                out@.len() == i,
                forall|k: int|
                    0 <= k < i ==> {
                        let m = #[trigger] self.menu_items@[k];
                        &&& out@[k].key == hotkey_of(m.key@)
                        &&& out@[k].label@ == m.label@
                        &&& out@[k].desc@ == m.desc@
                    },
            decreases self.menu_items@.len() - i,
        {
            let m = &self.menu_items[i];
            let key_chars = chars_of(m.key.as_str());
            let key = if key_chars.len() > 0 {
                key_chars[0]
            } else {
                '?'
            };
            let entry = MenuItem { key, label: m.label.as_str(), desc: m.desc.as_str() };
            assert(entry.key == hotkey_of(m.key@));
            out.push(entry);
            assert(out@.len() == i + 1);
            i += 1;
        }
        out
    }
}

} // verus!

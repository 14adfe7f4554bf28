use whoami_gateway::content::{ContentData, MenuItemData, PostData, ProjectData};

fn sample() -> ContentData {
    ContentData {
        resume: "# Me".to_string(),
        bio: "Builder of things".to_string(),
        logo: "[]".to_string(),
        typewriter_phrases: vec!["one".to_string(), "two".to_string()],
        menu_items: vec![
            MenuItemData { key: "r".to_string(), label: "Resume".to_string(), desc: "cv".to_string() },
            MenuItemData { key: String::new(), label: "Odd".to_string(), desc: String::new() },
        ],
        posts: vec![PostData {
            slug: "first".to_string(),
            title: "First".to_string(),
            excerpt: "ex".to_string(),
            tags: vec!["rust".to_string(), "tui".to_string()],
            content: "body".to_string(),
            published: "2024-01-01".to_string(),
        }],
        projects: vec![ProjectData {
            slug: "gw".to_string(),
            name: "Gateway".to_string(),
            excerpt: "e".to_string(),
            description: "d".to_string(),
            tech_stack: vec!["Rust".to_string()],
            url: None,
            github_url: Some("https://example.invalid/gw".to_string()),
            featured: true,
        }],
    }
}

#[test]
fn content_accessors() {
    let c = sample();
    assert_eq!(c.resume(), "# Me");
    assert_eq!(c.bio(), "Builder of things");
    assert_eq!(c.logo(), "[]");
    assert_eq!(c.typewriter_phrases(), vec!["one", "two"]);
    assert_eq!(c.posts().len(), 1);
    assert_eq!(c.projects()[0].name, "Gateway");
}

#[test]
fn content_views() {
    let c = sample();
    let posts = c.post_list();
    assert_eq!(posts[0].title, "First");
    assert_eq!(posts[0].tags, vec!["rust", "tui"]);
    let projects = c.project_list();
    assert_eq!(projects[0].url, None);
    assert_eq!(projects[0].github_url, Some("https://example.invalid/gw"));
    assert!(projects[0].featured);
    let menu = c.menu();
    assert_eq!(menu[0].key, 'r');
    assert_eq!(menu[1].key, '?');
    assert_eq!(menu[1].label, "Odd");
}

//! The view models: state and key handling of each screen.
pub mod blog;
pub mod contact;
pub mod home;
pub mod post;
pub mod projects;
pub mod resume;

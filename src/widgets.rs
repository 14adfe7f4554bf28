//! State and builders of the interface's widgets.
pub mod code_block;
pub mod loading;
pub mod markdown;
pub mod selectable_item;
pub mod page_layout;
pub mod tag_list;
pub mod text_input;
pub mod text_wrap;
pub mod typewriter;

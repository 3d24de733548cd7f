//! Completions offered to an editor.
pub mod completion_item;
pub mod completion_item_list;
pub mod completion_area;
pub mod completion_area_index;

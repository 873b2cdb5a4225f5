pub mod badge_select_panel;
pub mod debug_panel;
pub mod overview_panel;
pub mod search_panel;
pub mod task_note_panel;

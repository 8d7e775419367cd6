pub mod char_info;
pub mod console_color;
pub mod console_cursor_info;
pub mod console_font_info;
pub mod console_font_info_ex;
pub mod console_history_info;
pub mod console_read_control;
pub mod console_screen_buffer_info;
pub mod console_screen_buffer_info_ex;
pub mod console_selection_info;
pub mod coord;
pub mod focus_event;
pub mod handle;
pub mod input_event;
pub mod input_record;
pub mod menu_event;
pub mod small_rect;
pub mod window_buffer_size_event;

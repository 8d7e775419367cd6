pub use crate::structs::coord::Coord;
pub use crate::structs::input_event::ButtonState;
pub use crate::structs::input_event::ControlKeyState;
pub use crate::structs::input_event::EventFlags;
pub use crate::structs::input_event::KeyEventRecord;
pub use crate::structs::input_event::MouseEventRecord;
pub use crate::structs::input_record::InputRecord;
pub use crate::structs::input_record::InputRecord::FocusEvent;
pub use crate::structs::input_record::InputRecord::KeyEvent;
pub use crate::structs::input_record::InputRecord::MenuEvent;
pub use crate::structs::input_record::InputRecord::MouseEvent;
pub use crate::structs::input_record::InputRecord::WindowBufferSizeEvent;

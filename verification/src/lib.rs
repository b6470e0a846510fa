mod editbuffer;
mod editor;
mod macrocommand;
mod prompt;
mod screen;
mod statusbar;
mod strutil;
mod widths;
mod window;

pub use editbuffer::{EditBuffer, FileError};
pub use editor::{AfterPrompt, EditMode, Editor, Key, KeyAction, ScriptAction};
pub use macrocommand::MacroCommand;
pub use prompt::Prompt;
pub use screen::Screen;
pub use statusbar::StatusBar;
pub use widths::char_display_width;
pub use window::Window;

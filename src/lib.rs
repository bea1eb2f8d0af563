pub mod language;
pub mod location;
pub mod diagnostics;
pub mod protocol;
pub mod dispatch;
pub mod terminal;
pub mod decimal;
pub mod output_message;

//! A minimal plain-text editor, modelled as a verified state machine.
//!
//! The library holds the whole editor session — the text buffer, the bound
//! file path, the font size and the auto-save timer — and every user command
//! (new, open, save, save-as, edits, font changes, timer ticks) as a
//! transition over that state. Dialogs, disk access and rendering belong to
//! the host shell, which feeds each outcome (a picked path, a read result, a
//! write result) back into the session as plain values.

pub mod input;
pub mod session;
pub mod status;

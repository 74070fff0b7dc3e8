//! A minimal native-windowing bootstrap: the window/context creation hints,
//! the error reporter, the extension loader's success rule, and the
//! single-shot window lifecycle — init, create, activate, load, loop,
//! terminate — as a verified state machine. The process shell performs each
//! requested native call and reports its outcome back; every decision is
//! made, and proved, here.

pub mod error;
pub mod extensions;
pub mod hints;
pub mod lifecycle;

//! Output-side logic of a command-line text-to-speech client: choosing the
//! audio format to request from the synthesis service, the streaming sink
//! that the synthesized audio is pushed through, and the choice of voices.

pub mod format;
pub mod quality;
pub mod sink;
pub mod voices;

pub mod analyzer;
pub mod applier;
pub mod center_note;
pub mod estimation;
pub mod files;
pub mod memory;
pub mod midi;
pub mod playback;
pub mod preview;
pub mod program;
pub mod session;
pub mod smf;
pub mod tempo;
pub mod tick;
pub mod types;

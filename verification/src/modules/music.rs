pub mod actions;
pub mod command_join;
pub mod command_leave;
pub mod command_play;
pub mod commands;
pub mod events;
pub mod providers;
pub mod status;

pub use actions::perform_action;
pub use actions::VoiceAction;

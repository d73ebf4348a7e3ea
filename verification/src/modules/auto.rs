pub mod dynamic_voice_channels;

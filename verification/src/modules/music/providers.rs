pub mod ytdlp;

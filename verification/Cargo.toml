[package]
name = "video_player_rust"
version = "0.1.0"
edition = "2021"
publish = false

[dependencies]
ffmpeg-next = "*"
sdl2 = "*"
soundio = "*"

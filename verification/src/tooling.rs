pub mod brew;
pub mod dependencies;
pub mod et;
pub mod mutagen;
pub mod ssh;
pub mod tailscale;
pub mod tmux;

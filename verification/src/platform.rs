pub mod launchd;

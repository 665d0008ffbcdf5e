//! Backend of a tray utility that hides and shows its window from a tray
//! menu and appends submitted task entries, one per line, to a log file.
pub mod logger;
pub mod tray;

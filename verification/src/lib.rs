//! Decisions of a desktop application launcher.
pub mod block;
pub mod desktop_file;
pub mod desktop_lines;
pub mod launch;
pub mod launcher;
pub mod searcher;

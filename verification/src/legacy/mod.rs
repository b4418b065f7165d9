//! The first layout of the player: the `main` table of media files and its UI hooks.
pub mod ui;
pub mod source;

//! The record types of the current store layout.
pub mod playlist;
pub mod setting;
pub mod source;
pub mod track;

//! Catalog structures

pub mod activity;
pub mod album;
pub mod artist;
pub mod curator;
pub mod music_video;
pub mod playlist;
pub mod record_label;
pub mod search;
pub mod song;
pub mod station;

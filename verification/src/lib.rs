//! Verified core of a terminal Subsonic music client: the play queue, the
//! decisions behind the key handlers and the playback poll, the MPRIS property logic, the footer's
//! key hints and status, the cava configuration and screen snapshot, and the
//! Subsonic request URLs.

pub mod artists;
pub mod cava;
pub mod footer;
pub mod handlers;
pub mod keys;
pub mod layout;
pub mod models;
pub mod pages;
pub mod playback;
pub mod playlists;
pub mod mpris;
pub mod queue;
pub mod rest;
pub mod songs;
pub mod text;

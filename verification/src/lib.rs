//! The decision core of a one-shot Subsonic client that refills a playlist
//! with the songs of randomly chosen albums.
//!
//! Nothing here touches the network. A caller sends each request that the
//! library asks for and hands back what came of it; the library derives the
//! credentials, builds the request URLs, classifies replies, validates the
//! response envelope and decides the next request.

pub mod album;
pub mod api;
pub mod config;
pub mod playlist;
pub mod populate;
pub mod request;

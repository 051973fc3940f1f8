//! Cursor animation decisions and render statistics counters.
pub mod config;
pub mod text;
pub mod cursoranim;
pub mod parserperf;
pub mod paintstats;
pub mod perfstats;
pub mod poly;
pub mod warp;

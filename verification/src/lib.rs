//! Synchronisation core of a lyric display: the track and lyric registers of
//! one media player connection, and the transitions that keep them consistent.

pub mod cache;
pub mod codec;
pub mod laws;
pub mod lyric;
pub mod resolve;
pub mod sync;
pub mod track;

//! Audio playback plumbing: the verified command queue the producer fills;
//! decoding and output belong to a deployment's audio backend.

pub mod player;

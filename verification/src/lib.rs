//! Building blocks of a small framework for a handheld console: vectors and
//! colours, button and analog-stick decoding, and a multi-channel audio
//! manager that streams PCM clips to an output device in bounded chunks.
//!
//! The library never talks to the hardware itself. Every function takes the
//! device's answers as plain values and returns the next device call as a
//! plain value, so the embedding program performs the calls and the library
//! decides what they are.

pub mod audio;
pub mod colors;
pub mod input;
pub mod vector;
pub mod random;

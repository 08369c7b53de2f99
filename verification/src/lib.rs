//! The verified core of an interactive practice shell, stated and proved with
//! Verus.
//!
//! Its main part is a content-addressed cache of externally hosted
//! transcription assets: which asset an exercise refers to ([`link`]), where
//! its copy is kept ([`path`]), what must hold before it is fetched
//! ([`prerequisites`]), how a download proceeds step by step ([`download`],
//! [`runs`]) and the cache as its users see it ([`transcription_downloader`]).
//! Around it stand the rules of the shell itself: what a line of input means
//! ([`cli`], [`text`]), the state of a practice session ([`session`]), the
//! filters on what is practiced ([`filter`]) and what is shown of an exercise
//! ([`display`]).
//!
//! The library decides and never acts: looking at the file system, running
//! the download tool and writing to the terminal are left to the host, which
//! is told what to do and reports what came of it.

pub mod cli;
pub mod data;
pub mod digest;
pub mod display;
pub mod download;
pub mod error;
pub mod filter;
pub mod link;
pub mod path;
pub mod prerequisites;
pub mod runs;
pub mod session;
pub mod text;
pub mod tool;
pub mod transcription_downloader;

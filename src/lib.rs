//! Singer packages: phoneme codec, packed segment records, the package data
//! model and the decisions of the ingestion pipeline.
pub mod encode;
pub mod generate;
pub mod ipa;
pub mod lab;
pub mod library;
pub mod singer;
pub mod time;
pub mod utterance;

pub use crate::singer::Singer;

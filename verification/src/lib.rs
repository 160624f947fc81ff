//! Trail recommendations for walkers with a dog: normalising records from two
//! map-data providers into one schema, caching them, and ranking them against
//! what the walker asked for.
//!
//! The library does no input or output of its own. Its driver fetches what
//! the library asks for and hands back what came; the library decides.
//! Quantities are decimal fixed-point numbers ([`fixed::Fixed`]), so every
//! decision is exact. The one thing the driver computes for the library is
//! the great-circle length of the legs of a way, which is trigonometry.
//!
//! # Modules
//!
//! - [`fixed`], [`text`], [`json`], [`geometry`]: numbers, text, loosely
//!   structured records, and boxes.
//! - [`model`]: the trail, and what a walker may ask for.
//! - [`lookup`], [`doc`], [`overpass`]: turning provider records into trails.
//! - [`rank`]: choosing and ordering trails for a walker.
//! - [`service`], [`fetch`], [`request`]: the caches, how a fetch from a
//!   provider proceeds, and how a request is answered.
//! - [`page`]: the words in which queries and trails are shown and sent.
//!
//! # What is taken on trust
//!
//! Every function is proved against its contract, but for seven that only
//! hand a call on and whose contract is believed: in [`text`], comparing two
//! strings, finding one string in another, lowercasing, trimming, appending
//! a character and percent-encoding; and in [`rank`], sorting pairs of
//! integers. What lowercasing gives is not described, only named, since it
//! rests on the case tables of Unicode.

pub mod doc;
pub mod fetch;
pub mod fixed;
pub mod geometry;
pub mod json;
pub mod lookup;
pub mod model;
pub mod overpass;
pub mod page;
pub mod rank;
pub mod request;
pub mod service;
pub mod text;

pub use fixed::Fixed;
pub use geometry::{Bbox, Point};
pub use json::Json;
pub use model::{
    Difficulty, DogFilter, DogPolicy, Effort, Length, Provider, ProviderInfo, Trail, TrailError,
    TrailQuery,
};
pub use rank::filter_trails;
pub use service::TrailService;

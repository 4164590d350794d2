//! Combustion: a verified mesh wire-format codec with supporting utilities.
//!
//! The heart of the crate is the mesh serialization subsystem: the
//! bidirectional conversion between an owned wire-format message tree and an
//! in-memory [`data::Mesh`], supporting both field-by-field portable records
//! and raw packed byte blobs, across the interleaved and discrete
//! vertex-layout variants.

pub mod data;
pub mod error;
pub mod geometry;
pub mod num_utils;
pub mod raw;
pub mod render;
pub mod storage;
pub mod wire;

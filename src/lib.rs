//! Turns an STL solid into a thumbnail image: mesh ingestion (binary and
//! ASCII STL), image emission, run configuration and the decisions of the
//! on-screen presentation loop.

pub mod ascii;
pub mod config;
pub mod emission;
pub mod mesh;
pub mod present;

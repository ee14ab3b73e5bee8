//! Verified catalogue, identifier and host-glue logic of the `stars` sky renderer.
pub mod text;
pub mod ids;
pub mod deepsky;
pub mod clusters;
pub mod search;
pub mod lod;
pub mod planning;
pub mod variables;
pub mod render;
pub mod presets;
pub mod args;
pub mod session;
pub mod links;
pub mod satellites;
pub mod spk;
pub mod ingest;
pub mod ranking;
pub mod tables;
pub mod doubles;
pub mod constellations;
pub mod xmatch;
pub mod results;
pub mod goto;
pub mod encode;
pub mod instant;

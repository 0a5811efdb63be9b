//! A loader plugin that turns COLLADA mesh scenes into log records for a
//! visualisation host: the compatibility gate, the identity rules and the
//! mapping from meshes to records, each with a proved contract.

pub mod gate;
pub mod identity;
pub mod scene;
pub mod run;

//! Library for a compound lookup and reporting tool: it models the JSON
//! records that a chemistry database returns for a compound name, decodes
//! them into a typed `Compound` value, renders a deterministic textual
//! report, and plans the line segments of a 2-D bond drawing.

pub mod numtext;
pub mod json;
pub mod model;
pub mod decode;
pub mod render;
pub mod plot;
pub mod query;
pub mod cli;
pub mod laws;


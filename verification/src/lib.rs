//! Antenna catalogues, antenna selection and baseline bookkeeping for a toy
//! radio interferometer that simulates uv-coverage.

pub mod names;
pub mod table;
pub mod observation;
pub mod uv;
pub mod catalogue;

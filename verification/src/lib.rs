//! A document-conversion core: resolve target pixel dimensions from a
//! layered constraint specification, fit an encoded image into a
//! byte-size budget by a bounded quality search, and validate the result
//! against the budget's floor and ceiling.

pub mod codec;
pub mod constraints;
pub mod encoder;
pub mod pipeline;
pub mod resolver;

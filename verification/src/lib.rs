//! Verified core of an AI video upscaler driver: command-line model,
//! ffprobe report interpretation, frame selection and the upscaling
//! pipeline's decision logic.

pub mod text;
pub mod child;
pub mod cli;
pub mod paths;
pub mod probe;
pub mod pipeline;
pub mod run;
pub mod cancel;

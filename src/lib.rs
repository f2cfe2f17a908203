//! Configuration model of a fuzzing harness: where fuzz input comes from,
//! where responses go, and which lifecycle commands run around the target.
mod error;
pub mod laws;
mod method;
mod opt;
mod text;
mod web;

pub use error::ConfigError;
pub use method::{
    InputMethod, OutputMethod, input_accepted, input_outcome, output_accepted, output_outcome,
};
pub use opt::{Opt, RawOpt, keeps_plain_fields, raw_accepted};
pub use text::{path_key, starts_with, stdin_word, url_key};
pub use web::url_parse;

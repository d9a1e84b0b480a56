//! Client library for uploading personal-weather-station telemetry to the
//! Windy PWS endpoint.
//!
//! The library models stations and observations, folds a window of raw
//! sensor samples into one representative observation, assembles any number
//! of entities into a single request, renders that request to its JSON wire
//! form, and classifies the outcome of the upload into a small error
//! taxonomy.

pub mod date;
pub mod json;
pub mod measure;
pub mod observation;
pub mod reducer;
pub mod station;
pub mod windy_instance;
pub mod windy_request;

pub use date::DateUtc;
pub use measure::Milli;
pub use observation::Observation;
pub use reducer::{RawSample, ReduceError, SampleField, reduce};
pub use station::{ShareOption, Station};
pub use windy_instance::{HttpOutcome, RequestError, WindyInstance, classify_outcome};
pub use windy_request::{WindyRequest, WindyRequestBuilder};

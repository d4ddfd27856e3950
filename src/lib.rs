//! A streaming batch-inference gateway: inbound items are grouped into
//! batches by count or idle timeout, each batch's model answer is fanned out
//! into one result per item, and single requests are validated and answered
//! as batches of one. The model itself and the transport live outside.
pub mod accumulator;
pub mod config;
pub mod greeter;
pub mod unary;
pub mod worker;

pub use accumulator::{event_from, Accumulator, Batch, Event, Phase};
pub use config::{ConfigError, GatewayConfig};
pub use greeter::MyGreeter;
pub use unary::{single_embedding, validate_image, validate_text, RequestError, UnaryError};
pub use worker::{batch_results, BatchResult};

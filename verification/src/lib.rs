//! The decisions of a client for the Lighter exchange, as values.
//!
//! Nothing here talks to the network. Orders, cancellations and REST calls are put together and
//! checked, and come out as requests; what the signer or the API answers goes back in and comes
//! out as the next request or as the result. Every function states what it gives. What holds of
//! the library beyond single functions is stated in [`laws`], and in [`order_laws`],
//! [`run_laws`], [`request_laws`] and [`client_laws`] for what each part makes of its inputs.

pub mod account;
pub mod builder;
pub mod cancel;
pub mod client;
pub mod client_laws;
pub mod clock;
pub mod decimal;
pub mod errors;
pub mod handles;
pub mod laws;
pub mod options;
pub mod order;
pub mod order_laws;
pub mod order_model;
pub mod params;
pub mod request_laws;
pub mod rest;
pub mod run;
pub mod run_laws;
pub mod submission;
pub mod types;

//! A Varnish backend that serves objects out of a cloud bucket.
//!
//! A request takes this way: the backend (`backend`) has a URL signed for the object that is
//! asked for (`aws`), hands it to the worker (`worker`) with the body of the request
//! (`forward`), fills in the response from the worker's first message, and leaves the rest of
//! the messages (`message`) to the reader (`transfer`), from which Varnish takes the body.
//! `client` holds what is set up once for all requests, and `laws` what holds of the parts
//! together.
pub mod aws;
pub mod backend;
pub mod client;
pub mod external;
pub mod forward;
pub mod laws;
pub mod message;
pub mod transfer;
pub mod worker;

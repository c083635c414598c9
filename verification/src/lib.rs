//! Host utilisation metrics: bounded percentages, the metrics model, the
//! stateful CPU sampler and the stateless memory sampler, the route tree that
//! selects fragments of a snapshot, and the listener's start-up decision.
//! Everything works on integers and is verified.

pub mod ratio;
pub mod percent;
pub mod error;
pub mod metrics;
pub mod sampler;
pub mod routes;
pub mod server;

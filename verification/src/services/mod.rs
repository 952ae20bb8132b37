pub mod healthcheck;
pub mod lookup;

//! The application server of the appliance, as far as it keeps state and
//! reads text.

pub mod globals;
pub mod routes;

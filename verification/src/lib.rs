//! Request-handling core of the customer-request web service: the data it
//! exchanges, the CORS policy, the admin-session pool and the decisions of
//! its HTTP handlers.

pub mod cors_config;
pub mod data_models;
pub mod data_structs;
pub mod model_nosql;
pub mod warp_handler;

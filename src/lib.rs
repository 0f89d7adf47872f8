//! Remote-rendering terminal core: scene model and renderer, input
//! normalisation, the coordinator of the update and view pipelines, the
//! pipeline workers and the remote call gateway's policy.

pub mod graphics;
pub mod render;
pub mod event;
pub mod keyboard;
pub mod error;
pub mod gateway;
pub mod coordinator;
pub mod worker;
pub mod config;

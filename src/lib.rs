//! Tracks, starts, stops and reports the health of locally run development
//! services: a registry of services, their descriptors, the decisions of the
//! process supervisor and the status algebra that folds health signals together.
pub mod command;
pub mod status;
pub mod text;
pub mod paths;
pub mod config;
pub mod input;
pub mod service;
pub mod supervisor;

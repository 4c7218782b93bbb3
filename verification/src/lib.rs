//! Verified decision core of the Cairn controller server.

pub mod application;
pub mod controller;
pub mod enrollment;
pub mod server;
pub mod paths;
pub mod supervisor;
pub mod app_api;
pub mod controller_workflow;

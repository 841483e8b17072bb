//! Decision logic of a deployment webhook.
//!
//! A host program receives `POST /deploy/{service_name}` with a shared secret,
//! looks for the script `{commands_dir}/{service_name}.sh`, runs it and answers
//! with the result. This library holds every decision of that exchange and
//! proves what it answers; the host only reads the environment, looks at the
//! file system, starts the script and sends the response.

pub mod config;
pub mod deploy;
pub mod error;
pub mod health;
pub mod laws;
pub mod request;
pub mod response;
pub mod script;

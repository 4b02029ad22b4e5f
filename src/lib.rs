//! Provisioning workflow for a remote systems-management service: the wire
//! value model, the configuration mapper, the session lifecycle, the
//! long-running operation poller and the scenario state machines.

pub mod wire;
pub mod mapper;
pub mod poller;
pub mod session;
pub mod lookup;
pub mod logging;
pub mod scenarios;
pub mod settings;

//! Provisioning and firmware-update core of a network-connected flow
//! controller.
//!
//! The crate holds the decisions of the device's network life: the event
//! flags shared between the radio's event context and the worker tasks, the
//! decoding of provisioning payloads, the provisioning state machine, the
//! manifest poller with its version ordering, and the update streamer that
//! drives a flash slot from download to restart. Everything that touches the
//! radio, the network or the flash is left to the caller, who performs the
//! actions these functions return and reports back what happened.

pub mod credentials;
pub mod flags;
pub mod http_status;
pub mod manifest;
pub mod poller;
pub mod provisioning;
pub mod status_page;
pub mod streamer;
pub mod version;

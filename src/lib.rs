//! Core of a notification-feed client: the display model, link resolution,
//! request construction, filter and polling state, and credential parsing.

pub mod credentials;
pub mod link;
pub mod model;
pub mod request;
pub mod state;

//! Doorbell event controller: edge detection on polled inputs, the pulse
//! encoder of a fixed-code radio chime, the webhook payload and outcome
//! rules, and the decisions of the polling loop.
pub mod controller;
pub mod discord;
pub mod gong_control;
pub mod pin_state;

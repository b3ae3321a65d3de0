//! Verified core of the Facegate face-authentication stack.
use vstd::prelude::*;

pub mod assoc;
pub mod auth;
pub mod broker_admin;
pub mod broker_client;
pub mod broker_match;
pub mod broker_dispatch;
pub mod brokerd;
pub mod calendar;
pub mod calibrate;
pub mod config;
pub mod configure;
pub mod configure_readback;
pub mod configure_view;
pub mod confirm;
pub mod camera;
pub mod detection;
pub mod doctor;
pub mod doctor_report;
pub mod embedding;
pub mod enroll;
pub mod error;
pub mod f32_bits;
pub mod forget;
pub mod ipc;
pub mod menu;
pub mod menu_app;
pub mod menu_view;
pub mod pam_edit;
pub mod pam_module;
pub mod services;
pub mod setup;
pub mod status;
pub mod storage;
pub mod test_cmd;
pub mod text;
pub mod user_log;
pub mod users;
pub mod watch;
pub mod watch_toggle;

verus! {

} // verus!

//! Verified core of a split-keyboard firmware and its host protocol client.

pub mod positional;
pub mod link;
pub mod half_duplex;
pub mod frame;
pub mod selector;
pub mod maintenance;
pub mod cirque;
pub mod ble;
pub mod bond_table;
pub mod ble_host;
pub mod ad;
pub mod ble_conn;
pub mod split_ble;
pub mod report_channel;
pub mod storage;
pub mod split_peripheral;
pub mod connection;
pub mod shared_flash;
pub mod counters;
pub mod fmt;
pub mod keymap_ops;
pub mod event;
pub mod combo;
pub mod lighting;
pub mod lighting_state;
pub mod rynk;
pub mod rynk_pages;
pub mod text;
pub mod ble_name;
pub mod rynk_service;
pub mod wake_reports;

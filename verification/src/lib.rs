//! The logic of the bindings of the Matrix SDK.
//!
//! Values of the SDK come in as plain values, in types whose names begin with `Sdk`
//! where they differ from what is handed on.

pub mod account_data;
pub mod app_state;
pub mod authentication;
pub mod authentication_service;
pub mod calls;
pub mod chunk_iterator;
pub mod client;
pub mod client_builder;
pub mod client_login_builder;
pub mod composer_draft;
pub mod create_room;
pub mod duration;
pub mod element;
pub mod encryption;
pub mod encryption_sync;
pub mod error;
pub mod event;
pub mod event_filter;
pub mod grouped_room_list;
pub mod helpers;
pub mod ids;
pub mod join_rule;
pub mod json;
pub mod list_update;
pub mod live_location_share;
pub mod media;
pub mod notification;
pub mod notification_service;
pub mod notification_settings;
pub mod password_strength;
pub mod platform;
pub mod power_levels;
pub mod presence;
pub mod pusher;
pub mod qr_code;
pub mod rageshake;
pub mod rolling_writer;
pub mod room;
pub mod room_directory_search;
pub mod room_info;
pub mod room_list;
pub mod room_member;
pub mod room_preview;
pub mod send_queue;
pub mod session;
pub mod sticky_events;
pub mod text;
pub mod url_text;

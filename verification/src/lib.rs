mod snowflake;

pub use snowflake::SnowflakeID;
mod text;
mod decimal;
mod sorting;
pub mod message_buffer;
pub mod state;
pub mod appstate;
pub mod receive_struct;
pub mod ingest;
pub mod ready_state;
pub mod events;
pub mod voice_events;
pub mod streams;
pub mod message_view;
pub mod message_flow;
pub mod gateway;
pub mod actions;
pub mod session;
pub mod input;
pub mod search;
pub mod members;
pub mod commands;
pub mod keys;
pub mod backfill;
pub mod console;
pub mod dump_format;
pub mod config;
pub mod dump;
pub mod dump_mapping;
pub mod dump_ready;
pub mod dump_events;
pub mod dump_dispatch;
pub mod config_watch;
pub mod dump_session;
pub mod markup;
pub mod pane;
pub mod stream_layout;
pub mod sidebar;
pub mod overlays;
pub mod rest;
pub mod stream_gate;
pub mod startup;
pub mod tasks;
pub mod send_struct;

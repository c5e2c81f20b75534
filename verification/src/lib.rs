//! Decision logic of a Telegram chat-recap bot.

pub mod address;
pub mod bot;
pub mod config;
pub mod config_laws;
pub mod db;
pub mod dotenv;
pub mod env_laws;
pub mod identifier;
pub mod lifecycle;
pub mod numeral;
pub mod redis;
pub mod reply;
pub mod services;
pub mod template;
pub mod template_laws;
pub mod text;
pub mod text_laws;
pub mod text_map;
pub mod utf16;
pub mod utf8;

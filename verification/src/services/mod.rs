//! Formatting, generation, capture and delivery of recaps.

pub mod autorecap;
pub mod autorecap_delivery;
pub mod autorecap_laws;
pub mod autorecap_queue;
pub mod capture_laws;
pub mod completion;
pub mod condensed;
pub mod condensed_laws;
pub mod cut_laws;
pub mod delivery_laws;
pub mod detailed;
pub mod dual;
pub mod envelope;
pub mod generation_laws;
pub mod heading_laws;
pub mod input_laws;
pub mod link_preview;
pub mod message_capture;
pub mod model_laws;
pub mod openai;
pub mod patterns;
pub mod preview_laws;
pub mod prompts;
pub mod rate_limit;
pub mod recap_delivery;
pub mod recap_generation;
pub mod reference_laws;
pub mod rich_laws;
pub mod report_laws;
pub mod rich_recap;
pub mod rich_split;
pub mod style_laws;
pub mod summary_laws;
pub mod telegram_rich_message;
pub mod tokens;
pub mod traces;

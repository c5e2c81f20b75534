//! What messages and buttons lead to.

pub mod chat_member;
pub mod command_laws;
pub mod manual_laws;
pub mod migration;
pub mod recap;
pub mod recap_configure;
pub mod recap_forwarded;
pub mod recap_manual;
pub mod recap_subscription;
pub mod subscription_laws;
pub mod system;

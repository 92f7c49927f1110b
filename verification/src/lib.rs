//! Interaction core of a terminal chat client: key and mouse routing, the
//! line editor behind the composer, hit testing, the transcript view state,
//! and the rules that tie them to the agent's event stream.

pub mod agent;
pub mod app;
pub mod attachments;
pub mod clipboard_ops;
pub mod document;
pub mod event_loop;
pub mod graphemes;
pub mod input;
pub mod interaction;
pub mod layout;
pub mod layout_laws;
pub mod listener;
pub mod modal;
pub mod motion;
pub mod order;
pub mod providers;
pub mod selection;
pub mod staging;
pub mod status;
pub mod text;
pub mod text_laws;

//! Pages of an LLM gateway.
pub mod admin;
pub mod backends;
pub mod chat;
pub mod compliance;
pub mod connectors;
pub mod fields;
pub mod forms;
pub mod groups;
pub mod html;
pub mod integrations;
pub mod json;
pub mod layout;
pub mod lines;
pub mod markup;
pub mod moment;
pub mod multipart;
pub mod notice;
pub mod num;
pub mod oauth;
pub mod order;
pub mod pools;
pub mod query;
pub mod rag;
pub mod saving;
pub mod scheduled;
pub mod skills;
pub mod text;
pub mod tokens;
pub mod tool_toggles;
pub mod tools;
pub mod updates;
pub mod users;

//! Turns trees of structured values into Typst literal text, and answers the
//! resolution queries that the Typst compiler makes while it renders an invoice.

pub mod models;
pub mod prompts;
pub mod text;
pub mod transcode;
pub mod value;
pub mod world;

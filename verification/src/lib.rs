pub mod api;
pub mod cloudflare;
pub mod pattern;
pub mod text;

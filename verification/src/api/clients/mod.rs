pub mod cloudflare;

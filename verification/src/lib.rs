pub mod geo;
pub mod ollama;
pub mod rss;
pub mod text;

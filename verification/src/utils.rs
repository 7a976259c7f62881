pub mod content_type;
pub mod text;

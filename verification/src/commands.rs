pub mod bucket;
pub mod download;
pub mod object;
pub mod upload;

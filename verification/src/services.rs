pub mod http_status;
pub mod presigning;
pub mod s3_client;
pub mod storage;

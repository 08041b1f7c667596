pub mod s3;

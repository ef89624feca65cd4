pub mod extractor;
pub mod jwt;
pub mod otp;
pub mod password;

//! Authentication of API requests against an Amazon Cognito user pool: bearer tokens
//! are checked against the pool's signing keys, which are looked up in memory, then in
//! a bucket, then at the pool itself.
pub mod cognito;
pub mod handler;
pub mod jwks;
pub mod jwt;

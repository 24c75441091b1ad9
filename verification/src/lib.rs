pub mod gateway;
pub mod holder;
pub mod issuance;
pub mod jwt;
pub mod model;
pub mod nonce;
pub mod pipeline;
pub mod topics;

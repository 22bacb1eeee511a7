pub mod address;
pub mod base58;
pub mod derive;
pub mod errors;
pub mod flows;
pub mod instruction;
pub mod keys;
pub mod message;
pub mod transaction;

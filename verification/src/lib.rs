pub mod csr;
pub mod engine;
pub mod keys;
pub mod san;

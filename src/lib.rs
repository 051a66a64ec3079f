//! Construction of gasless meta-transactions: calldata encoding, the forwarded
//! request and its typed-data digest, the bounded gas-estimation retry, and the
//! decisions of the relay pipeline.
pub mod abi;
pub mod gas;
pub mod hash;
pub mod pipeline;
pub mod relay;
pub mod typed_data;

//! A verified instruction handler for a fixed-layout payment record.
//!
//! The handler does one thing, in a strictly linear sequence: decode a
//! 176-byte payment record from the instruction payload, bind the three
//! accounts the caller supplied, check that the sender account carries the
//! host's signer flag, and delegate a single balance transfer to the host's
//! native transfer service. Every failure aborts the whole invocation before
//! any transfer is requested.
//!
//! The binary codec and the decision logic are verified here; the host
//! binding (the entrypoint adapter that performs the actual cross-program
//! call) lives outside this crate and injects the transfer service as a
//! capability.

pub mod error;
pub mod payment;
pub mod processor;

pub use error::PaymentError;
pub use payment::OfflinePayment;
pub use payment::PAYLOAD_LEN;
pub use processor::AccountHandle;
pub use processor::TransferRequest;
pub use processor::TransferService;
pub use processor::process_instruction;

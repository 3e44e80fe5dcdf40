//! Crowdfunding ledger with bonding-curve pricing and milestone-gated
//! governance.
//!
//! A project raises a base value unit from supporters in exchange for
//! fungible credits whose unit price rises with the cumulative amount
//! raised.  Once declared milestones are funded, releasing treasury value
//! against a milestone is gated by a majority vote among credit holders.
//!
//! The crate verifies the full instruction surface: payload decoding,
//! fixed-width record packing, the bonding-curve arithmetic, and every
//! state transition of the project / milestone / proposal life cycle.
pub mod codec;
pub mod errors;
pub mod governance;
pub mod host;
pub mod instruction;
pub mod ledger;
pub mod milestone;
pub mod pricing;
pub mod processor;
pub mod project;
pub mod proposal;

pub use errors::ProgramFailure;
pub use errors::UnicornFactoryError;
pub use instruction::UnicornFactoryInstruction;
pub use milestone::Milestone;
pub use pricing::calculate_new_price;
pub use pricing::calculate_tokens;
pub use processor::process_instruction;
pub use project::Project;
pub use proposal::Proposal;

//! The BitLab presale: its ten-round price schedule, the conversion of SOL and
//! stable-coin payments into BITLAB, the reading of the Pyth SOL/USD quote, and
//! the rules by which every instruction of the presale program changes the sale's
//! state. Account addresses, token accounts and oracle data come in as plain
//! values; the transfers that the rules allow are made by the caller.

pub mod buy;
pub mod bytes;
pub mod constants;
pub mod effects;
pub mod error;
pub mod initialize;
pub mod instructions;
pub mod key;
pub mod laws;
pub mod oracle;
pub mod presale_state;
pub mod sale;
pub mod withdraw;

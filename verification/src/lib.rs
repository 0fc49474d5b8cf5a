//! Rules engine for tabletop combat encounters: typed identifiers, the
//! encounter state machine, the operation ledger, rule violations and the
//! resolution of dice-roll interactions.

pub mod arith;
pub mod campaign;
pub mod character;
pub mod clock;
pub mod database;
pub mod encounter;
pub mod error;
pub mod item;
pub mod operation;
pub mod query;
pub mod text;
pub mod typedid;
pub mod user;
pub mod violations;

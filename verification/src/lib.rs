//! A shop inventory whose items change value as the days pass.
//!
//! Every item carries a remaining-shelf-life counter and a quality score.
//! Once per simulated day the inventory recomputes both counters of every
//! item, following a rule fixed by the item's category; the category itself
//! is decided once, from the item's name, when the item is built.

pub mod inventory;
pub mod item;
pub mod report;
pub mod text;

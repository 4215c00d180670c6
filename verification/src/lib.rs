//! Car-record editing logic for a racing-game save editor.
//!
//! The crate holds the rules behind the editor panel: the packed "aura"
//! identifier computed from a driving-style coordinate and the odometer,
//! the class label derived from a car's level, decimal numerals parsed
//! from and written to the panel's text buffers, inventory-gated option
//! filtering for the cosmetic dress-up fields, and the construction of
//! the two outgoing request records.

pub mod aura;
pub mod car_class;
pub mod grade;
pub mod items;
pub mod labels;
pub mod menu;
pub mod numeral;
pub mod record;
pub mod request;

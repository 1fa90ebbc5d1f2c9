//! Input-interpretation core of a keyboard firmware: a quadrature decoder
//! that classifies two-channel rotary signals into discrete rotation events,
//! and a layer-resolving keymap that maps physical key transitions to actions.

pub mod action;
pub mod event;
pub mod keymap;
pub mod rotary_encoder;

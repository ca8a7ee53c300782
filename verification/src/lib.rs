//! A verified core for an Izhikevich-model spiking neuron.
//!
//! The neuron's two continuous variables are advanced by explicit forward
//! Euler in fixed sub-steps of at most half a millisecond, with a hard reset
//! whenever the membrane potential reaches the spike threshold.  All
//! quantities are held in saturating fixed-point numbers (see [`fx`]), so the
//! whole integration algorithm is verified; a host adapter converts to and
//! from its own number format at the boundary.

pub mod fx;
pub mod laws;
pub mod neuron;

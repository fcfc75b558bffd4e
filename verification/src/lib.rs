//! The decisions of a two-dimensional simulation of typed particles, "orbs".
//!
//! Orbs of three kinds pull at and push against each other and move in a
//! bounded field. Every choice the simulation makes is made here, over
//! integers and truth values alone, and is proved to be the stated one: which
//! kinds attract which, which force law governs a pair and with which sign it
//! acts on either orb, and how an orb that has left the field is brought back.
//! The caller measures distances, evaluates the magnitudes of the laws and
//! moves the orbs.

pub mod boundary;
pub mod force;
pub mod orb;
pub mod settings;

//! Surface negotiation and lifecycle control for a windowed GPU surface.

pub mod backend;
pub mod controller;
pub mod negotiator;
pub mod selection;
pub mod surface;

//! Core of a drill-down reference guide: the catalogue document, the
//! navigation state machine over it, and the resolution of what each
//! screen shows.

pub mod consistency;
pub mod guide;
pub mod lookup;
pub mod model;
pub mod mutation;
pub mod navigation;
pub mod resolve;
pub mod sequences;

//! Verified core of a PANOC solver for problems of the form: minimise a
//! smooth cost over a set with a cheap projection. It holds the error kinds,
//! the problem bundle, the dimension and parameter checks, the slot
//! bookkeeping of the limited quasi-Newton memory, the phases of a solve and
//! the backtracking schedule of the line search.

pub mod dimensions;
pub mod error;
pub mod line_search;
pub mod memory;
pub mod phase;
pub mod problem;

//! Fixed-point DSP cores of a family of Eurorack modules, verified with Verus.

pub mod branches;
pub mod bits;
pub mod fixed;
pub mod braids;
pub mod edges;
pub mod clouds;

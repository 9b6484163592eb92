//! Small building blocks for sharing an integer sequence between workers:
//! a lock-protected counter array whose tasks each add one to their own
//! element, and two element-wise transforms, one sequential and one
//! data-parallel.

pub mod model;
pub mod counter;
pub mod laws;
pub mod transform;

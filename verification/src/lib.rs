//! A coordination layer for a mutable approximate-nearest-neighbor vector
//! index. Callers register vectors under string identifiers, trigger an
//! explicit build step, and run nearest-neighbor queries. The
//! nearest-neighbor engine itself is an external collaborator: this crate
//! owns the bookkeeping around it — buffering inserts that the engine cannot
//! see until a build, maintaining the bijection between caller-visible
//! string identifiers and engine-assigned numeric handles, and translating
//! raw engine results back into caller-visible form.

pub mod buffer;
pub mod idmap;
pub mod ngt;
pub mod payload;
pub mod status;
pub mod vald;

// Planning and checking for a parallel copy of files and directory trees:
// which sources go where, which invocations are refused before anything is
// written, and how the failures of a tree walk add up.
pub mod model;
pub mod path;
pub mod guard;
pub mod names;
pub mod plan;
pub mod laws;

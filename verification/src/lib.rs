//! Interactive triage for a version-control stash stack.
//!
//! The library holds the decision logic of the tool: classifying the results
//! of version-control operations, the cursor over the stash stack, the
//! session state machine, the confirmation rules for dropping a stash, and
//! the transactional promotion of a stash to a named branch, together with
//! an abstract model of the repository on which the transaction laws are
//! proved. All process execution and console work lives outside the library.

pub mod dropper;
pub mod outcome;
pub mod promote;
pub mod repo;
pub mod session;
pub mod slug;
pub mod stashref;

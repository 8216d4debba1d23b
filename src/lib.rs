//! Three processes play repeated rounds: two generators each send a random
//! candidate string, a coordinator judges the pair and tells both whether to
//! go on. The decisions of every role are plain state machines here; the
//! transport and the program around them live outside this library.
pub mod predicate;
pub mod protocol;
pub mod simulation;
pub mod supply;

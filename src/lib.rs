//! A small test harness: named test cases are run one after another, their
//! outcomes are classified and timed, and the runner reports what happened.
//! Everything the harness would print is produced here as lines of text, for
//! the caller to write out.

mod clock;
pub mod duration;
pub mod logger;
pub mod test_case;
pub mod text;

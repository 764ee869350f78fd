//! Reporting the results of a structural code search: the value that stands
//! for one proposed edit, the contract that every renderer of matches and
//! edits fulfils, the batch of calls that a renderer receives, and a
//! renderer that records them.

pub mod batch;
pub mod diff;
pub mod engine;
pub mod pattern;
pub mod printer;
pub mod recorder;

pub use batch::Batch;
pub use diff::Diff;
pub use engine::{MatchedNode, RuleHandle, SearchPattern};
pub use pattern::PatternRefused;
pub use printer::{Printer, Rendered};
pub use recorder::{Call, Recorder, RecorderFull};

//! Expected conditions in the style of Selenium for code that runs in a browser.
//!
//! A condition pairs a way to locate an object (a [`By`] selector) with what must
//! hold of it (an [`Ec`] predicate). A wait polls it within a time budget: the
//! `poll` module decides each step, the `probe` module looks at the page, and
//! the caller sleeps between looks.

pub mod by;
pub mod condition;
pub mod ec;
pub mod poll;
pub mod probe;
pub mod span;
pub mod text;
pub mod wait;
pub mod wait_options;

pub use by::By;
pub use condition::Condition;
pub use ec::Ec;
pub use span::TimeSpan;
pub use wait::Wait;
pub use wait_options::WaitOptions;

//! Lifecycle of a browser-embedded GUI application, as seen by its host page.
//!
//! The host constructs a [`WebHandle`], asks it to start against a drawable
//! surface, may poll it for a recorded crash, and may tear it down again. The
//! rendering itself belongs to an external runner; this crate holds the
//! decisions around it and the state they leave behind.

pub mod handle;
pub mod history;
pub mod lifecycle;
pub mod panic_summary;
pub mod start;

pub use handle::WebHandle;
pub use history::Event;
pub use lifecycle::{HandleState, PanicRecord, Phase};
pub use panic_summary::PanicSummary;
pub use start::{StartDecision, StartError};

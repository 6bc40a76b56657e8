//! Controller logic for an interactive list picker: a text query box paired
//! with a virtualized, scrollable result list.

mod delegate;
mod picker;
mod scroll;
mod simple;

pub use delegate::PickerDelegate;
pub use delegate::UpdateTask;
pub use picker::next_index;
pub use picker::prev_index;
pub use picker::lemma_step_formulas;
pub use picker::lemma_navigation_in_range;
pub use picker::Picker;
pub use scroll::ScrollHandle;
pub use simple::SimpleDelegate;

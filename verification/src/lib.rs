/*! Lazy sequence adapters for simple scan-style folds.

Each adapter wraps a pull-based source of items and, on every pull, combines
the next input item with a carried value to produce one output item. Three
variants are provided: a pure state tracker ([`Trace`]), a tracker that also
reports the previous state ([`Trace2`]), and an item-to-item difference
tracker ([`Diff`]). The [`IteratorSimpleScanExt`] trait chains them onto any
[`Source`].
*/

mod combine;
mod diff;
mod iterator_simple_scan_ext;
mod laws;
mod source;
mod trace;
mod trace2;

pub use combine::Combiner;
pub use combine::Dup;
pub use combine::WrappingAdd;
pub use combine::WrappingSub;
pub use diff::diff_outputs;
pub use diff::lemma_diff_outputs_len;
pub use diff::Diff;
pub use iterator_simple_scan_ext::IteratorSimpleScanExt;
pub use laws::fold_state;
pub use laws::lemma_diff_combines_adjacent;
pub use laws::lemma_diff_propagation;
pub use laws::lemma_trace2_propagation;
pub use laws::lemma_trace2_staggers_trace;
pub use laws::lemma_trace_is_running_fold;
pub use laws::lemma_trace_propagation;
pub use source::IntRange;
pub use source::Source;
pub use trace::lemma_trace_outputs_len;
pub use trace::trace_outputs;
pub use trace::Trace;
pub use trace2::lemma_trace2_outputs_len;
pub use trace2::trace2_outputs;
pub use trace2::Trace2;

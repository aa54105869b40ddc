use vstd::prelude::*;
use crate::errors::BlockError;

verus! {

/// The capability set every widget variant offers to a rendering layer:
/// display text on demand, a preferred refresh interval, a display color.
///
/// A widget does not spawn its external collaborator itself. The event loop
/// that owns the widget asks `should_refresh`; when the answer is yes it
/// performs the widget's outside work and hands the outcome back as an
/// `Event`. `content` then applies the widget's refresh policy to that event,
/// exactly as if the widget had done the work in place.
pub trait Block: Sized {
    /// What one round of the widget's outside work produces.
    type Event;

    /// The widget's internal well-formedness.
    spec fn inv(&self) -> bool;

    /// Whether a query at `now_ms` must perform outside work.
    spec fn needs_event(&self, now_ms: u64) -> bool;

    /// The variant's full contract for `content`: how the result and the new
    /// state relate to the old state, the query time and the event.
    spec fn content_ens(
        &self,
        post: Self,
        now_ms: u64,
        event: Option<Self::Event>,
        r: Result<String, BlockError>,
    ) -> bool;

    /// The preferred polling cadence, in whole seconds.
    spec fn spec_interval(&self) -> u64;

    /// The display color, as a packed RGB integer.
    spec fn spec_color(&self) -> u32;

    /// Re-evaluates the refresh policy at `now_ms`.
    fn should_refresh(&self, now_ms: u64) -> (b: bool)
        ensures
            b == self.needs_event(now_ms),
    ;

    /// The text to render now. `event` is the outcome of the widget's outside
    /// work, present exactly when the refresh policy asked for it.
    fn content(&mut self, now_ms: u64, event: Option<Self::Event>) -> (r: Result<
        String,
        BlockError,
    >)
        requires
            old(self).inv(),
            (event is Some) <==> old(self).needs_event(now_ms),
        ensures
            final(self).inv(),
            old(self).content_ens(*final(self), now_ms, event, r),
    ;

    /// Pure accessor: the preferred polling cadence in whole seconds.
    fn interval(&self) -> (r: u64)
        ensures
            r == self.spec_interval(),
    ;

    /// Pure accessor: the display color.
    fn color(&self) -> (r: u32)
        ensures
            r == self.spec_color(),
    ;
}

} // verus!

//! Spans that trace what the runtime is doing.

use crate::runtime::store::TaoWindowId;
use vstd::prelude::*;

verus! {

/// A span that was entered and not left.
#[derive(Debug, Clone, Copy, PartialEq, Eq, Structural)]
pub enum ActiveTracingSpan {
    /// A window is drawn. The span is known by the number it was registered under.
    WindowDraw { id: TaoWindowId, span: u64 },
}

/// The spans that were entered and not left.
#[derive(Debug)]
pub struct ActiveTraceSpanStore {
    spans: Vec<ActiveTracingSpan>,
}

impl View for ActiveTraceSpanStore {
    type V = Seq<ActiveTracingSpan>;

    closed spec fn view(&self) -> Seq<ActiveTracingSpan> {
        self.spans@
    }
}

/// The spans that do not trace the drawing of a window.
pub open spec fn without_window_draws(spans: Seq<ActiveTracingSpan>) -> Seq<ActiveTracingSpan> {
    spans.filter(|span: ActiveTracingSpan| !(span is WindowDraw))
}

impl ActiveTraceSpanStore {
    /// No spans.
    pub fn new() -> (store: Self)
        ensures
            store@ == Seq::<ActiveTracingSpan>::empty(),
    {
        ActiveTraceSpanStore { spans: Vec::new() }
    }

    /// Enters a span.
    pub fn push(&mut self, span: ActiveTracingSpan)
        ensures
            final(self)@ == old(self)@.push(span),
    {
        self.spans.push(span);
    }

    /// Leaves the spans that trace the drawing of windows.
    pub fn remove_window_draw(&mut self)
        ensures
            final(self)@ == without_window_draws(old(self)@),
    {
        let mut kept: Vec<ActiveTracingSpan> = Vec::new();
        let mut index: usize = 0;
        assert(self.spans@.take(0) =~= Seq::empty());
        assert(kept@ =~= without_window_draws(self.spans@.take(0))) by {
            reveal(Seq::filter);
        }
        while index < self.spans.len()
            invariant
                index <= self.spans@.len(),
                self.spans@ == old(self).spans@,
                kept@ == without_window_draws(self.spans@.take(index as int)),
            decreases self.spans@.len() - index,
        {
            proof {
                reveal(Seq::filter);
                let seen = self.spans@.take(index + 1);
                assert(seen.drop_last() =~= self.spans@.take(index as int));
                assert(seen.last() == self.spans@[index as int]);
            }
            match self.spans[index] {
                ActiveTracingSpan::WindowDraw { .. } => {},
            }
            index = index + 1;
        }
        assert(self.spans@.take(index as int) =~= self.spans@);
        self.spans = kept;
    }
}

/// No span that traces the drawing of a window is left. So far there are no others.
pub proof fn lemma_no_window_draw_is_left(spans: Seq<ActiveTracingSpan>)
    ensures
        without_window_draws(spans) == Seq::<ActiveTracingSpan>::empty(),
    decreases spans.len(),
{
    reveal(Seq::filter);
    if spans.len() > 0 {
        lemma_no_window_draw_is_left(spans.drop_last());
        assert(spans.last() is WindowDraw);
    }
}

} // verus!

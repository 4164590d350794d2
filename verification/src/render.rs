//! Render-loop control signals and the decision they drive.
//!
//! A render thread receives a batch of pending signals once per frame and
//! reacts to them: stop rendering, redraw, resize the viewport, or display
//! another texture. The window, file and GPU work belongs to the
//! surrounding tooling; what this module holds is the decision itself —
//! what one batch of signals asks the render thread to do.

use vstd::prelude::*;

verus! {

/// A control signal sent to the render thread.
#[derive(Clone, Debug, PartialEq, Eq)]
pub enum RenderSignal {
    /// Stop rendering and shut the render thread down.
    Stop,
    /// Redraw with unchanged state.
    Refresh,
    /// Resize the viewport to the given width and height.
    Resize(i32, i32),
    /// Load the texture at the given path and display it.
    ChangeTexture(String),
}

/// Mathematical model of a [`RenderSignal`].
#[verifier::ext_equal]
pub enum RenderSignalView {
    Stop,
    Refresh,
    Resize(i32, i32),
    ChangeTexture(Seq<char>),
}

impl View for RenderSignal {
    type V = RenderSignalView;

    open spec fn view(&self) -> RenderSignalView {
        match self {
            RenderSignal::Stop => RenderSignalView::Stop,
            RenderSignal::Refresh => RenderSignalView::Refresh,
            RenderSignal::Resize(w, h) => RenderSignalView::Resize(*w, *h),
            RenderSignal::ChangeTexture(p) => RenderSignalView::ChangeTexture(p@),
        }
    }
}

/// What one batch of pending signals asks of the render thread.
#[derive(Debug, PartialEq, Eq)]
pub struct SignalOutcome {
    /// The batch stops the render loop; signals after the first `Stop` are
    /// left unprocessed.
    pub stop: bool,
    /// The viewport size requested by the last `Resize` in the batch, or
    /// absent. A batch that stops the loop leaves no size to apply.
    pub viewport: Option<(i32, i32)>,
    /// The texture paths to display, in arrival order, up to any `Stop`.
    pub textures: Vec<String>,
}

/// Mathematical model of a [`SignalOutcome`].
#[verifier::ext_equal]
pub struct SignalOutcomeView {
    pub stop: bool,
    pub viewport: Option<(i32, i32)>,
    pub textures: Seq<Seq<char>>,
}

impl View for SignalOutcome {
    type V = SignalOutcomeView;

    open spec fn view(&self) -> SignalOutcomeView {
        SignalOutcomeView {
            stop: self.stop,
            viewport: self.viewport,
            textures: self.textures@.map_values(|t: String| t@),
        }
    }
}

/// The models of a batch of signals, in order.
pub open spec fn signals_view(ss: Seq<RenderSignal>) -> Seq<RenderSignalView> {
    ss.map_values(|s: RenderSignal| s@)
}

/// The outcome of a batch before any signal arrived: keep rendering,
/// nothing to resize, nothing to display.
pub open spec fn empty_outcome() -> SignalOutcomeView {
    SignalOutcomeView { stop: false, viewport: None, textures: Seq::empty() }
}

/// How one signal advances the outcome. A batch that has already stopped
/// absorbs every further signal unprocessed.
pub open spec fn signal_step(state: SignalOutcomeView, s: RenderSignalView) -> SignalOutcomeView {
    if state.stop {
        state
    } else {
        match s {
            RenderSignalView::Stop => SignalOutcomeView {
                stop: true,
                viewport: None,
                textures: state.textures,
            },
            RenderSignalView::Refresh => state,
            RenderSignalView::Resize(w, h) => SignalOutcomeView {
                stop: false,
                viewport: Some((w, h)),
                textures: state.textures,
            },
            RenderSignalView::ChangeTexture(p) => SignalOutcomeView {
                stop: false,
                viewport: state.viewport,
                textures: state.textures.push(p),
            },
        }
    }
}

/// The outcome of a whole batch: the signals folded in order over
/// [`signal_step`].
pub open spec fn outcome_view(signals: Seq<RenderSignalView>) -> SignalOutcomeView
    decreases signals.len(),
{
    if signals.len() == 0 {
        empty_outcome()
    } else {
        signal_step(outcome_view(signals.drop_last()), signals.last())
    }
}

/// A batch whose processed prefix has stopped keeps the prefix's outcome:
/// everything after the first `Stop` is ignored.
pub proof fn lemma_outcome_absorbs_after_stop(signals: Seq<RenderSignalView>, i: int)
    requires
        0 <= i <= signals.len(),
        outcome_view(signals.take(i)).stop,
    ensures
        outcome_view(signals) == outcome_view(signals.take(i)),
    decreases signals.len() - i,
{
    if i == signals.len() {
        assert(signals.take(i) =~= signals);
    } else {
        assert(signals.take(i + 1).drop_last() =~= signals.take(i));
        assert(outcome_view(signals.take(i + 1)) == signal_step(
            outcome_view(signals.take(i)),
            signals[i],
        ));
        lemma_outcome_absorbs_after_stop(signals, i + 1);
    }
}

/// Work out what a batch of pending signals asks the render thread to do.
///
/// Signals are processed in arrival order; the first `Stop` ends the batch
/// and leaves the rest unprocessed. Of several `Resize` requests only the
/// last one matters, and texture changes are kept in order.
pub fn process_signals(signals: &Vec<RenderSignal>) -> (r: SignalOutcome)
    ensures
        r@ == outcome_view(signals_view(signals@)),
{
    let ghost all = signals_view(signals@);
    let mut stop = false;
    let mut viewport: Option<(i32, i32)> = None;
    let mut textures: Vec<String> = Vec::new();
    let mut i: usize = 0;
    while i < signals.len() && !stop
        invariant
            i <= signals@.len(),
            all == signals_view(signals@),
            (SignalOutcomeView {
                stop: stop,
                viewport: viewport,
                textures: textures@.map_values(|t: String| t@),
            }) == outcome_view(all.take(i as int)),
        decreases signals@.len() - i,
    {
        proof {
            assert(all.take(i as int + 1).drop_last() =~= all.take(i as int));
        }
        match &signals[i] {
            RenderSignal::Stop => {
                stop = true;
                viewport = None;
            },
            RenderSignal::Refresh => {},
            RenderSignal::Resize(w, h) => {
                viewport = Some((*w, *h));
            },
            RenderSignal::ChangeTexture(p) => {
                textures.push(p.clone());
                proof {
                    assert(textures@.map_values(|t: String| t@) =~= outcome_view(
                        all.take(i as int),
                    ).textures.push(signals@[i as int]@->ChangeTexture_0));
                }
            },
        }
        proof {
            assert(SignalOutcomeView {
                stop: stop,
                viewport: viewport,
                textures: textures@.map_values(|t: String| t@),
            } =~= outcome_view(all.take(i as int + 1)));
        }
        i += 1;
    }
    proof {
        if stop {
            lemma_outcome_absorbs_after_stop(all, i as int);
        } else {
            assert(all.take(i as int) =~= all);
        }
    }
    SignalOutcome { stop, viewport, textures }
}

} // verus!

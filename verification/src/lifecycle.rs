//! The life of a wrapper as a state machine, and what holds of every run of it.

use vstd::prelude::*;

use crate::instance::Capabilities;
use crate::native::NativeCall;

verus! {

/// Where a wrapper stands in its life.
pub enum Lifecycle {
    /// No load was attempted yet.
    Uninitialized,
    /// The load gave no handle. Terminal: no resource is held.
    Failed,
    /// The wrapper owns `handle`, which is not null.
    Live { handle: usize },
    /// The handle was released. Terminal.
    Disposed,
}

/// What can happen to a wrapper.
pub enum Transition {
    /// A load attempt, which the native layer answered with `handle`.
    Load { handle: usize },
    /// One frame's update.
    Update,
    /// One frame's draw.
    Draw,
    /// The end of the wrapper's life.
    Teardown,
}

impl Lifecycle {
    /// Whether the machine of an instance with these capabilities has a
    /// transition `transition` out of this state. A wrapper can be drawn only
    /// where there is a rendering backend.
    pub open spec fn admits(self, transition: Transition, capabilities: Capabilities) -> bool {
        match (self, transition) {
            (Lifecycle::Uninitialized, Transition::Load { .. }) => true,
            (Lifecycle::Live { .. }, Transition::Update) => true,
            (Lifecycle::Live { .. }, Transition::Draw) => capabilities.rendering_backend,
            (Lifecycle::Live { .. }, Transition::Teardown) => true,
            _ => false,
        }
    }

    /// The state that `transition` leads to. A transition that the state does
    /// not admit leaves it where it is.
    pub open spec fn after(self, transition: Transition) -> Lifecycle {
        match (self, transition) {
            (Lifecycle::Uninitialized, Transition::Load { handle }) => if handle == 0 {
                Lifecycle::Failed
            } else {
                Lifecycle::Live { handle }
            },
            (Lifecycle::Live { .. }, Transition::Teardown) => Lifecycle::Disposed,
            _ => self,
        }
    }

    /// The native call that `transition` makes on the owned handle. A
    /// transition that the state does not admit makes none.
    pub open spec fn call(self, transition: Transition, capabilities: Capabilities) -> Option<
        NativeCall,
    > {
        if self.admits(transition, capabilities) {
            match (self, transition) {
                (Lifecycle::Live { handle }, Transition::Update) => Some(
                    NativeCall::Update { handle },
                ),
                (Lifecycle::Live { handle }, Transition::Draw) => Some(NativeCall::Draw { handle }),
                (Lifecycle::Live { handle }, Transition::Teardown) => Some(
                    NativeCall::Destroy { handle },
                ),
                _ => None,
            }
        } else {
            None
        }
    }
}

/// Whether `transitions`, taken in order from `start`, are all transitions
/// that the machine of an instance with these capabilities has.
pub open spec fn valid_run(
    start: Lifecycle,
    transitions: Seq<Transition>,
    capabilities: Capabilities,
) -> bool
    decreases transitions.len(),
{
    transitions.len() == 0 || (start.admits(transitions[0], capabilities) && valid_run(
        start.after(transitions[0]),
        transitions.drop_first(),
        capabilities,
    ))
}

/// The state that `transitions` lead to from `start`.
pub open spec fn end_of(start: Lifecycle, transitions: Seq<Transition>) -> Lifecycle
    decreases transitions.len(),
{
    if transitions.len() == 0 {
        start
    } else {
        end_of(start.after(transitions[0]), transitions.drop_first())
    }
}

/// The native calls that `transitions` make from `start`, in order.
pub open spec fn calls_of(
    start: Lifecycle,
    transitions: Seq<Transition>,
    capabilities: Capabilities,
) -> Seq<NativeCall>
    decreases transitions.len(),
{
    if transitions.len() == 0 {
        Seq::empty()
    } else {
        let rest = calls_of(start.after(transitions[0]), transitions.drop_first(), capabilities);
        match start.call(transitions[0], capabilities) {
            Some(call) => seq![call] + rest,
            None => rest,
        }
    }
}

/// `Failed` and `Disposed` are terminal: the machine has no transition out of
/// either, and nothing that happens there changes the state or makes a native
/// call.
pub proof fn lemma_terminal_states(
    state: Lifecycle,
    transition: Transition,
    capabilities: Capabilities,
)
    requires
        state is Failed || state is Disposed,
    ensures
        !state.admits(transition, capabilities),
        state.after(transition) == state,
        state.call(transition, capabilities) is None,
{
}

/// The only way into `Live` is a load, out of `Uninitialized`, that returned a
/// handle which is not null. Whatever else leads to a live state started in
/// that same state, so nothing leads back from `Failed` or `Disposed`, and a
/// live wrapper never changes its handle.
pub proof fn lemma_live_only_by_load(state: Lifecycle, transition: Transition)
    requires
        state.after(transition) is Live,
    ensures
        state is Uninitialized || state is Live,
        state is Uninitialized ==> state.after(transition)->handle != 0 && transition == (
        Transition::Load { handle: state.after(transition)->handle }),
        state is Live ==> state.after(transition) == state,
{
}

/// A wrapper of an instance without a rendering backend is never drawn: no
/// run of it holds a draw, and none of its calls is a draw call.
pub proof fn lemma_no_draw_without_backend(
    start: Lifecycle,
    transitions: Seq<Transition>,
    capabilities: Capabilities,
)
    requires
        !capabilities.rendering_backend,
        valid_run(start, transitions, capabilities),
    ensures
        forall|i: int| 0 <= i < transitions.len() ==> !(#[trigger] transitions[i] is Draw),
        forall|i: int|
            0 <= i < calls_of(start, transitions, capabilities).len() ==> !(#[trigger] calls_of(
                start,
                transitions,
                capabilities,
            )[i] is Draw),
    decreases transitions.len(),
{
    if transitions.len() > 0 {
        let first = transitions[0];
        let rest = transitions.drop_first();
        lemma_no_draw_without_backend(start.after(first), rest, capabilities);
        assert forall|i: int| 0 <= i < transitions.len() implies !(
        #[trigger] transitions[i] is Draw) by {
            if i > 0 {
                assert(transitions[i] == rest[i - 1]);
            }
        }
        let calls = calls_of(start, transitions, capabilities);
        let later = calls_of(start.after(first), rest, capabilities);
        assert forall|i: int| 0 <= i < calls.len() implies !(#[trigger] calls[i] is Draw) by {
            if start.call(first, capabilities) is Some {
                if i > 0 {
                    assert(calls[i] == later[i - 1]);
                }
            } else {
                assert(calls[i] == later[i]);
            }
        }
    }
}

/// No run goes on from a terminal state.
pub proof fn lemma_terminal_run_is_empty(
    start: Lifecycle,
    transitions: Seq<Transition>,
    capabilities: Capabilities,
)
    requires
        start is Failed || start is Disposed,
        valid_run(start, transitions, capabilities),
    ensures
        transitions.len() == 0,
{
}

/// In a run of a live wrapper every transition makes its own call on the
/// wrapper's handle, none is a load, and only the last can be a teardown:
/// the run ends disposed if it is one, and live on the same handle if not.
pub proof fn lemma_live_run(
    handle: usize,
    transitions: Seq<Transition>,
    capabilities: Capabilities,
)
    requires
        valid_run(Lifecycle::Live { handle }, transitions, capabilities),
    ensures
        ({
            let live = Lifecycle::Live { handle };
            let calls = calls_of(live, transitions, capabilities);
            &&& calls.len() == transitions.len()
            &&& forall|i: int|
                0 <= i < transitions.len() ==> Some(#[trigger] calls[i]) == live.call(
                    transitions[i],
                    capabilities,
                )
            &&& forall|i: int| 0 <= i < transitions.len() ==> !(#[trigger] transitions[i] is Load)
            &&& forall|i: int|
                0 <= i < transitions.len() - 1 ==> !(#[trigger] transitions[i] is Teardown)
            &&& end_of(live, transitions) == if transitions.len() > 0
                && transitions.last() is Teardown {
                Lifecycle::Disposed
            } else {
                live
            }
        }),
    decreases transitions.len(),
{
    let live = Lifecycle::Live { handle };
    let calls = calls_of(live, transitions, capabilities);
    if transitions.len() > 0 {
        let first = transitions[0];
        let rest = transitions.drop_first();
        assert(end_of(live, transitions) == end_of(live.after(first), rest));
        if first is Teardown {
            lemma_terminal_run_is_empty(Lifecycle::Disposed, rest, capabilities);
            assert(calls_of(Lifecycle::Disposed, rest, capabilities) =~= Seq::empty());
            assert(end_of(Lifecycle::Disposed, rest) == Lifecycle::Disposed);
        } else {
            assert(live.after(first) == live);
            lemma_live_run(handle, rest, capabilities);
            assert forall|i: int| 0 <= i < transitions.len() implies Some(#[trigger] calls[i])
                == live.call(transitions[i], capabilities) by {
                if i > 0 {
                    assert(transitions[i] == rest[i - 1]);
                    assert(calls[i] == calls_of(live, rest, capabilities)[i - 1]);
                }
            }
            assert forall|i: int| 0 <= i < transitions.len() implies !(
            #[trigger] transitions[i] is Load) by {
                if i > 0 {
                    assert(transitions[i] == rest[i - 1]);
                }
            }
            assert forall|i: int| 0 <= i < transitions.len() - 1 implies !(
            #[trigger] transitions[i] is Teardown) by {
                if i > 0 {
                    assert(transitions[i] == rest[i - 1]);
                }
            }
            if rest.len() > 0 {
                assert(transitions.last() == rest.last());
            }
        }
    }
}

/// The teardown of a live wrapper makes the destroy call on the wrapper's
/// handle exactly once, and neither sooner nor later: in a run that takes the
/// wrapper from live to disposed, the last native call is the destroy call on
/// its handle, and every call before it is an update or a draw on that handle.
pub proof fn lemma_destroy_exactly_once(
    handle: usize,
    transitions: Seq<Transition>,
    capabilities: Capabilities,
)
    requires
        valid_run(Lifecycle::Live { handle }, transitions, capabilities),
        end_of(Lifecycle::Live { handle }, transitions) is Disposed,
    ensures
        ({
            let calls = calls_of(Lifecycle::Live { handle }, transitions, capabilities);
            &&& calls.len() > 0
            &&& calls.last() == (NativeCall::Destroy { handle })
            &&& forall|i: int| 0 <= i < calls.len() - 1 ==> (#[trigger] calls[i]).is_frame_of(handle)
        }),
{
    lemma_live_run(handle, transitions, capabilities);
    let calls = calls_of(Lifecycle::Live { handle }, transitions, capabilities);
    assert forall|i: int| 0 <= i < calls.len() - 1 implies (#[trigger] calls[i]).is_frame_of(
        handle,
    ) by {
        assert(!(transitions[i] is Teardown));
        assert(!(transitions[i] is Load));
    }
}

/// As long as a live wrapper has not been torn down, no destroy call was made
/// on its handle: every call of a run that leaves the wrapper live is an update
/// or a draw on that handle.
pub proof fn lemma_no_destroy_while_live(
    handle: usize,
    transitions: Seq<Transition>,
    capabilities: Capabilities,
)
    requires
        valid_run(Lifecycle::Live { handle }, transitions, capabilities),
        end_of(Lifecycle::Live { handle }, transitions) is Live,
    ensures
        ({
            let calls = calls_of(Lifecycle::Live { handle }, transitions, capabilities);
            forall|i: int| 0 <= i < calls.len() ==> (#[trigger] calls[i]).is_frame_of(handle)
        }),
{
    lemma_live_run(handle, transitions, capabilities);
    let calls = calls_of(Lifecycle::Live { handle }, transitions, capabilities);
    assert forall|i: int| 0 <= i < calls.len() implies (#[trigger] calls[i]).is_frame_of(
        handle,
    ) by {
        assert(!(transitions[i] is Teardown));
        assert(!(transitions[i] is Load));
    }
}

/// A whole life that ends disposed began with a load that returned a handle
/// which is not null, and made the destroy call on that handle exactly once,
/// as its last call, after nothing but updates and draws on that handle.
pub proof fn lemma_whole_life(transitions: Seq<Transition>, capabilities: Capabilities)
    requires
        valid_run(Lifecycle::Uninitialized, transitions, capabilities),
        end_of(Lifecycle::Uninitialized, transitions) is Disposed,
    ensures
        ({
            let calls = calls_of(Lifecycle::Uninitialized, transitions, capabilities);
            let handle = transitions[0]->handle;
            &&& transitions.len() >= 2
            &&& transitions[0] is Load
            &&& handle != 0
            &&& calls.len() == transitions.len() - 1
            &&& calls.last() == (NativeCall::Destroy { handle })
            &&& forall|i: int| 0 <= i < calls.len() - 1 ==> (#[trigger] calls[i]).is_frame_of(handle)
        }),
{
    let rest = transitions.drop_first();
    let next = Lifecycle::Uninitialized.after(transitions[0]);
    assert(end_of(Lifecycle::Uninitialized, transitions) == end_of(next, rest));
    assert(calls_of(Lifecycle::Uninitialized, transitions, capabilities) == calls_of(
        next,
        rest,
        capabilities,
    ));
    if next is Failed {
        lemma_terminal_run_is_empty(next, rest, capabilities);
    } else {
        let handle = transitions[0]->handle;
        lemma_live_run(handle, rest, capabilities);
        lemma_destroy_exactly_once(handle, rest, capabilities);
    }
}

/// A life that ends failed is the one load that returned the null handle, and
/// made no call on any handle: there is nothing to release.
pub proof fn lemma_failed_life(transitions: Seq<Transition>, capabilities: Capabilities)
    requires
        valid_run(Lifecycle::Uninitialized, transitions, capabilities),
        end_of(Lifecycle::Uninitialized, transitions) is Failed,
    ensures
        transitions == seq![Transition::Load { handle: 0 }],
        calls_of(Lifecycle::Uninitialized, transitions, capabilities).len() == 0,
{
    let rest = transitions.drop_first();
    let next = Lifecycle::Uninitialized.after(transitions[0]);
    assert(end_of(Lifecycle::Uninitialized, transitions) == end_of(next, rest));
    assert(calls_of(Lifecycle::Uninitialized, transitions, capabilities) == calls_of(
        next,
        rest,
        capabilities,
    ));
    if next is Failed {
        lemma_terminal_run_is_empty(next, rest, capabilities);
        assert(transitions =~= seq![Transition::Load { handle: 0 }]);
    } else {
        lemma_live_run(transitions[0]->handle, rest, capabilities);
    }
}

/// Nothing can be asked of a wrapper after its teardown: in every run, from
/// whatever state, a teardown is the last transition and leaves the wrapper
/// disposed.
pub proof fn lemma_nothing_follows_teardown(
    start: Lifecycle,
    transitions: Seq<Transition>,
    capabilities: Capabilities,
    position: int,
)
    requires
        valid_run(start, transitions, capabilities),
        0 <= position < transitions.len(),
        transitions[position] is Teardown,
    ensures
        position == transitions.len() - 1,
        end_of(start, transitions) is Disposed,
    decreases transitions.len(),
{
    let first = transitions[0];
    let rest = transitions.drop_first();
    assert(end_of(start, transitions) == end_of(start.after(first), rest));
    if position == 0 {
        lemma_terminal_run_is_empty(Lifecycle::Disposed, rest, capabilities);
        assert(end_of(Lifecycle::Disposed, rest) == Lifecycle::Disposed);
    } else {
        assert(rest[position - 1] == transitions[position]);
        lemma_nothing_follows_teardown(start.after(first), rest, capabilities, position - 1);
    }
}

} // verus!

//! The pipeline as a mathematical state machine.
//!
//! [`step_model`] says, for every state and every input, which state follows
//! and which action the driver is handed. The executable pipeline is proved
//! to compute exactly this function.

use crate::cache::lookup;
use crate::classifier::{classification, ClassifiedView};
use crate::event::{EventKind, EventView};
use crate::profile::display_name_of;
use crate::protocol::{ActionView, InputView, OutboundMessageView, StartupError, Stream};
use crate::relay::{main_filter, resolver_filter, FilterView, NotificationView};
use vstd::prelude::*;

verus! {

/// The named states of a pipeline's life.
#[derive(Clone, Copy, Debug, PartialEq, Eq, Structural)]
pub enum Phase {
    /// Made, not started.
    Created,
    /// Started; the relays are being connected to and the main filter
    /// registered.
    Connecting,
    /// The main subscription stands; no notification has come yet.
    Subscribed,
    /// Notifications are being processed.
    Running,
    /// Shutdown was seen; the main subscription is being withdrawn.
    Draining,
    /// Over. No input is accepted any more.
    Stopped,
}

/// Where a pipeline stands, with what it holds there.
///
/// `main` is the handle of the main subscription, `post` the post whose
/// author is being resolved, `narrow` the handle of the subscription opened
/// for that.
pub enum StageView {
    Created { relays: Seq<Seq<char>> },
    Connecting,
    Subscribing,
    Subscribed { main: Seq<char> },
    Receiving { main: Seq<char> },
    ResolverSubscribing { main: Seq<char>, post: EventView },
    Resolving { main: Seq<char>, post: EventView, narrow: Seq<char> },
    Closing { main: Seq<char>, post: EventView },
    Emitting { main: Seq<char> },
    Draining,
    Stopped,
}

/// The phase that a stage belongs to.
pub open spec fn phase_of(stage: StageView) -> Phase {
    match stage {
        StageView::Created { .. } => Phase::Created,
        StageView::Connecting => Phase::Connecting,
        StageView::Subscribing => Phase::Connecting,
        StageView::Subscribed { .. } => Phase::Subscribed,
        StageView::Receiving { .. } => Phase::Running,
        StageView::ResolverSubscribing { .. } => Phase::Running,
        StageView::Resolving { .. } => Phase::Running,
        StageView::Closing { .. } => Phase::Running,
        StageView::Emitting { .. } => Phase::Running,
        StageView::Draining => Phase::Draining,
        StageView::Stopped => Phase::Stopped,
    }
}

/// A pipeline as mathematical values: its stage and the names it knows.
pub struct PipelineView {
    pub stage: StageView,
    pub names: Map<Seq<char>, Seq<char>>,
}

/// What is to be done about one event of the main stream.
pub enum DecisionView {
    /// Nothing to hand on.
    Continue,
    /// Hand this message on.
    Emit(OutboundMessageView),
    /// The author of this post is unknown: ask the relays with this filter.
    Resolve { post: EventView, filter: FilterView },
}

/// The display name that an event states of its author: that of its content
/// if it is a profile update, none otherwise.
pub open spec fn profile_name(event: EventView) -> Option<Seq<char>> {
    if event.kind == EventKind::ProfileMetadata {
        display_name_of(event.content)
    } else {
        None
    }
}

/// The names known once `content` has been read as a profile of `author`:
/// the name it states replaces what was known of the author, and content
/// that states none changes nothing.
pub open spec fn names_after_profile(
    names: Map<Seq<char>, Seq<char>>,
    author: Seq<char>,
    content: Seq<char>,
) -> Map<Seq<char>, Seq<char>> {
    match display_name_of(content) {
        Some(name) => names.insert(author, name),
        None => names,
    }
}

/// The names known after an event of the main stream, and what is to be done
/// about the event.
pub open spec fn decide(names: Map<Seq<char>, Seq<char>>, event: EventView) -> (
    Map<Seq<char>, Seq<char>>,
    DecisionView,
) {
    match classification(event) {
        ClassifiedView::ProfileUpdate { author, raw_content } => (
            names_after_profile(names, author, raw_content),
            DecisionView::Continue,
        ),
        ClassifiedView::Post { event } => match lookup(names, event.author) {
            Some(display_name) => (
                names,
                DecisionView::Emit(OutboundMessageView { event, display_name }),
            ),
            None => (
                names,
                DecisionView::Resolve { post: event, filter: resolver_filter(event.author) },
            ),
        },
        ClassifiedView::Ignored => (names, DecisionView::Continue),
    }
}

/// The name that a notification of the resolver's stream settles for
/// `author`: that of a profile update by this author which states one.
/// Everything else settles nothing.
pub open spec fn resolved_name(author: Seq<char>, notification: NotificationView) -> Option<
    Seq<char>,
> {
    match notification {
        NotificationView::Event(event) => if event.author == author {
            profile_name(event)
        } else {
            None
        },
        _ => None,
    }
}

/// The step taken on a notification of the main stream.
pub open spec fn on_notification(
    main: Seq<char>,
    names: Map<Seq<char>, Seq<char>>,
    notification: NotificationView,
) -> (PipelineView, ActionView) {
    match notification {
        NotificationView::Event(event) => {
            let (names, decision) = decide(names, event);
            match decision {
                DecisionView::Continue => (
                    PipelineView { stage: StageView::Receiving { main }, names },
                    ActionView::Receive(Stream::Main),
                ),
                DecisionView::Emit(message) => (
                    PipelineView { stage: StageView::Emitting { main }, names },
                    ActionView::Emit(message),
                ),
                DecisionView::Resolve { post, filter } => (
                    PipelineView { stage: StageView::ResolverSubscribing { main, post }, names },
                    ActionView::Subscribe(filter),
                ),
            }
        },
        NotificationView::Shutdown => (
            PipelineView { stage: StageView::Draining, names },
            ActionView::Unsubscribe(main),
        ),
        _ => (
            PipelineView { stage: StageView::Receiving { main }, names },
            ActionView::Receive(Stream::Main),
        ),
    }
}

/// The step taken once the resolver is done, its subscription closed or
/// never opened: the post goes out under the name now known of its author,
/// or is dropped if there is still none.
pub open spec fn on_resolver_closed(
    main: Seq<char>,
    names: Map<Seq<char>, Seq<char>>,
    post: EventView,
) -> (PipelineView, ActionView) {
    match lookup(names, post.author) {
        Some(display_name) => (
            PipelineView { stage: StageView::Emitting { main }, names },
            ActionView::Emit(OutboundMessageView { event: post, display_name }),
        ),
        None => (
            PipelineView { stage: StageView::Receiving { main }, names },
            ActionView::Receive(Stream::Main),
        ),
    }
}

/// The state that follows `state` on `input`, and the action handed out.
///
/// An input that does not answer the outstanding action is refused and
/// leaves the state as it is.
pub open spec fn step_model(state: PipelineView, input: InputView) -> (PipelineView, ActionView) {
    let names = state.names;
    let refused = (state, ActionView::Refuse);
    match state.stage {
        StageView::Created { relays } => match input {
            InputView::Start => (
                PipelineView { stage: StageView::Connecting, names },
                ActionView::Connect(relays),
            ),
            _ => refused,
        },
        StageView::Connecting => match input {
            InputView::Connected => (
                PipelineView { stage: StageView::Subscribing, names },
                ActionView::Subscribe(main_filter()),
            ),
            InputView::ConnectFailed => (
                PipelineView { stage: StageView::Stopped, names },
                ActionView::Finish(Err(StartupError::Connect)),
            ),
            _ => refused,
        },
        StageView::Subscribing => match input {
            InputView::Subscribed(main) => (
                PipelineView { stage: StageView::Subscribed { main }, names },
                ActionView::Receive(Stream::Main),
            ),
            InputView::SubscribeFailed => (
                PipelineView { stage: StageView::Stopped, names },
                ActionView::Finish(Err(StartupError::Subscribe)),
            ),
            _ => refused,
        },
        StageView::Subscribed { main } => match input {
            InputView::Notified(notification) => on_notification(main, names, notification),
            InputView::ReceiveFailed => (state, ActionView::Receive(Stream::Main)),
            _ => refused,
        },
        StageView::Receiving { main } => match input {
            InputView::Notified(notification) => on_notification(main, names, notification),
            InputView::ReceiveFailed => (state, ActionView::Receive(Stream::Main)),
            _ => refused,
        },
        StageView::ResolverSubscribing { main, post } => match input {
            InputView::Subscribed(narrow) => (
                PipelineView { stage: StageView::Resolving { main, post, narrow }, names },
                ActionView::Receive(Stream::Resolver),
            ),
            InputView::SubscribeFailed => on_resolver_closed(main, names, post),
            _ => refused,
        },
        StageView::Resolving { main, post, narrow } => match input {
            InputView::Notified(notification) => match resolved_name(post.author, notification) {
                Some(name) => (
                    PipelineView {
                        stage: StageView::Closing { main, post },
                        names: names.insert(post.author, name),
                    },
                    ActionView::Unsubscribe(narrow),
                ),
                None => (state, ActionView::Receive(Stream::Resolver)),
            },
            InputView::ReceiveFailed => (
                PipelineView { stage: StageView::Closing { main, post }, names },
                ActionView::Unsubscribe(narrow),
            ),
            _ => refused,
        },
        StageView::Closing { main, post } => match input {
            InputView::Unsubscribed => on_resolver_closed(main, names, post),
            _ => refused,
        },
        StageView::Emitting { main } => match input {
            InputView::Delivered => (
                PipelineView { stage: StageView::Receiving { main }, names },
                ActionView::Receive(Stream::Main),
            ),
            InputView::DeliveryFailed => (
                PipelineView { stage: StageView::Receiving { main }, names },
                ActionView::Receive(Stream::Main),
            ),
            _ => refused,
        },
        StageView::Draining => match input {
            InputView::Unsubscribed => (
                PipelineView { stage: StageView::Stopped, names },
                ActionView::Finish(Ok(())),
            ),
            _ => refused,
        },
        StageView::Stopped => refused,
    }
}

/// The state reached from `state` by a sequence of inputs, one step each.
pub open spec fn state_after(state: PipelineView, inputs: Seq<InputView>) -> PipelineView
    decreases inputs.len(),
{
    if inputs.len() == 0 {
        state
    } else {
        state_after(step_model(state, inputs[0]).0, inputs.skip(1))
    }
}

/// The actions handed out on a sequence of inputs, one for each.
pub open spec fn actions_of(state: PipelineView, inputs: Seq<InputView>) -> Seq<ActionView>
    decreases inputs.len(),
{
    if inputs.len() == 0 {
        Seq::empty()
    } else {
        seq![step_model(state, inputs[0]).1] + actions_of(
            step_model(state, inputs[0]).0,
            inputs.skip(1),
        )
    }
}

/// One action is handed out for each input.
pub proof fn lemma_one_action_each(state: PipelineView, inputs: Seq<InputView>)
    ensures
        actions_of(state, inputs).len() == inputs.len(),
    decreases inputs.len(),
{
    if inputs.len() > 0 {
        lemma_one_action_each(step_model(state, inputs[0]).0, inputs.skip(1));
    }
}

/// A run that is given one more input goes on from where it had come to.
pub proof fn lemma_run_extends(state: PipelineView, inputs: Seq<InputView>, last: InputView)
    ensures
        state_after(state, inputs.push(last)) == step_model(state_after(state, inputs), last).0,
        actions_of(state, inputs.push(last)) == actions_of(state, inputs).push(
            step_model(state_after(state, inputs), last).1,
        ),
    decreases inputs.len(),
{
    let longer = inputs.push(last);
    if inputs.len() == 0 {
        let next = step_model(state, last).0;
        assert(longer[0] == last);
        assert(longer.skip(1).len() == 0);
        assert(state_after(next, longer.skip(1)) == next);
        assert(actions_of(next, longer.skip(1)) =~= Seq::<ActionView>::empty());
        assert(actions_of(state, longer) =~= actions_of(state, inputs).push(
            step_model(state, last).1,
        ));
    } else {
        let next = step_model(state, inputs[0]).0;
        assert(longer.skip(1) =~= inputs.skip(1).push(last));
        lemma_run_extends(next, inputs.skip(1), last);
        assert(actions_of(state, longer) =~= actions_of(state, inputs).push(
            step_model(state_after(state, inputs), last).1,
        ));
    }
}

} // verus!

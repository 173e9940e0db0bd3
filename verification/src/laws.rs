//! What holds of every run of the pipeline.
//!
//! Each law is stated over the model of [`crate::model`], which the
//! executable pipeline computes step for step.

use crate::cache::lookup;
use crate::event::{EventKind, EventView};
use crate::model::{
    actions_of, lemma_one_action_each, lemma_run_extends, phase_of, state_after, step_model,
    Phase, PipelineView, StageView,
};
use crate::profile::{display_name_of, json_document};
use crate::protocol::{ActionView, InputView, OutboundMessageView, Stream};
use crate::relay::{resolver_filter, NotificationView};
use vstd::prelude::*;

verus! {

/// The input that delivers `event` on the stream being read.
pub open spec fn delivery(event: EventView) -> InputView {
    InputView::Notified(NotificationView::Event(event))
}

/// Whether the main loop is waiting for its next notification.
pub open spec fn awaiting_notification(stage: StageView) -> bool {
    stage is Subscribed || stage is Receiving
}

/// A profile update whose content is not JSON writes no name, in whatever
/// state it arrives; and where the main loop takes it, the loop goes on to
/// its next notification with nothing emitted.
pub proof fn law_malformed_profile_writes_nothing(state: PipelineView, event: EventView)
    requires
        event.kind == EventKind::ProfileMetadata,
        json_document(event.content) is None,
    ensures
        step_model(state, delivery(event)).0.names == state.names,
        awaiting_notification(state.stage) ==> {
            &&& step_model(state, delivery(event)).0.stage is Receiving
            &&& step_model(state, delivery(event)).1 == ActionView::Receive(Stream::Main)
        },
{
}

/// A profile update that states no usable name writes none either.
pub proof fn law_nameless_profile_writes_nothing(state: PipelineView, event: EventView)
    requires
        event.kind == EventKind::ProfileMetadata,
        display_name_of(event.content) is None,
    ensures
        step_model(state, delivery(event)).0.names == state.names,
{
}

/// Feeding the same profile update twice leaves the same names as feeding
/// it once.
pub proof fn law_profile_update_idempotent(state: PipelineView, event: EventView)
    requires
        event.kind == EventKind::ProfileMetadata,
    ensures
        step_model(step_model(state, delivery(event)).0, delivery(event)).0.names == step_model(
            state,
            delivery(event),
        ).0.names,
{
    let once = step_model(state, delivery(event)).0;
    let twice = step_model(once, delivery(event)).0;
    assert(twice.names =~= once.names);
}

/// The names change by one thing only: a profile update that states a name,
/// taken while the pipeline reads a stream. The name it states then stands
/// for its author, in place of any other.
pub proof fn law_names_change_by_profile_only(state: PipelineView, input: InputView)
    ensures
        step_model(state, input).0.names == state.names || exists|
            event: EventView,
            name: Seq<char>,
        |
            {
                &&& #[trigger] delivery(event) == input
                &&& event.kind == EventKind::ProfileMetadata
                &&& display_name_of(event.content) == Some(name)
                &&& #[trigger] state.names.insert(event.author, name) == step_model(
                    state,
                    input,
                ).0.names
            },
{
    let next = step_model(state, input).0;
    if next.names != state.names {
        match input {
            InputView::Notified(NotificationView::Event(event)) => {
                assert(delivery(event) == input);
                assert(event.kind == EventKind::ProfileMetadata);
                let name = display_name_of(event.content)->0;
                assert(state.names.insert(event.author, name) == next.names);
            },
            _ => {},
        }
    }
}

/// No post goes out without a name: the message that a step sends carries
/// the display name which the pipeline knows of the post's author at that
/// step.
pub proof fn law_emitted_name_is_the_known_name(state: PipelineView, input: InputView)
    ensures
        match step_model(state, input).1 {
            ActionView::Emit(message) => lookup(
                step_model(state, input).0.names,
                message.event.author,
            ) == Some(message.display_name),
            _ => true,
        },
{
}

/// The handle of the main subscription, while that subscription stands.
pub open spec fn main_subscription(stage: StageView) -> Option<Seq<char>> {
    match stage {
        StageView::Subscribed { main } => Some(main),
        StageView::Receiving { main } => Some(main),
        StageView::ResolverSubscribing { main, .. } => Some(main),
        StageView::Resolving { main, .. } => Some(main),
        StageView::Closing { main, .. } => Some(main),
        StageView::Emitting { main } => Some(main),
        _ => None,
    }
}

/// The main subscription stands for as long as notifications are processed.
/// One step only ends it: the one that takes the shutdown notification from
/// the main stream, and that step withdraws it. Every other step leaves it
/// standing under the same handle.
pub proof fn law_main_subscription_stands(state: PipelineView, input: InputView, main: Seq<char>)
    requires
        main_subscription(state.stage) == Some(main),
    ensures
        if awaiting_notification(state.stage) && input == InputView::Notified(
            NotificationView::Shutdown,
        ) {
            &&& step_model(state, input).0.stage is Draining
            &&& step_model(state, input).1 == ActionView::Unsubscribe(main)
        } else {
            main_subscription(step_model(state, input).0.stage) == Some(main)
        },
{
}

/// The place of a phase in a pipeline's life.
pub open spec fn phase_rank(phase: Phase) -> int {
    match phase {
        Phase::Created => 0,
        Phase::Connecting => 1,
        Phase::Subscribed => 2,
        Phase::Running => 3,
        Phase::Draining => 4,
        Phase::Stopped => 5,
    }
}

/// A pipeline never goes back to an earlier phase, and a stopped one stays
/// as it is whatever it is given.
pub proof fn law_phases_advance(state: PipelineView, input: InputView)
    ensures
        phase_rank(phase_of(state.stage)) <= phase_rank(phase_of(step_model(state, input).0.stage)),
        state.stage is Stopped ==> step_model(state, input) == (state, ActionView::Refuse),
{
}

/// A run unfolds at its first input.
proof fn lemma_run_unfolds(state: PipelineView, inputs: Seq<InputView>)
    requires
        inputs.len() > 0,
    ensures
        actions_of(state, inputs).len() == inputs.len(),
        actions_of(state, inputs)[0] == step_model(state, inputs[0]).1,
        forall|i: int|
            0 <= i < inputs.len() - 1 ==> #[trigger] actions_of(state, inputs)[i + 1] == actions_of(
                step_model(state, inputs[0]).0,
                inputs.skip(1),
            )[i],
{
    lemma_one_action_each(state, inputs);
    lemma_one_action_each(step_model(state, inputs[0]).0, inputs.skip(1));
}

/// The inputs that deliver these events, one after the other.
pub open spec fn deliveries(events: Seq<EventView>) -> Seq<InputView> {
    Seq::new(events.len(), |i: int| delivery(events[i]))
}

/// Profile updates keep the main loop at its stream.
proof fn lemma_profiles_keep_loop(state: PipelineView, profiles: Seq<EventView>)
    requires
        awaiting_notification(state.stage),
        forall|i: int|
            0 <= i < profiles.len() ==> (#[trigger] profiles[i]).kind == EventKind::ProfileMetadata,
    ensures
        awaiting_notification(state_after(state, deliveries(profiles)).stage),
    decreases profiles.len(),
{
    if profiles.len() > 0 {
        let inputs = deliveries(profiles);
        assert(inputs[0] == delivery(profiles[0]));
        let next = step_model(state, inputs[0]).0;
        assert(inputs.skip(1) =~= deliveries(profiles.skip(1)));
        assert forall|i: int| 0 <= i < profiles.skip(1).len() implies (#[trigger] profiles.skip(
            1,
        )[i]).kind == EventKind::ProfileMetadata by {
            assert(profiles.skip(1)[i] == profiles[i + 1]);
        }
        lemma_profiles_keep_loop(next, profiles.skip(1));
    }
}

/// After any sequence of profile updates, a post by the author of the last
/// of them goes out under the name which that last update states, whatever
/// the times the events claim for themselves.
///
/// The last update has to state a name: one that states none is passed over,
/// and the name the author had before stays.
pub proof fn law_last_profile_names_post(
    state: PipelineView,
    profiles: Seq<EventView>,
    post: EventView,
    name: Seq<char>,
)
    requires
        awaiting_notification(state.stage),
        profiles.len() > 0,
        forall|i: int|
            0 <= i < profiles.len() ==> (#[trigger] profiles[i]).kind == EventKind::ProfileMetadata,
        profiles.last().author == post.author,
        display_name_of(profiles.last().content) == Some(name),
        post.kind == EventKind::TextNote,
    ensures
        actions_of(state, deliveries(profiles).push(delivery(post))).last() == ActionView::Emit(
            OutboundMessageView { event: post, display_name: name },
        ),
{
    let earlier = profiles.drop_last();
    let last = profiles.last();
    assert(deliveries(profiles) =~= deliveries(earlier).push(delivery(last)));
    assert forall|i: int| 0 <= i < earlier.len() implies (#[trigger] earlier[i]).kind
        == EventKind::ProfileMetadata by {
        assert(earlier[i] == profiles[i]);
    }
    lemma_profiles_keep_loop(state, earlier);
    let before_last = state_after(state, deliveries(earlier));
    lemma_run_extends(state, deliveries(earlier), delivery(last));
    let before_post = state_after(state, deliveries(profiles));
    assert(before_post == step_model(before_last, delivery(last)).0);
    assert(before_post.names == before_last.names.insert(post.author, name));
    lemma_run_extends(state, deliveries(profiles), delivery(post));
}

/// The events that a sequence of actions sends to the consumer, in order.
pub open spec fn emitted(actions: Seq<ActionView>) -> Seq<EventView>
    decreases actions.len(),
{
    if actions.len() == 0 {
        Seq::empty()
    } else {
        match actions[0] {
            ActionView::Emit(message) => seq![message.event] + emitted(actions.skip(1)),
            _ => emitted(actions.skip(1)),
        }
    }
}

/// The post that a step takes from the main stream, if it takes one.
pub open spec fn post_taken(state: PipelineView, input: InputView) -> Option<EventView> {
    match input {
        InputView::Notified(NotificationView::Event(event)) => {
            if awaiting_notification(state.stage) && event.kind == EventKind::TextNote {
                Some(event)
            } else {
                None
            }
        },
        _ => None,
    }
}

/// The posts that a run takes from the main stream, in order.
pub open spec fn posts_taken(state: PipelineView, inputs: Seq<InputView>) -> Seq<EventView>
    decreases inputs.len(),
{
    if inputs.len() == 0 {
        Seq::empty()
    } else {
        let rest = posts_taken(step_model(state, inputs[0]).0, inputs.skip(1));
        match post_taken(state, inputs[0]) {
            Some(post) => seq![post] + rest,
            None => rest,
        }
    }
}

/// The post that is held back while its author is being resolved, if any.
pub open spec fn post_held(stage: StageView) -> Seq<EventView> {
    match stage {
        StageView::ResolverSubscribing { post, .. } => seq![post],
        StageView::Resolving { post, .. } => seq![post],
        StageView::Closing { post, .. } => seq![post],
        _ => Seq::empty(),
    }
}

/// Whether `part` is `whole` with some of its items left out: the same
/// items in the same order, none of them used twice.
pub open spec fn selection_of(part: Seq<EventView>, whole: Seq<EventView>) -> bool
    decreases whole.len(),
{
    if part.len() == 0 {
        true
    } else if whole.len() == 0 {
        false
    } else {
        ||| (part[0] == whole[0] && selection_of(part.skip(1), whole.skip(1)))
        ||| selection_of(part, whole.skip(1))
    }
}

/// Whether the post held back, if there is one, is a text note. This holds
/// of a new pipeline, and every step keeps it.
pub open spec fn holds_posts_only(state: PipelineView) -> bool {
    forall|i: int|
        0 <= i < post_held(state.stage).len() ==> (#[trigger] post_held(state.stage)[i]).kind
            == EventKind::TextNote
}

/// A selection stays one when its first item is put before both.
proof fn lemma_selection_grows(first: EventView, part: Seq<EventView>, whole: Seq<EventView>)
    requires
        selection_of(part, whole),
    ensures
        selection_of(seq![first] + part, seq![first] + whole),
        selection_of(part, seq![first] + whole),
{
    let longer_part = seq![first] + part;
    let longer_whole = seq![first] + whole;
    assert(longer_part.skip(1) =~= part);
    assert(longer_whole.skip(1) =~= whole);
    assert(longer_part[0] == longer_whole[0]);
}

/// The consumer is sent a selection of the posts that the main loop took
/// from its stream, in their order, each at most once and nothing else. A
/// post held back at the outset counts as taken first.
pub proof fn law_emits_each_post_at_most_once(state: PipelineView, inputs: Seq<InputView>)
    ensures
        selection_of(
            emitted(actions_of(state, inputs)),
            post_held(state.stage) + posts_taken(state, inputs),
        ),
    decreases inputs.len(),
{
    let held = post_held(state.stage);
    if inputs.len() == 0 {
        assert(emitted(actions_of(state, inputs)).len() == 0);
    } else {
        let (next, action) = step_model(state, inputs[0]);
        let rest = inputs.skip(1);
        law_emits_each_post_at_most_once(next, rest);
        let sent_later = emitted(actions_of(next, rest));
        let taken_later = posts_taken(next, rest);
        let held_next = post_held(next.stage);
        assert(selection_of(sent_later, held_next + taken_later));
        let actions = actions_of(state, inputs);
        assert(actions =~= seq![action] + actions_of(next, rest));
        assert(actions.skip(1) =~= actions_of(next, rest));
        assert(actions[0] == action);
        let sent = emitted(actions);
        let whole = held + posts_taken(state, inputs);
        match post_taken(state, inputs[0]) {
            Some(post) => {
                assert(held =~= Seq::<EventView>::empty());
                assert(whole =~= seq![post] + taken_later);
                match action {
                    ActionView::Emit(message) => {
                        assert(message.event == post);
                        assert(held_next + taken_later =~= taken_later);
                        lemma_selection_grows(post, sent_later, taken_later);
                        assert(sent =~= seq![post] + sent_later);
                    },
                    _ => {
                        assert(held_next + taken_later =~= seq![post] + taken_later);
                        assert(sent =~= sent_later);
                    },
                }
            },
            None => {
                assert(whole =~= held + taken_later);
                match action {
                    ActionView::Emit(message) => {
                        assert(held =~= seq![message.event]);
                        assert(held_next + taken_later =~= taken_later);
                        lemma_selection_grows(message.event, sent_later, taken_later);
                        assert(sent =~= seq![message.event] + sent_later);
                    },
                    _ => {
                        assert(sent =~= sent_later);
                        if held_next =~= held {
                            assert(held_next + taken_later =~= whole);
                        } else {
                            assert(held_next =~= Seq::<EventView>::empty());
                            assert(held.len() == 1);
                            assert(held_next + taken_later =~= taken_later);
                            lemma_selection_grows(held[0], sent_later, taken_later);
                            assert(whole =~= seq![held[0]] + taken_later);
                        }
                    },
                }
            },
        }
    }
}

/// Every step keeps the post held back a text note.
pub proof fn lemma_step_holds_posts_only(state: PipelineView, input: InputView)
    requires
        holds_posts_only(state),
    ensures
        holds_posts_only(step_model(state, input).0),
{
    let next = step_model(state, input).0;
    if post_held(state.stage).len() > 0 {
        assert(post_held(state.stage)[0].kind == EventKind::TextNote);
    }
    assert forall|i: int| 0 <= i < post_held(next.stage).len() implies (#[trigger] post_held(
        next.stage,
    )[i]).kind == EventKind::TextNote by {}
}

/// Whatever is sent to the consumer is a text note: an event of another
/// kind never goes out.
pub proof fn law_emits_posts_only(state: PipelineView, inputs: Seq<InputView>)
    requires
        holds_posts_only(state),
    ensures
        forall|i: int|
            0 <= i < emitted(actions_of(state, inputs)).len() ==> (#[trigger] emitted(
                actions_of(state, inputs),
            )[i]).kind == EventKind::TextNote,
    decreases inputs.len(),
{
    if inputs.len() == 0 {
        assert(emitted(actions_of(state, inputs)).len() == 0);
    } else {
        let (next, action) = step_model(state, inputs[0]);
        let rest = inputs.skip(1);
        lemma_step_holds_posts_only(state, inputs[0]);
        law_emits_posts_only(next, rest);
        let actions = actions_of(state, inputs);
        assert(actions =~= seq![action] + actions_of(next, rest));
        assert(actions.skip(1) =~= actions_of(next, rest));
        let sent = emitted(actions);
        let sent_later = emitted(actions_of(next, rest));
        match action {
            ActionView::Emit(message) => {
                assert(sent =~= seq![message.event] + sent_later);
                if post_held(state.stage).len() > 0 {
                    assert(post_held(state.stage)[0].kind == EventKind::TextNote);
                }
                assert(message.event.kind == EventKind::TextNote);
                assert forall|i: int| 0 <= i < sent.len() implies (#[trigger] sent[i]).kind
                    == EventKind::TextNote by {
                    if i > 0 {
                        assert(sent[i] == sent_later[i - 1]);
                    }
                }
            },
            _ => {
                assert(sent =~= sent_later);
            },
        }
    }
}

/// Whether a post is held back while its author is being resolved.
pub open spec fn resolving(stage: StageView) -> bool {
    stage is ResolverSubscribing || stage is Resolving || stage is Closing
}

/// Whether an action ends a resolution: the post goes out, or it is dropped
/// and the main loop goes on.
pub open spec fn ends_resolution(action: ActionView) -> bool {
    action is Emit || action == ActionView::Receive(Stream::Main)
}

/// Whether none of the first `n` actions ends a resolution.
pub open spec fn unresolved_until(actions: Seq<ActionView>, n: int) -> bool {
    forall|i: int| 0 <= i < n ==> !ends_resolution(#[trigger] actions[i])
}

/// Whether none of the actions from `from` up to and with `to` asks for a
/// subscription.
pub open spec fn no_subscription_within(actions: Seq<ActionView>, from: int, to: int) -> bool {
    forall|i: int| from <= i <= to ==> !((#[trigger] actions[i]) is Subscribe)
}

/// Whether input `m` reports the resolver's subscription as registered, the
/// pipeline takes that and turns to the resolver's stream, and action `k`
/// withdraws the subscription under that very handle.
pub open spec fn registered_then_withdrawn(
    inputs: Seq<InputView>,
    actions: Seq<ActionView>,
    m: int,
    k: int,
) -> bool {
    match inputs[m] {
        InputView::Subscribed(handle) => {
            &&& actions[m] == ActionView::Receive(Stream::Resolver)
            &&& actions[k] == ActionView::Unsubscribe(handle)
        },
        _ => false,
    }
}

/// Whether, before action `n`, the resolver's subscription was reported as
/// registered and then withdrawn.
pub open spec fn withdrawn_before(
    inputs: Seq<InputView>,
    actions: Seq<ActionView>,
    n: int,
) -> bool {
    exists|m: int, k: int|
        0 <= m < k < n && #[trigger] registered_then_withdrawn(inputs, actions, m, k)
}

/// Whether none of the first `n` inputs reports a subscription as
/// registered.
pub open spec fn none_registered(inputs: Seq<InputView>, n: int) -> bool {
    forall|i: int| 0 <= i < n ==> !((#[trigger] inputs[i]) is Subscribed)
}

/// Whether the resolver's subscription is out of the way when input `n`
/// comes: it was registered and then withdrawn, and the input reports the
/// withdrawal; or the input reports that it could not be registered, and it
/// never was.
pub open spec fn resolver_closed_at(
    inputs: Seq<InputView>,
    actions: Seq<ActionView>,
    n: int,
) -> bool {
    ||| inputs[n] == InputView::Unsubscribed && withdrawn_before(inputs, actions, n)
    ||| inputs[n] == InputView::SubscribeFailed && none_registered(inputs, n)
}

/// Whether, before action `n`, the subscription under `handle` was
/// withdrawn.
spec fn handle_withdrawn_before(actions: Seq<ActionView>, handle: Seq<char>, n: int) -> bool {
    exists|k: int| 0 <= k < n && #[trigger] actions[k] == ActionView::Unsubscribe(handle)
}

/// The course of a resolution, from any point of it to its end.
proof fn lemma_resolution_course(state: PipelineView, inputs: Seq<InputView>, n: int)
    requires
        resolving(state.stage),
        0 <= n < inputs.len(),
        ends_resolution(actions_of(state, inputs)[n]),
        unresolved_until(actions_of(state, inputs), n),
    ensures
        no_subscription_within(actions_of(state, inputs), 0, n),
        match actions_of(state, inputs)[n] {
            ActionView::Emit(message) => post_held(state.stage) == seq![message.event],
            _ => true,
        },
        match state.stage {
            StageView::ResolverSubscribing { .. } => resolver_closed_at(
                inputs,
                actions_of(state, inputs),
                n,
            ),
            StageView::Resolving { narrow, .. } => {
                &&& inputs[n] == InputView::Unsubscribed
                &&& handle_withdrawn_before(actions_of(state, inputs), narrow, n)
            },
            _ => inputs[n] == InputView::Unsubscribed,
        },
    decreases inputs.len(),
{
    let actions = actions_of(state, inputs);
    let (next, action) = step_model(state, inputs[0]);
    let rest = inputs.skip(1);
    let later = actions_of(next, rest);
    lemma_run_unfolds(state, inputs);
    assert(actions[0] == action);
    if n == 0 {
    } else {
        assert(!ends_resolution(actions[0]));
        assert(resolving(next.stage));
        assert(post_held(next.stage) == post_held(state.stage));
        assert(actions[n] == later[n - 1]) by {
            assert(actions[(n - 1) + 1] == later[n - 1]);
        }
        assert(unresolved_until(later, n - 1)) by {
            assert forall|i: int| 0 <= i < n - 1 implies !ends_resolution(#[trigger] later[i]) by {
                assert(actions[i + 1] == later[i]);
            }
        }
        lemma_resolution_course(next, rest, n - 1);
        assert(inputs[n] == rest[n - 1]);
        assert(no_subscription_within(actions, 0, n)) by {
            assert forall|i: int| 0 <= i <= n implies !((#[trigger] actions[i]) is Subscribe) by {
                if i > 0 {
                    assert(actions[(i - 1) + 1] == later[i - 1]);
                }
            }
        }
        match state.stage {
            StageView::ResolverSubscribing { .. } => {
                match next.stage {
                    StageView::Resolving { narrow, .. } => {
                        assert(inputs[0] == InputView::Subscribed(narrow));
                        let k = choose|k: int|
                            0 <= k < n - 1 && #[trigger] later[k] == ActionView::Unsubscribe(
                                narrow,
                            );
                        assert(actions[k + 1] == later[k]);
                        assert(registered_then_withdrawn(inputs, actions, 0, k + 1));
                    },
                    _ => {
                        assert(!(inputs[0] is Subscribed));
                        if rest[n - 1] == InputView::Unsubscribed {
                            let (m, k) = choose|m: int, k: int|
                                0 <= m < k < n - 1 && #[trigger] registered_then_withdrawn(
                                    rest,
                                    later,
                                    m,
                                    k,
                                );
                            assert(inputs[m + 1] == rest[m]);
                            assert(actions[m + 1] == later[m]);
                            assert(actions[k + 1] == later[k]);
                            assert(registered_then_withdrawn(inputs, actions, m + 1, k + 1));
                        } else {
                            assert forall|i: int| 0 <= i < n implies !((#[trigger] inputs[i])
                                is Subscribed) by {
                                if i > 0 {
                                    assert(inputs[i] == rest[i - 1]);
                                }
                            }
                        }
                    },
                }
            },
            StageView::Resolving { narrow, .. } => {
                match next.stage {
                    StageView::Resolving { .. } => {
                        let k = choose|k: int|
                            0 <= k < n - 1 && #[trigger] later[k] == ActionView::Unsubscribe(
                                narrow,
                            );
                        assert(actions[k + 1] == later[k]);
                    },
                    _ => {
                        assert(actions[0] == ActionView::Unsubscribe(narrow));
                    },
                }
            },
            _ => {},
        }
    }
}

/// A post whose author the cache does not know opens one subscription,
/// narrowed to that author, and is held back. Whatever the driver reports
/// from then on, up to the action that sends the post out or drops it: no
/// other subscription is asked for, and by then the one that was asked for
/// is out of the way. Either it was reported as registered and was then
/// withdrawn under its handle, and the action that ends the wait answers the
/// report of that withdrawal; or it never was registered, and the action
/// answers the report that it could not be. If that action sends anything,
/// it is this post.
///
/// `n` is the place of that action among those handed out after the post
/// was taken.
pub proof fn law_resolver_subscription_closed_first(
    state: PipelineView,
    post: EventView,
    reports: Seq<InputView>,
    n: int,
)
    requires
        awaiting_notification(state.stage),
        post.kind == EventKind::TextNote,
        !state.names.contains_key(post.author),
        0 <= n < reports.len(),
        ends_resolution(actions_of(step_model(state, delivery(post)).0, reports)[n]),
        unresolved_until(actions_of(step_model(state, delivery(post)).0, reports), n),
    ensures
        step_model(state, delivery(post)).1 == ActionView::Subscribe(resolver_filter(post.author)),
        post_held(step_model(state, delivery(post)).0.stage) == seq![post],
        no_subscription_within(actions_of(step_model(state, delivery(post)).0, reports), 0, n),
        resolver_closed_at(reports, actions_of(step_model(state, delivery(post)).0, reports), n),
        match actions_of(step_model(state, delivery(post)).0, reports)[n] {
            ActionView::Emit(message) => message.event == post,
            _ => true,
        },
{
    let held = step_model(state, delivery(post)).0;
    assert(held.stage is ResolverSubscribing);
    lemma_resolution_course(held, reports, n);
    match actions_of(held, reports)[n] {
        ActionView::Emit(message) => {
            assert(seq![message.event][0] == seq![post][0]);
        },
        _ => {},
    }
}

} // verus!

//! The enrichment pipeline: from relay notifications to named posts.

use crate::cache::{lookup, MetadataCache};
use crate::classifier::{classify, Classified};
use crate::event::{Event, EventKind};
use crate::model::{
    actions_of, decide, lemma_run_extends, on_notification, on_resolver_closed, phase_of,
    profile_name, resolved_name, state_after, step_model, DecisionView, Phase, PipelineView,
    StageView,
};
use crate::profile::extract_display_name;
use crate::protocol::{Action, Input, InputView, OutboundMessage, StartupError, Stream};
use crate::relay::{resolver_filter, Filter, Notification, SubscriptionHandle};
use crate::timeline::{post_time_label, row_of, PostRow};
use vstd::prelude::*;

verus! {

/// Where a pipeline stands, with what it holds there.
enum Stage {
    Created { relays: Vec<String> },
    Connecting,
    Subscribing,
    Subscribed { main: SubscriptionHandle },
    Receiving { main: SubscriptionHandle },
    ResolverSubscribing { main: SubscriptionHandle, post: Event },
    Resolving { main: SubscriptionHandle, post: Event, narrow: SubscriptionHandle },
    Closing { main: SubscriptionHandle, post: Event },
    Emitting { main: SubscriptionHandle },
    Draining,
    Stopped,
}

impl View for Stage {
    type V = StageView;

    closed spec fn view(&self) -> StageView {
        match self {
            Stage::Created { relays } => StageView::Created { relays: relays.deep_view() },
            Stage::Connecting => StageView::Connecting,
            Stage::Subscribing => StageView::Subscribing,
            Stage::Subscribed { main } => StageView::Subscribed { main: main@ },
            Stage::Receiving { main } => StageView::Receiving { main: main@ },
            Stage::ResolverSubscribing { main, post } => StageView::ResolverSubscribing {
                main: main@,
                post: post@,
            },
            Stage::Resolving { main, post, narrow } => StageView::Resolving {
                main: main@,
                post: post@,
                narrow: narrow@,
            },
            Stage::Closing { main, post } => StageView::Closing { main: main@, post: post@ },
            Stage::Emitting { main } => StageView::Emitting { main: main@ },
            Stage::Draining => StageView::Draining,
            Stage::Stopped => StageView::Stopped,
        }
    }
}

/// What is to be done about one event of the main stream.
#[derive(Debug, PartialEq, Eq)]
pub enum Decision {
    /// Nothing to hand on.
    Continue,
    /// Hand this message on.
    Emit(OutboundMessage),
    /// The author of this post is unknown: ask the relays with this filter.
    Resolve { post: Event, filter: Filter },
}

impl View for Decision {
    type V = DecisionView;

    open spec fn view(&self) -> DecisionView {
        match self {
            Decision::Continue => DecisionView::Continue,
            Decision::Emit(message) => DecisionView::Emit(message@),
            Decision::Resolve { post, filter } => DecisionView::Resolve {
                post: post@,
                filter: filter@,
            },
        }
    }
}

/// Where the display name of an author is to come from.
#[derive(Debug, PartialEq, Eq)]
pub enum NameSource {
    /// The cache knows it.
    Cached(String),
    /// The relays have to be asked, with this filter.
    Fetch(Filter),
}

/// The pipeline.
///
/// It owns the cache of display names and knows what it is waiting for. It
/// performs nothing itself: [`PostFetchService::step`] takes the outcome of
/// the action before and hands out the next.
pub struct PostFetchService {
    stage: Stage,
    metadata_map: MetadataCache,
}

impl View for PostFetchService {
    type V = PipelineView;

    closed spec fn view(&self) -> PipelineView {
        PipelineView { stage: self.stage@, names: self.metadata_map@ }
    }
}

impl PostFetchService {
    /// A pipeline for these relays, not yet started, that knows no names.
    pub fn new(relays: Vec<String>) -> (service: PostFetchService)
        ensures
            service@ == (PipelineView {
                stage: StageView::Created { relays: relays.deep_view() },
                names: Map::empty(),
            }),
    {
        PostFetchService { stage: Stage::Created { relays }, metadata_map: MetadataCache::new() }
    }

    /// The display name that an event states of its author.
    pub fn handle_metadata_event(event: &Event) -> (name: Option<String>)
        ensures
            name.deep_view() == profile_name(event@),
    {
        match event.kind {
            EventKind::ProfileMetadata => extract_display_name(event.content.as_str()),
            _ => None,
        }
    }

    /// Looks an author up: the cached name, or the filter to ask the relays
    /// with.
    pub fn get_or_fetch_display_name(cache: &MetadataCache, author: &String) -> (source: NameSource)
        ensures
            match lookup(cache@, author@) {
                Some(name) => source matches NameSource::Cached(cached) && cached@ == name,
                None => source matches NameSource::Fetch(filter) && filter@ == resolver_filter(
                    author@,
                ),
            },
    {
        match cache.get(author) {
            Some(name) => NameSource::Cached(name),
            None => NameSource::Fetch(Filter::for_author(author)),
        }
    }

    /// Takes one event of the main stream: a profile update is written to
    /// the cache, a post is paired with the name of its author or set aside
    /// until that name is fetched, anything else is passed over.
    pub fn process_event(cache: MetadataCache, event: Event) -> (done: (MetadataCache, Decision))
        ensures
            (done.0@, done.1@) == decide(cache@, event@),
    {
        match classify(event) {
            Classified::ProfileUpdate { author, raw_content } => {
                match extract_display_name(raw_content.as_str()) {
                    Some(name) => (cache.insert(author, name), Decision::Continue),
                    None => (cache, Decision::Continue),
                }
            },
            Classified::Post { event } => {
                match Self::get_or_fetch_display_name(&cache, &event.author) {
                    NameSource::Cached(display_name) => (
                        cache,
                        Decision::Emit(OutboundMessage { event, display_name }),
                    ),
                    NameSource::Fetch(filter) => (cache, Decision::Resolve { post: event, filter }),
                }
            },
            Classified::Ignored => (cache, Decision::Continue),
        }
    }

    /// Takes one notification of the resolver's stream while the name of
    /// `author` is wanted. A profile update by that author which states a
    /// name is written to the cache, and the answer is `true`: the wait is
    /// over. Anything else is discarded.
    pub fn fetch_metadata(
        cache: MetadataCache,
        author: &String,
        notification: Notification,
    ) -> (done: (MetadataCache, bool))
        ensures
            match resolved_name(author@, notification@) {
                Some(name) => done.0@ == cache@.insert(author@, name) && done.1,
                None => done.0@ == cache@ && !done.1,
            },
    {
        match notification {
            Notification::Event(event) => {
                if event.author == *author {
                    match Self::handle_metadata_event(&event) {
                        Some(name) => (cache.insert(event.author, name), true),
                        None => (cache, false),
                    }
                } else {
                    (cache, false)
                }
            },
            _ => (cache, false),
        }
    }

    /// The step taken on a notification of the main stream.
    fn take_notification(
        main: SubscriptionHandle,
        cache: MetadataCache,
        notification: Notification,
    ) -> (next: (PostFetchService, Action))
        ensures
            (next.0@, next.1@) == on_notification(main@, cache@, notification@),
    {
        match notification {
            Notification::Event(event) => {
                let (metadata_map, decision) = Self::process_event(cache, event);
                match decision {
                    Decision::Continue => (
                        PostFetchService { stage: Stage::Receiving { main }, metadata_map },
                        Action::Receive(Stream::Main),
                    ),
                    Decision::Emit(message) => (
                        PostFetchService { stage: Stage::Emitting { main }, metadata_map },
                        Action::Emit(message),
                    ),
                    Decision::Resolve { post, filter } => (
                        PostFetchService {
                            stage: Stage::ResolverSubscribing { main, post },
                            metadata_map,
                        },
                        Action::Subscribe(filter),
                    ),
                }
            },
            Notification::Shutdown => (
                PostFetchService { stage: Stage::Draining, metadata_map: cache },
                Action::Unsubscribe(main),
            ),
            _ => (
                PostFetchService { stage: Stage::Receiving { main }, metadata_map: cache },
                Action::Receive(Stream::Main),
            ),
        }
    }

    /// The step taken once the resolver is done.
    fn close_resolver(main: SubscriptionHandle, cache: MetadataCache, post: Event) -> (next: (
        PostFetchService,
        Action,
    ))
        ensures
            (next.0@, next.1@) == on_resolver_closed(main@, cache@, post@),
    {
        match cache.get(&post.author) {
            Some(display_name) => (
                PostFetchService { stage: Stage::Emitting { main }, metadata_map: cache },
                Action::Emit(OutboundMessage { event: post, display_name }),
            ),
            None => (
                PostFetchService { stage: Stage::Receiving { main }, metadata_map: cache },
                Action::Receive(Stream::Main),
            ),
        }
    }

    /// Starts the pipeline: the step on [`Input::Start`].
    pub fn start(self) -> (next: (PostFetchService, Action))
        ensures
            (next.0@, next.1@) == step_model(self@, InputView::Start),
    {
        self.step(Input::Start)
    }

    /// Takes the outcome of the action before, and hands out the next.
    ///
    /// An input that does not answer the outstanding action changes nothing
    /// and is answered with [`Action::Refuse`].
    pub fn step(self, input: Input) -> (next: (PostFetchService, Action))
        ensures
            (next.0@, next.1@) == step_model(self@, input@),
    {
        let PostFetchService { stage, metadata_map } = self;
        match stage {
            Stage::Created { relays } => match input {
                Input::Start => (
                    PostFetchService { stage: Stage::Connecting, metadata_map },
                    Action::Connect(relays),
                ),
                _ => (
                    PostFetchService { stage: Stage::Created { relays }, metadata_map },
                    Action::Refuse,
                ),
            },
            Stage::Connecting => match input {
                Input::Connected => (
                    PostFetchService { stage: Stage::Subscribing, metadata_map },
                    Action::Subscribe(Filter::main()),
                ),
                Input::ConnectFailed => (
                    PostFetchService { stage: Stage::Stopped, metadata_map },
                    Action::Finish(Err(StartupError::Connect)),
                ),
                _ => (PostFetchService { stage: Stage::Connecting, metadata_map }, Action::Refuse),
            },
            Stage::Subscribing => match input {
                Input::Subscribed(main) => (
                    PostFetchService { stage: Stage::Subscribed { main }, metadata_map },
                    Action::Receive(Stream::Main),
                ),
                Input::SubscribeFailed => (
                    PostFetchService { stage: Stage::Stopped, metadata_map },
                    Action::Finish(Err(StartupError::Subscribe)),
                ),
                _ => (PostFetchService { stage: Stage::Subscribing, metadata_map }, Action::Refuse),
            },
            Stage::Subscribed { main } => match input {
                Input::Notified(notification) => Self::take_notification(
                    main,
                    metadata_map,
                    notification,
                ),
                Input::ReceiveFailed => (
                    PostFetchService { stage: Stage::Subscribed { main }, metadata_map },
                    Action::Receive(Stream::Main),
                ),
                _ => (
                    PostFetchService { stage: Stage::Subscribed { main }, metadata_map },
                    Action::Refuse,
                ),
            },
            Stage::Receiving { main } => match input {
                Input::Notified(notification) => Self::take_notification(
                    main,
                    metadata_map,
                    notification,
                ),
                Input::ReceiveFailed => (
                    PostFetchService { stage: Stage::Receiving { main }, metadata_map },
                    Action::Receive(Stream::Main),
                ),
                _ => (
                    PostFetchService { stage: Stage::Receiving { main }, metadata_map },
                    Action::Refuse,
                ),
            },
            Stage::ResolverSubscribing { main, post } => match input {
                Input::Subscribed(narrow) => (
                    PostFetchService {
                        stage: Stage::Resolving { main, post, narrow },
                        metadata_map,
                    },
                    Action::Receive(Stream::Resolver),
                ),
                Input::SubscribeFailed => Self::close_resolver(main, metadata_map, post),
                _ => (
                    PostFetchService {
                        stage: Stage::ResolverSubscribing { main, post },
                        metadata_map,
                    },
                    Action::Refuse,
                ),
            },
            Stage::Resolving { main, post, narrow } => match input {
                Input::Notified(notification) => {
                    let (metadata_map, found) = Self::fetch_metadata(
                        metadata_map,
                        &post.author,
                        notification,
                    );
                    if found {
                        (
                            PostFetchService { stage: Stage::Closing { main, post }, metadata_map },
                            Action::Unsubscribe(narrow),
                        )
                    } else {
                        (
                            PostFetchService {
                                stage: Stage::Resolving { main, post, narrow },
                                metadata_map,
                            },
                            Action::Receive(Stream::Resolver),
                        )
                    }
                },
                Input::ReceiveFailed => (
                    PostFetchService { stage: Stage::Closing { main, post }, metadata_map },
                    Action::Unsubscribe(narrow),
                ),
                _ => (
                    PostFetchService {
                        stage: Stage::Resolving { main, post, narrow },
                        metadata_map,
                    },
                    Action::Refuse,
                ),
            },
            Stage::Closing { main, post } => match input {
                Input::Unsubscribed => Self::close_resolver(main, metadata_map, post),
                _ => (
                    PostFetchService { stage: Stage::Closing { main, post }, metadata_map },
                    Action::Refuse,
                ),
            },
            Stage::Emitting { main } => match input {
                Input::Delivered => (
                    PostFetchService { stage: Stage::Receiving { main }, metadata_map },
                    Action::Receive(Stream::Main),
                ),
                Input::DeliveryFailed => (
                    PostFetchService { stage: Stage::Receiving { main }, metadata_map },
                    Action::Receive(Stream::Main),
                ),
                _ => (
                    PostFetchService { stage: Stage::Emitting { main }, metadata_map },
                    Action::Refuse,
                ),
            },
            Stage::Draining => match input {
                Input::Unsubscribed => (
                    PostFetchService { stage: Stage::Stopped, metadata_map },
                    Action::Finish(Ok(())),
                ),
                _ => (PostFetchService { stage: Stage::Draining, metadata_map }, Action::Refuse),
            },
            Stage::Stopped => (
                PostFetchService { stage: Stage::Stopped, metadata_map },
                Action::Refuse,
            ),
        }
    }

    /// Takes a sequence of inputs, one step each, and gives the actions that
    /// were handed out in answer, in order.
    pub fn replay(self, inputs: Vec<Input>) -> (done: (PostFetchService, Vec<Action>))
        ensures
            done.0@ == state_after(self@, inputs.deep_view()),
            done.1.deep_view() == actions_of(self@, inputs.deep_view()),
    {
        let ghost start = self@;
        let ghost given = inputs@;
        let ghost all = inputs.deep_view();
        let mut service = self;
        let mut actions: Vec<Action> = Vec::new();
        assert(all.take(0) =~= Seq::<InputView>::empty());
        assert(actions.deep_view() =~= actions_of(start, all.take(0)));
        for input in iter: inputs.into_iter()
            invariant
                iter.seq() == given,
                all.len() == given.len(),
                forall|i: int| 0 <= i < given.len() ==> all[i] == (#[trigger] given[i])@,
                service@ == state_after(start, all.take(iter.index() as int)),
                actions.deep_view() == actions_of(start, all.take(iter.index() as int)),
        {
            let ghost at = iter.index() as int;
            let ghost before = actions.deep_view();
            proof {
                lemma_run_extends(start, all.take(at), all[at]);
                assert(all.take(at + 1) =~= all.take(at).push(all[at]));
            }
            let (next, action) = service.step(input);
            service = next;
            actions.push(action);
            assert(actions.deep_view() =~= before.push(action@));
        }
        assert(all.take(all.len() as int) =~= all);
        (service, actions)
    }

    /// Lays a post out for the timeline: the display name of its author, the
    /// time of day it was created at, and its text.
    ///
    /// `None` where the event's time is beyond what a calendar can hold.
    pub fn add_post_to_ui(event: &Event, display_name: &str) -> (row: Option<PostRow>)
        ensures
            row.deep_view() == row_of(event@, display_name@),
    {
        match post_time_label(event.created_at) {
            Some(time) => Some(
                PostRow {
                    author: String::from_str(display_name),
                    time,
                    content: event.content.clone(),
                },
            ),
            None => None,
        }
    }

    /// The phase the pipeline is in.
    pub fn phase(&self) -> (phase: Phase)
        ensures
            phase == phase_of(self@.stage),
    {
        match &self.stage {
            Stage::Created { .. } => Phase::Created,
            Stage::Connecting => Phase::Connecting,
            Stage::Subscribing => Phase::Connecting,
            Stage::Subscribed { .. } => Phase::Subscribed,
            Stage::Receiving { .. } => Phase::Running,
            Stage::ResolverSubscribing { .. } => Phase::Running,
            Stage::Resolving { .. } => Phase::Running,
            Stage::Closing { .. } => Phase::Running,
            Stage::Emitting { .. } => Phase::Running,
            Stage::Draining => Phase::Draining,
            Stage::Stopped => Phase::Stopped,
        }
    }

    /// The display name known of `author`, if any.
    pub fn display_name(&self, author: &String) -> (name: Option<String>)
        ensures
            name.deep_view() == lookup(self@.names, author@),
    {
        self.metadata_map.get(author)
    }
}

} // verus!

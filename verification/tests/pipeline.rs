use kapestr::cache::MetadataCache;
use kapestr::event::{Event, EventKind};
use kapestr::model::Phase;
use kapestr::pipeline::{Decision, NameSource, PostFetchService};
use kapestr::protocol::{Action, Input, OutboundMessage, StartupError, Stream, OUTBOUND_CAPACITY};
use kapestr::relay::{Filter, Notification, SubscriptionHandle};

fn event(kind: EventKind, author: &str, content: &str) -> Event {
    Event {
        id: format!("id-{}-{}", author, content.len()),
        author: author.to_string(),
        kind,
        created_at: 1_700_000_000,
        content: content.to_string(),
        tags: Vec::new(),
    }
}

fn profile(author: &str, content: &str) -> Event {
    event(EventKind::ProfileMetadata, author, content)
}

fn note(author: &str, content: &str) -> Event {
    event(EventKind::TextNote, author, content)
}

fn handle(id: &str) -> SubscriptionHandle {
    SubscriptionHandle { id: id.to_string() }
}

fn relays() -> Vec<String> {
    vec!["wss://one.example".to_string(), "wss://two.example".to_string()]
}

fn notified(event: Event) -> Input {
    Input::Notified(Notification::Event(event))
}

fn emit(event: Event, name: &str) -> Action {
    Action::Emit(OutboundMessage { event, display_name: name.to_string() })
}

fn subscribed_service() -> PostFetchService {
    let (service, _) = PostFetchService::new(relays()).start();
    let (service, _) = service.step(Input::Connected);
    let (service, _) = service.step(Input::Subscribed(handle("main")));
    service
}

fn resolving_service(author: &str) -> PostFetchService {
    let (service, _) = subscribed_service().step(notified(note(author, "hello")));
    let (service, _) = service.step(Input::Subscribed(handle("narrow")));
    service
}

#[test]
fn new_pipeline_is_created_and_knows_nobody() {
    let service = PostFetchService::new(relays());
    assert_eq!(service.phase(), Phase::Created);
    assert_eq!(service.display_name(&"pk1".to_string()), None);
}

#[test]
fn outbound_queue_holds_a_hundred() {
    assert_eq!(OUTBOUND_CAPACITY, 100);
}

#[test]
fn start_asks_to_connect_to_the_relays() {
    let (service, action) = PostFetchService::new(relays()).start();
    assert_eq!(action, Action::Connect(relays()));
    assert_eq!(service.phase(), Phase::Connecting);
}

#[test]
fn connected_pipeline_registers_the_main_filter() {
    let (service, _) = PostFetchService::new(relays()).start();
    let (service, action) = service.step(Input::Connected);
    assert_eq!(action, Action::Subscribe(Filter::main()));
    assert_eq!(service.phase(), Phase::Connecting);
}

#[test]
fn registered_pipeline_reads_the_main_stream() {
    let (service, _) = PostFetchService::new(relays()).start();
    let (service, _) = service.step(Input::Connected);
    let (service, action) = service.step(Input::Subscribed(handle("main")));
    assert_eq!(action, Action::Receive(Stream::Main));
    assert_eq!(service.phase(), Phase::Subscribed);
}

#[test]
fn first_notification_sets_the_pipeline_running() {
    let (service, action) = subscribed_service().step(Input::Notified(Notification::Other));
    assert_eq!(action, Action::Receive(Stream::Main));
    assert_eq!(service.phase(), Phase::Running);
}

#[test]
fn failed_connect_is_fatal() {
    let (service, _) = PostFetchService::new(relays()).start();
    let (service, action) = service.step(Input::SubscribeFailed);
    assert_eq!(action, Action::Refuse);
    let (service, action) = service.step(Input::ConnectFailed);
    assert_eq!(action, Action::Finish(Err(StartupError::Connect)));
    assert_eq!(service.phase(), Phase::Stopped);
}

#[test]
fn refused_main_filter_is_fatal() {
    let (service, _) = PostFetchService::new(relays()).start();
    let (service, _) = service.step(Input::Connected);
    let (service, action) = service.step(Input::ConnectFailed);
    assert_eq!(action, Action::Refuse);
    let (service, action) = service.step(Input::SubscribeFailed);
    assert_eq!(action, Action::Finish(Err(StartupError::Subscribe)));
    assert_eq!(service.phase(), Phase::Stopped);
}

#[test]
fn input_out_of_turn_is_refused_and_changes_nothing() {
    let (service, action) = PostFetchService::new(relays()).step(Input::Connected);
    assert_eq!(action, Action::Refuse);
    assert_eq!(service.phase(), Phase::Created);
    let (service, action) = service.step(notified(profile("pk1", r#"{"name":"Bob"}"#)));
    assert_eq!(action, Action::Refuse);
    assert_eq!(service.display_name(&"pk1".to_string()), None);
    let (service, action) = service.start();
    assert_eq!(action, Action::Connect(relays()));
    let (service, action) = service.step(Input::Start);
    assert_eq!(action, Action::Refuse);
    assert_eq!(service.phase(), Phase::Connecting);
    let (service, action) = subscribed_service().step(Input::Unsubscribed);
    assert_eq!(action, Action::Refuse);
    assert_eq!(service.phase(), Phase::Subscribed);
    let (service, action) = service.step(Input::Delivered);
    assert_eq!(action, Action::Refuse);
    assert_eq!(service.phase(), Phase::Subscribed);
}

#[test]
fn receive_error_is_retried_without_end() {
    let mut service = subscribed_service();
    for _ in 0..1000 {
        let (next, action) = service.step(Input::ReceiveFailed);
        assert_eq!(action, Action::Receive(Stream::Main));
        service = next;
    }
    assert_eq!(service.phase(), Phase::Subscribed);
    let (service, _) = service.step(Input::Notified(Notification::Other));
    let (service, action) = service.step(Input::ReceiveFailed);
    assert_eq!(action, Action::Receive(Stream::Main));
    assert_eq!(service.phase(), Phase::Running);
}

#[test]
fn relay_message_has_no_effect() {
    let (service, action) =
        subscribed_service().step(Input::Notified(Notification::Message("NOTICE".to_string())));
    assert_eq!(action, Action::Receive(Stream::Main));
    assert_eq!(service.phase(), Phase::Running);
    assert_eq!(service.display_name(&"pk1".to_string()), None);
}

#[test]
fn event_of_another_kind_is_passed_over() {
    let (service, action) =
        subscribed_service().step(notified(event(EventKind::Other, "pk1", r#"{"name":"Bob"}"#)));
    assert_eq!(action, Action::Receive(Stream::Main));
    assert_eq!(service.display_name(&"pk1".to_string()), None);
}

#[test]
fn profile_update_overwrites_whatever_was_known() {
    let (service, _) = subscribed_service().step(notified(profile("pk1", r#"{"name":"Old"}"#)));
    let (service, action) = service.step(notified(profile("pk1", r#"{"display_name":"New"}"#)));
    assert_eq!(action, Action::Receive(Stream::Main));
    assert_eq!(service.display_name(&"pk1".to_string()), Some("New".to_string()));
}

#[test]
fn last_profile_processed_wins_whatever_its_time() {
    let mut newer = profile("pk1", r#"{"display_name":"Newer"}"#);
    newer.created_at = 2_000;
    let mut older = profile("pk1", r#"{"display_name":"Older"}"#);
    older.created_at = 1_000;
    let (service, _) = subscribed_service().step(notified(newer));
    let (service, _) = service.step(notified(older));
    let (_, action) = service.step(notified(note("pk1", "hello")));
    assert_eq!(action, emit(note("pk1", "hello"), "Older"));
}

#[test]
fn profile_without_a_name_keeps_the_earlier_name() {
    let (service, _) = subscribed_service().step(notified(profile("pk1", r#"{"name":"Alice"}"#)));
    let (service, _) = service.step(notified(profile("pk1", "not json")));
    let (service, _) = service.step(notified(profile("pk1", r#"{"about":"x"}"#)));
    assert_eq!(service.display_name(&"pk1".to_string()), Some("Alice".to_string()));
    let (_, action) = service.step(notified(note("pk1", "hello")));
    assert_eq!(action, emit(note("pk1", "hello"), "Alice"));
}

#[test]
fn same_profile_twice_is_the_same_as_once() {
    let update = profile("pk1", r#"{"display_name":"Alice"}"#);
    let (once, _) = subscribed_service().step(notified(update.clone()));
    let (twice, _) = subscribed_service().step(notified(update.clone()));
    let (twice, action) = twice.step(notified(update));
    assert_eq!(action, Action::Receive(Stream::Main));
    assert_eq!(once.display_name(&"pk1".to_string()), Some("Alice".to_string()));
    assert_eq!(twice.display_name(&"pk1".to_string()), Some("Alice".to_string()));
    assert_eq!(twice.display_name(&"pk2".to_string()), once.display_name(&"pk2".to_string()));
}

#[test]
fn names_of_other_authors_do_not_name_a_post() {
    let (service, _) = subscribed_service().step(notified(profile("pk2", r#"{"name":"Bob"}"#)));
    let (_, action) = service.step(notified(note("pk1", "hello")));
    assert_eq!(action, Action::Subscribe(Filter::for_author(&"pk1".to_string())));
}

#[test]
fn delivered_post_lets_the_loop_go_on() {
    let (service, _) = subscribed_service().step(notified(profile("pk1", r#"{"name":"Alice"}"#)));
    let (service, _) = service.step(notified(note("pk1", "hello")));
    let (service, action) = service.step(Input::Delivered);
    assert_eq!(action, Action::Receive(Stream::Main));
    assert_eq!(service.phase(), Phase::Running);
}

#[test]
fn lost_consumer_does_not_stop_the_loop() {
    let (service, _) = subscribed_service().step(notified(profile("pk1", r#"{"name":"Alice"}"#)));
    let (service, _) = service.step(notified(note("pk1", "one")));
    let (service, action) = service.step(Input::DeliveryFailed);
    assert_eq!(action, Action::Receive(Stream::Main));
    assert_eq!(service.phase(), Phase::Running);
    let (_, action) = service.step(notified(note("pk1", "two")));
    assert_eq!(action, emit(note("pk1", "two"), "Alice"));
}

#[test]
fn nothing_is_read_while_a_send_is_outstanding() {
    let (service, _) = subscribed_service().step(notified(profile("pk1", r#"{"name":"Alice"}"#)));
    let (service, _) = service.step(notified(note("pk1", "one")));
    let (service, action) = service.step(notified(note("pk1", "two")));
    assert_eq!(action, Action::Refuse);
    let (_, action) = service.step(Input::Delivered);
    assert_eq!(action, Action::Receive(Stream::Main));
}

#[test]
fn unknown_author_opens_one_narrow_subscription() {
    let (service, action) = subscribed_service().step(notified(note("pk1", "hello")));
    assert_eq!(
        action,
        Action::Subscribe(Filter {
            kinds: vec![EventKind::ProfileMetadata],
            authors: vec!["pk1".to_string()],
            limit: Some(1),
        })
    );
    assert_eq!(service.phase(), Phase::Running);
    let (_, action) = service.step(Input::Subscribed(handle("narrow")));
    assert_eq!(action, Action::Receive(Stream::Resolver));
}

#[test]
fn post_is_dropped_where_the_narrow_filter_is_refused() {
    let (service, _) = subscribed_service().step(notified(note("pk1", "hello")));
    let (service, action) = service.step(Input::SubscribeFailed);
    assert_eq!(action, Action::Receive(Stream::Main));
    assert_eq!(service.phase(), Phase::Running);
    assert_eq!(service.display_name(&"pk1".to_string()), None);
    let (_, action) = service.step(notified(note("pk1", "again")));
    assert_eq!(action, Action::Subscribe(Filter::for_author(&"pk1".to_string())));
}

#[test]
fn resolver_discards_what_does_not_match() {
    let service = resolving_service("pk1");
    let (service, action) = service.step(notified(profile("pk2", r#"{"name":"Bob"}"#)));
    assert_eq!(action, Action::Receive(Stream::Resolver));
    assert_eq!(service.display_name(&"pk2".to_string()), None);
    let (service, action) = service.step(notified(note("pk1", "another")));
    assert_eq!(action, Action::Receive(Stream::Resolver));
    let (service, action) = service.step(notified(event(EventKind::Other, "pk1", r#"{"name":"X"}"#)));
    assert_eq!(action, Action::Receive(Stream::Resolver));
    let (service, action) = service.step(Input::Notified(Notification::Message("EOSE".to_string())));
    assert_eq!(action, Action::Receive(Stream::Resolver));
    let (service, action) = service.step(Input::Notified(Notification::Other));
    assert_eq!(action, Action::Receive(Stream::Resolver));
    let (service, action) = service.step(Input::Notified(Notification::Shutdown));
    assert_eq!(action, Action::Receive(Stream::Resolver));
    assert_eq!(service.phase(), Phase::Running);
    assert_eq!(service.display_name(&"pk1".to_string()), None);
}

#[test]
fn resolver_waits_on_where_the_profile_states_no_name() {
    let service = resolving_service("pk1");
    let (service, action) = service.step(notified(profile("pk1", "not json")));
    assert_eq!(action, Action::Receive(Stream::Resolver));
    let (service, action) = service.step(notified(profile("pk1", r#"{"display_name":null}"#)));
    assert_eq!(action, Action::Receive(Stream::Resolver));
    let (_, action) = service.step(notified(profile("pk1", r#"{"display_name":null,"name":"Al"}"#)));
    assert_eq!(action, Action::Unsubscribe(handle("narrow")));
}

#[test]
fn resolved_post_goes_out_after_the_subscription_is_closed() {
    let service = resolving_service("pk1");
    let (service, action) = service.step(notified(profile("pk1", r#"{"display_name":"Alice"}"#)));
    assert_eq!(action, Action::Unsubscribe(handle("narrow")));
    assert_eq!(service.display_name(&"pk1".to_string()), Some("Alice".to_string()));
    let (service, action) = service.step(Input::Delivered);
    assert_eq!(action, Action::Refuse);
    let (service, action) = service.step(Input::Unsubscribed);
    assert_eq!(action, emit(note("pk1", "hello"), "Alice"));
    let (service, action) = service.step(Input::Delivered);
    assert_eq!(action, Action::Receive(Stream::Main));
    let (_, action) = service.step(notified(note("pk1", "again")));
    assert_eq!(action, emit(note("pk1", "again"), "Alice"));
}

#[test]
fn post_is_emitted_once_and_other_kinds_never() {
    let inputs = vec![
        notified(profile("pk1", r#"{"name":"Alice"}"#)),
        notified(note("pk1", "one")),
        Input::Delivered,
        notified(event(EventKind::Other, "pk1", "two")),
        notified(note("pk2", "three")),
        Input::Subscribed(handle("narrow")),
        Input::ReceiveFailed,
        Input::Unsubscribed,
        notified(note("pk1", "four")),
        Input::DeliveryFailed,
        Input::ReceiveFailed,
        Input::Notified(Notification::Other),
    ];
    let mut service = subscribed_service();
    let mut sent: Vec<OutboundMessage> = Vec::new();
    for input in inputs {
        let (next, action) = service.step(input);
        if let Action::Emit(message) = action {
            sent.push(message);
        }
        service = next;
    }
    assert_eq!(
        sent,
        vec![
            OutboundMessage { event: note("pk1", "one"), display_name: "Alice".to_string() },
            OutboundMessage { event: note("pk1", "four"), display_name: "Alice".to_string() },
        ]
    );
}

#[test]
fn stopped_pipeline_refuses_everything() {
    let (service, _) = subscribed_service().step(Input::Notified(Notification::Shutdown));
    let (service, _) = service.step(Input::Unsubscribed);
    assert_eq!(service.phase(), Phase::Stopped);
    let (service, action) = service.step(Input::Start);
    assert_eq!(action, Action::Refuse);
    let (service, action) = service.step(Input::Notified(Notification::Shutdown));
    assert_eq!(action, Action::Refuse);
    let (service, action) = service.step(Input::Unsubscribed);
    assert_eq!(action, Action::Refuse);
    assert_eq!(service.phase(), Phase::Stopped);
}

#[test]
fn draining_pipeline_waits_for_the_withdrawal_only() {
    let (service, action) = subscribed_service().step(Input::Notified(Notification::Shutdown));
    assert_eq!(action, Action::Unsubscribe(handle("main")));
    assert_eq!(service.phase(), Phase::Draining);
    let (service, action) = service.step(notified(note("pk1", "late")));
    assert_eq!(action, Action::Refuse);
    assert_eq!(service.phase(), Phase::Draining);
}

#[test]
fn metadata_event_states_a_name_only_if_it_is_a_profile() {
    assert_eq!(
        PostFetchService::handle_metadata_event(&profile("pk1", r#"{"name":"Bob"}"#)),
        Some("Bob".to_string())
    );
    assert_eq!(PostFetchService::handle_metadata_event(&note("pk1", r#"{"name":"Bob"}"#)), None);
    assert_eq!(
        PostFetchService::handle_metadata_event(&event(EventKind::Other, "pk1", r#"{"name":"Bob"}"#)),
        None
    );
    assert_eq!(PostFetchService::handle_metadata_event(&profile("pk1", "{")), None);
}

#[test]
fn lookup_gives_the_cached_name_or_the_filter_to_fetch_with() {
    let cache = MetadataCache::new().insert("pk1".to_string(), "Alice".to_string());
    assert_eq!(
        PostFetchService::get_or_fetch_display_name(&cache, &"pk1".to_string()),
        NameSource::Cached("Alice".to_string())
    );
    assert_eq!(
        PostFetchService::get_or_fetch_display_name(&cache, &"pk2".to_string()),
        NameSource::Fetch(Filter::for_author(&"pk2".to_string()))
    );
}

#[test]
fn process_event_decides_by_class() {
    let cache = MetadataCache::new();
    let (cache, decision) = PostFetchService::process_event(cache, profile("pk1", r#"{"name":"Al"}"#));
    assert_eq!(decision, Decision::Continue);
    assert_eq!(cache.get(&"pk1".to_string()), Some("Al".to_string()));
    let (cache, decision) = PostFetchService::process_event(cache, note("pk1", "hi"));
    assert_eq!(
        decision,
        Decision::Emit(OutboundMessage { event: note("pk1", "hi"), display_name: "Al".to_string() })
    );
    let (cache, decision) = PostFetchService::process_event(cache, note("pk2", "hi"));
    assert_eq!(
        decision,
        Decision::Resolve { post: note("pk2", "hi"), filter: Filter::for_author(&"pk2".to_string()) }
    );
    let (cache, decision) = PostFetchService::process_event(cache, event(EventKind::Other, "pk3", "x"));
    assert_eq!(decision, Decision::Continue);
    let (cache, decision) = PostFetchService::process_event(cache, profile("pk3", "x"));
    assert_eq!(decision, Decision::Continue);
    assert_eq!(cache.get(&"pk3".to_string()), None);
    assert_eq!(cache.get(&"pk2".to_string()), None);
}

#[test]
fn fetch_metadata_takes_the_wanted_profile_only() {
    let author = "pk1".to_string();
    let (cache, found) = PostFetchService::fetch_metadata(
        MetadataCache::new(),
        &author,
        Notification::Event(profile("pk2", r#"{"name":"Bob"}"#)),
    );
    assert!(!found);
    assert_eq!(cache.get(&"pk2".to_string()), None);
    let (cache, found) =
        PostFetchService::fetch_metadata(cache, &author, Notification::Event(note("pk1", "x")));
    assert!(!found);
    let (cache, found) = PostFetchService::fetch_metadata(cache, &author, Notification::Shutdown);
    assert!(!found);
    let (cache, found) = PostFetchService::fetch_metadata(
        cache,
        &author,
        Notification::Event(profile("pk1", r#"{"name":"Al"}"#)),
    );
    assert!(found);
    assert_eq!(cache.get(&author), Some("Al".to_string()));
}

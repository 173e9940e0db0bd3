//! The exchange between the pipeline and whoever drives it.
//!
//! The pipeline decides; the driver acts. Each [`Action`] is one thing for
//! the driver to do at the relay link or the outbound queue, and each
//! [`Input`] reports how the action before it ended.

use crate::event::{Event, EventView};
use crate::relay::{Filter, FilterView, Notification, NotificationView, SubscriptionHandle};
use vstd::prelude::*;

verus! {

/// How many messages the outbound queue holds before a send has to wait.
pub const OUTBOUND_CAPACITY: usize = 100;

/// A post together with the display name of its author.
#[derive(Clone, Debug, PartialEq, Eq)]
pub struct OutboundMessage {
    pub event: Event,
    pub display_name: String,
}

/// An [`OutboundMessage`] as mathematical values.
pub struct OutboundMessageView {
    pub event: EventView,
    pub display_name: Seq<char>,
}

impl View for OutboundMessage {
    type V = OutboundMessageView;

    open spec fn view(&self) -> OutboundMessageView {
        OutboundMessageView { event: self.event@, display_name: self.display_name@ }
    }
}

/// Which reader of the relay link's notifications is meant.
#[derive(Clone, Copy, Debug, PartialEq, Eq, Structural)]
pub enum Stream {
    /// The reader of the main loop, open from the main subscription on.
    Main,
    /// A reader of its own, open only while one author is being resolved.
    Resolver,
}

/// Why a pipeline never came to run.
#[derive(Clone, Copy, Debug, PartialEq, Eq, Structural)]
pub enum StartupError {
    /// The relays could not be connected to.
    Connect,
    /// The main filter could not be registered.
    Subscribe,
}

/// One thing for the driver to do.
#[derive(Debug, PartialEq, Eq)]
pub enum Action {
    /// Connect to these relays; answer `Connected` or `ConnectFailed`.
    Connect(Vec<String>),
    /// Register this filter; answer `Subscribed` with the handle, or
    /// `SubscribeFailed`.
    Subscribe(Filter),
    /// Await the next notification of this stream; answer `Notified`, or
    /// `ReceiveFailed` where the stream failed or ended.
    Receive(Stream),
    /// Withdraw this subscription; answer `Unsubscribed`.
    Unsubscribe(SubscriptionHandle),
    /// Enqueue this message for the consumer, waiting while the queue is
    /// full; answer `Delivered`, or `DeliveryFailed` if the consumer is gone.
    Emit(OutboundMessage),
    /// Return to the caller with this outcome. Nothing follows.
    Finish(Result<(), StartupError>),
    /// The input did not answer the action that was outstanding. Nothing has
    /// changed, and that action is still outstanding.
    Refuse,
}

/// An [`Action`] as mathematical values.
pub enum ActionView {
    Connect(Seq<Seq<char>>),
    Subscribe(FilterView),
    Receive(Stream),
    Unsubscribe(Seq<char>),
    Emit(OutboundMessageView),
    Finish(Result<(), StartupError>),
    Refuse,
}

impl View for Action {
    type V = ActionView;

    open spec fn view(&self) -> ActionView {
        match self {
            Action::Connect(relays) => ActionView::Connect(relays.deep_view()),
            Action::Subscribe(filter) => ActionView::Subscribe(filter@),
            Action::Receive(stream) => ActionView::Receive(*stream),
            Action::Unsubscribe(subscription) => ActionView::Unsubscribe(subscription@),
            Action::Emit(message) => ActionView::Emit(message@),
            Action::Finish(outcome) => ActionView::Finish(*outcome),
            Action::Refuse => ActionView::Refuse,
        }
    }
}

impl DeepView for Action {
    type V = ActionView;

    open spec fn deep_view(&self) -> ActionView {
        self@
    }
}

/// How the action before ended, or the call that sets the pipeline going.
#[derive(Clone, Debug, PartialEq, Eq)]
pub enum Input {
    /// The caller starts the pipeline.
    Start,
    /// The relays are connected.
    Connected,
    /// The relays could not be connected to.
    ConnectFailed,
    /// The filter is registered under this handle.
    Subscribed(SubscriptionHandle),
    /// The filter could not be registered.
    SubscribeFailed,
    /// The stream yielded this notification.
    Notified(Notification),
    /// The stream yielded an error in place of a notification.
    ReceiveFailed,
    /// The subscription is withdrawn.
    Unsubscribed,
    /// The message is in the queue.
    Delivered,
    /// The consumer is gone; the message is lost.
    DeliveryFailed,
}

/// An [`Input`] as mathematical values.
pub enum InputView {
    Start,
    Connected,
    ConnectFailed,
    Subscribed(Seq<char>),
    SubscribeFailed,
    Notified(NotificationView),
    ReceiveFailed,
    Unsubscribed,
    Delivered,
    DeliveryFailed,
}

impl View for Input {
    type V = InputView;

    open spec fn view(&self) -> InputView {
        match self {
            Input::Start => InputView::Start,
            Input::Connected => InputView::Connected,
            Input::ConnectFailed => InputView::ConnectFailed,
            Input::Subscribed(subscription) => InputView::Subscribed(subscription@),
            Input::SubscribeFailed => InputView::SubscribeFailed,
            Input::Notified(notification) => InputView::Notified(notification@),
            Input::ReceiveFailed => InputView::ReceiveFailed,
            Input::Unsubscribed => InputView::Unsubscribed,
            Input::Delivered => InputView::Delivered,
            Input::DeliveryFailed => InputView::DeliveryFailed,
        }
    }
}

impl DeepView for Input {
    type V = InputView;

    open spec fn deep_view(&self) -> InputView {
        self@
    }
}

} // verus!

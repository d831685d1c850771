//! The events that a session reacts to, and the actions that it asks for.

use crate::address::Address;
use crate::identity::PeerIdentity;
use crate::message::{Publication, PublicationView, Topic};
use vstd::prelude::*;

verus! {

/// What happened on the local input.
#[derive(Debug)]
pub enum LocalInput {
    /// The user entered one line of text.
    Line(String),
    /// A line could not be read.
    ReadFailed,
    /// The input has ended.
    Closed,
}

/// A local input, as plain values.
pub enum LocalInputView {
    Line(Seq<char>),
    ReadFailed,
    Closed,
}

impl View for LocalInput {
    type V = LocalInputView;

    open spec fn view(&self) -> LocalInputView {
        match self {
            LocalInput::Line(line) => LocalInputView::Line(line@),
            LocalInput::ReadFailed => LocalInputView::ReadFailed,
            LocalInput::Closed => LocalInputView::Closed,
        }
    }
}

/// What the network reported.
#[derive(Debug)]
pub enum NetworkEvent {
    /// The node can now be reached at this address.
    NewListenAddr(Address),
    /// A liveness probe to this peer was answered.
    PeerResponsive(PeerIdentity),
    /// A remote peer announced that it has subscribed to a topic.
    Subscribed { peer: PeerIdentity, topic: Topic },
    /// A message on a topic that this node has subscribed to.
    MessageReceived { source: PeerIdentity, payload: Vec<u8> },
    /// An address that the node asked to connect to could not be reached.
    DialFailed,
    /// Anything else.
    Other,
}

/// A network event, as plain values.
pub enum NetworkEventView {
    NewListenAddr(Seq<u8>),
    PeerResponsive(Seq<u8>),
    Subscribed { peer: Seq<u8>, topic: Seq<char> },
    MessageReceived { source: Seq<u8>, payload: Seq<u8> },
    DialFailed,
    Other,
}

impl View for NetworkEvent {
    type V = NetworkEventView;

    open spec fn view(&self) -> NetworkEventView {
        match self {
            NetworkEvent::NewListenAddr(address) => NetworkEventView::NewListenAddr(address@),
            NetworkEvent::PeerResponsive(peer) => NetworkEventView::PeerResponsive(peer@),
            NetworkEvent::Subscribed { peer, topic } => NetworkEventView::Subscribed {
                peer: peer@,
                topic: topic@,
            },
            NetworkEvent::MessageReceived { source, payload } => NetworkEventView::MessageReceived {
                source: source@,
                payload: payload@,
            },
            NetworkEvent::DialFailed => NetworkEventView::DialFailed,
            NetworkEvent::Other => NetworkEventView::Other,
        }
    }
}

/// One event of either source.  A session handles one at a time.
#[derive(Debug)]
pub enum Event {
    Local(LocalInput),
    Network(NetworkEvent),
}

/// An event, as plain values.
pub enum EventView {
    Local(LocalInputView),
    Network(NetworkEventView),
}

impl View for Event {
    type V = EventView;

    open spec fn view(&self) -> EventView {
        match self {
            Event::Local(input) => EventView::Local(input@),
            Event::Network(event) => EventView::Network(event@),
        }
    }
}

/// Why the session asks for a warning.  None of these ends the session.
#[derive(Clone, Copy, Debug, PartialEq, Eq, Structural)]
pub enum Warning {
    /// The line that was entered spells no address.
    NotAnAddress,
    /// A line of input could not be read.
    ReadFailed,
    /// The address that was dialled could not be reached.
    DialFailed,
}

/// What the session asks the program around it to do after one event.
#[derive(Debug)]
pub enum Action {
    /// Connect to this address.
    Dial(Address),
    /// Warn the user, and go on.
    Warn(Warning),
    /// Send this publication to its recipients.
    Publish(Publication),
    /// The first peer has answered a probe: chat mode begins, and the peer
    /// was added to the flood view.
    Connected(PeerIdentity),
    /// A peer has joined a topic and was added to its flood view.
    PeerJoined(PeerIdentity),
    /// Show this line.
    Render(String),
    /// Tell the user that the node can be reached at this address.
    ReportAddress(Address),
    /// End the session loop.
    Stop,
    /// Nothing to do.
    Nothing,
}

/// An action, as plain values.
pub enum ActionView {
    Dial(Seq<u8>),
    Warn(Warning),
    Publish(PublicationView),
    Connected(Seq<u8>),
    PeerJoined(Seq<u8>),
    Render(Seq<char>),
    ReportAddress(Seq<u8>),
    Stop,
    Nothing,
}

impl View for Action {
    type V = ActionView;

    open spec fn view(&self) -> ActionView {
        match self {
            Action::Dial(address) => ActionView::Dial(address@),
            Action::Warn(warning) => ActionView::Warn(*warning),
            Action::Publish(publication) => ActionView::Publish(publication@),
            Action::Connected(peer) => ActionView::Connected(peer@),
            Action::PeerJoined(peer) => ActionView::PeerJoined(peer@),
            Action::Render(line) => ActionView::Render(line@),
            Action::ReportAddress(address) => ActionView::ReportAddress(address@),
            Action::Stop => ActionView::Stop,
            Action::Nothing => ActionView::Nothing,
        }
    }
}

impl ActionView {
    /// Whether the node's own prompt is shown again after this action: after
    /// a publish, after a peer has joined, and after a message was shown.
    pub open spec fn shows_prompt(self) -> bool {
        self is Publish || self is PeerJoined || self is Render
    }
}

impl Action {
    /// Whether the node's own prompt is to be shown again after this action.
    pub fn shows_prompt(&self) -> (shown: bool)
        ensures
            shown == self@.shows_prompt(),
    {
        match self {
            Action::Publish(_) => true,
            Action::PeerJoined(_) => true,
            Action::Render(_) => true,
            _ => false,
        }
    }

    /// Whether this action ends the session loop.
    pub fn ends_session(&self) -> (ends: bool)
        ensures
            ends == (self@ is Stop),
    {
        match self {
            Action::Stop => true,
            _ => false,
        }
    }
}

} // verus!

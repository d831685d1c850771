//! The session controller: it takes one event at a time, from the user or
//! from the network, changes the session's state and says what is to be done.

use crate::address::{multiaddr_bytes, Address};
use crate::event::{
    Action, ActionView, Event, EventView, LocalInput, LocalInputView, NetworkEvent,
    NetworkEventView, Warning,
};
use crate::flood::{FloodModel, FloodRegistry};
use crate::identity::{peer_name, PeerIdentity};
use crate::message::{
    peer_views, topic_names, ChatMessage, ChatMessageView, PublicationView, Topic,
};
use crate::prompt::{format_prompt, message_line, prompt_text, render_message, PromptColor};
use vstd::prelude::*;
use vstd::utf8::encode_utf8;

verus! {

/// The name of the topic on which the nodes chat.
pub const CHAT_TOPIC: &'static str = "chakra-chat";

/// What a session is, as plain values.
pub struct SessionModel {
    /// The identity of this node.
    pub local: Seq<u8>,
    /// The one topic of the session.
    pub topic: Seq<char>,
    /// Whether a liveness probe has been answered by any peer.
    pub established: bool,
    /// The subscriptions and flood views of this node.
    pub flood: FloodModel,
}

impl SessionModel {
    /// The session with which a node starts: nothing is established, and the
    /// node has subscribed to its topic.
    pub open spec fn initial(local: Seq<u8>, topic: Seq<char>, flood: FloodModel) -> SessionModel {
        SessionModel { local, topic, established: false, flood: flood.subscribe(topic) }
    }

    /// The peers that this node sends to when it publishes.
    pub open spec fn peers(self) -> Seq<Seq<u8>> {
        self.flood.peers_of(self.topic)
    }

    /// Whether this node has subscribed to the topic of the session.
    pub open spec fn is_subscribed(self) -> bool {
        self.flood.is_subscribed(self.topic)
    }

    /// This session with `peer` recorded in the flood view of `topic`.
    pub open spec fn with_peer(self, topic: Seq<char>, peer: Seq<u8>) -> SessionModel {
        SessionModel { flood: self.flood.add_peer(topic, peer), ..self }
    }

    /// What a line of input asks for, where `parsed` is what the line spells
    /// as an address.  Before a connection is established a line is an
    /// address to connect to, and one that spells none is answered with a
    /// warning; afterwards every line is chat text, published on the topic.
    pub open spec fn line_action(self, line: Seq<char>, parsed: Option<Seq<u8>>) -> ActionView {
        if self.established {
            ActionView::Publish(self.flood.publication(self.topic, encode_utf8(line)))
        } else {
            match parsed {
                Some(address) => ActionView::Dial(address),
                None => ActionView::Warn(Warning::NotAnAddress),
            }
        }
    }

    /// What a local input asks for.  No local input changes the session.
    pub open spec fn local_action(self, input: LocalInputView) -> ActionView {
        match input {
            LocalInputView::Line(line) => self.line_action(line, multiaddr_bytes(line)),
            LocalInputView::ReadFailed => ActionView::Warn(Warning::ReadFailed),
            LocalInputView::Closed => ActionView::Stop,
        }
    }

    /// The session after a network event.
    pub open spec fn after_network(self, event: NetworkEventView) -> SessionModel {
        match event {
            NetworkEventView::PeerResponsive(peer) => if self.established {
                self
            } else {
                SessionModel { established: true, ..self.with_peer(self.topic, peer) }
            },
            NetworkEventView::Subscribed { peer, topic } => self.with_peer(topic, peer),
            _ => self,
        }
    }

    /// What a network event asks for.
    pub open spec fn network_action(self, event: NetworkEventView) -> ActionView {
        match event {
            NetworkEventView::NewListenAddr(address) => ActionView::ReportAddress(address),
            NetworkEventView::PeerResponsive(peer) => if self.established {
                ActionView::Nothing
            } else {
                ActionView::Connected(peer)
            },
            NetworkEventView::Subscribed { peer, topic } => ActionView::PeerJoined(peer),
            NetworkEventView::MessageReceived { source, payload } => ActionView::Render(
                message_line(peer_name(source), payload),
            ),
            NetworkEventView::DialFailed => ActionView::Warn(Warning::DialFailed),
            NetworkEventView::Other => ActionView::Nothing,
        }
    }

    /// What a message from the network asks for: to be shown where this node
    /// has subscribed to its topic, nothing where it has not.
    pub open spec fn delivery(self, message: ChatMessageView) -> ActionView {
        if self.flood.is_subscribed(message.topic) {
            self.network_action(
                NetworkEventView::MessageReceived {
                    source: message.source,
                    payload: message.payload,
                },
            )
        } else {
            ActionView::Nothing
        }
    }

    /// What a message that names several topics asks for: to be shown, once,
    /// where this node has subscribed to any of them, nothing where it has
    /// subscribed to none.
    pub open spec fn delivery_on(
        self,
        topics: Seq<Seq<char>>,
        source: Seq<u8>,
        payload: Seq<u8>,
    ) -> ActionView {
        if self.flood.is_subscribed_to_any(topics) {
            self.network_action(NetworkEventView::MessageReceived { source, payload })
        } else {
            ActionView::Nothing
        }
    }

    /// The session after one event.
    pub open spec fn after(self, event: EventView) -> SessionModel {
        match event {
            EventView::Local(_) => self,
            EventView::Network(event) => self.after_network(event),
        }
    }

    /// What one event asks for.
    pub open spec fn action(self, event: EventView) -> ActionView {
        match event {
            EventView::Local(input) => self.local_action(input),
            EventView::Network(event) => self.network_action(event),
        }
    }

    /// The session after a run of events, handled in their order.
    pub open spec fn after_all(self, events: Seq<EventView>) -> SessionModel
        decreases events.len(),
    {
        if events.len() == 0 {
            self
        } else {
            self.after_all(events.drop_last()).after(events.last())
        }
    }
}

/// Before a connection is established, a line that spells an address asks
/// for that very address to be dialled, and leaves the session as it was.
pub proof fn address_is_dialed(session: SessionModel, line: Seq<char>, address: Seq<u8>)
    requires
        !session.established,
        multiaddr_bytes(line) == Some(address),
    ensures
        session.action(EventView::Local(LocalInputView::Line(line))) == ActionView::Dial(address),
        session.after(EventView::Local(LocalInputView::Line(line))) == session,
{
}

/// Before a connection is established, a line that spells no address asks
/// for a warning: nothing is dialled, the session goes on, and it is left as
/// it was.
pub proof fn other_text_is_refused(session: SessionModel, line: Seq<char>)
    requires
        !session.established,
        multiaddr_bytes(line) is None,
    ensures
        session.action(EventView::Local(LocalInputView::Line(line))) == ActionView::Warn(
            Warning::NotAnAddress,
        ),
        session.after(EventView::Local(LocalInputView::Line(line))) == session,
{
}

/// Once a connection is established, every line asks for one publication:
/// of the bytes of that line, on the session's topic, to the recipients that
/// the registry gives for the topic.  The session is left as it was.
pub proof fn line_is_published(session: SessionModel, line: Seq<char>)
    requires
        session.established,
    ensures
        session.action(EventView::Local(LocalInputView::Line(line))) == ActionView::Publish(
            PublicationView {
                topic: session.topic,
                payload: encode_utf8(line),
                recipients: session.flood.recipients(session.topic),
            },
        ),
        session.after(EventView::Local(LocalInputView::Line(line))) == session,
{
}

/// Only the end of the input ends the session.
pub proof fn only_closed_input_stops(session: SessionModel, event: EventView)
    ensures
        session.action(event) is Stop <==> event == EventView::Local(LocalInputView::Closed),
{
}

/// The session is established after an event exactly where it was before,
/// or where the event is an answered liveness probe.
pub proof fn only_a_probe_establishes(session: SessionModel, event: EventView)
    ensures
        session.after(event).established == (session.established || event matches EventView::Network(
            NetworkEventView::PeerResponsive(_),
        )),
{
}

/// The first answered probe establishes the session and records the peer
/// that answered among the peers that the node sends to.
pub proof fn first_probe_establishes(session: SessionModel, peer: Seq<u8>)
    requires
        !session.established,
    ensures
        session.after(EventView::Network(NetworkEventView::PeerResponsive(peer))).established,
        session.after(EventView::Network(NetworkEventView::PeerResponsive(peer))).peers().contains(
            peer,
        ),
        session.action(EventView::Network(NetworkEventView::PeerResponsive(peer)))
            == ActionView::Connected(peer),
{
    crate::flood::added_peer_is_in_view(session.flood, session.topic, peer);
}

/// An answered probe in an established session changes nothing and asks for
/// nothing.
pub proof fn later_probe_is_ignored(session: SessionModel, peer: Seq<u8>)
    requires
        session.established,
    ensures
        session.after(EventView::Network(NetworkEventView::PeerResponsive(peer))) == session,
        session.action(EventView::Network(NetworkEventView::PeerResponsive(peer)))
            == ActionView::Nothing,
{
}

/// A peer that announces its subscription to a topic is recorded in the flood
/// view of that topic, whether or not the session is established.
pub proof fn subscriber_joins_view(session: SessionModel, peer: Seq<u8>, topic: Seq<char>)
    ensures
        session.after(
            EventView::Network(NetworkEventView::Subscribed { peer, topic }),
        ).flood.peers_of(topic).contains(peer),
        session.after(
            EventView::Network(NetworkEventView::Subscribed { peer, topic }),
        ).established == session.established,
{
    crate::flood::added_peer_is_in_view(session.flood, topic, peer);
}

/// A session that is not established stays so through any run of events
/// among which there is no answered probe.
pub proof fn unestablished_until_a_probe(session: SessionModel, events: Seq<EventView>)
    requires
        !session.established,
        forall|i: int|
            0 <= i < events.len() ==> !(#[trigger] events[i] matches EventView::Network(
                NetworkEventView::PeerResponsive(_),
            )),
    ensures
        !session.after_all(events).established,
    decreases events.len(),
{
    if events.len() > 0 {
        unestablished_until_a_probe(session, events.drop_last());
        only_a_probe_establishes(session.after_all(events.drop_last()), events.last());
    }
}

/// An established session stays established, whatever events follow.
pub proof fn established_is_permanent(session: SessionModel, events: Seq<EventView>)
    requires
        session.established,
    ensures
        session.after_all(events).established,
    decreases events.len(),
{
    if events.len() > 0 {
        established_is_permanent(session, events.drop_last());
        only_a_probe_establishes(session.after_all(events.drop_last()), events.last());
    }
}

/// No event changes the node's identity or topic, cancels the subscription
/// to the topic, or removes a peer from a flood view.
pub proof fn session_only_grows(
    session: SessionModel,
    event: EventView,
    topic: Seq<char>,
    member: Seq<u8>,
)
    ensures
        session.after(event).local == session.local,
        session.after(event).topic == session.topic,
        session.after(event).flood.subscribed == session.flood.subscribed,
        session.flood.peers_of(topic).contains(member) ==> session.after(event).flood.peers_of(
            topic,
        ).contains(member),
{
    if session.flood.peers_of(topic).contains(member) {
        match event {
            EventView::Network(NetworkEventView::PeerResponsive(peer)) => {
                crate::flood::views_only_grow(session.flood, topic, member, session.topic, peer);
            },
            EventView::Network(NetworkEventView::Subscribed { peer, topic: joined }) => {
                crate::flood::views_only_grow(session.flood, topic, member, joined, peer);
            },
            _ => {},
        }
    }
}

/// A session starts subscribed to its topic.
pub proof fn session_starts_subscribed(local: Seq<u8>, topic: Seq<char>, flood: FloodModel)
    ensures
        SessionModel::initial(local, topic, flood).is_subscribed(),
        !SessionModel::initial(local, topic, flood).established,
{
}

/// No run of events changes the node's identity or the topic of a session,
/// and a session that is subscribed to its topic stays so.
pub proof fn session_stays_subscribed(session: SessionModel, events: Seq<EventView>)
    ensures
        session.after_all(events).local == session.local,
        session.after_all(events).topic == session.topic,
        session.is_subscribed() ==> session.after_all(events).is_subscribed(),
    decreases events.len(),
{
    if events.len() > 0 {
        session_stays_subscribed(session, events.drop_last());
        session_only_grows(
            session.after_all(events.drop_last()),
            events.last(),
            session.topic,
            Seq::empty(),
        );
    }
}

/// What an established session publishes while it is subscribed to its topic
/// goes to every peer of its view.
pub proof fn published_line_reaches_the_view(session: SessionModel, line: Seq<char>)
    requires
        session.established,
        session.is_subscribed(),
    ensures
        session.action(EventView::Local(LocalInputView::Line(line))) == ActionView::Publish(
            PublicationView {
                topic: session.topic,
                payload: encode_utf8(line),
                recipients: session.peers(),
            },
        ),
{
}

/// A message that names one topic is handled as a message on that topic.
pub proof fn delivery_on_one_topic(session: SessionModel, message: ChatMessageView)
    ensures
        session.delivery_on(seq![message.topic], message.source, message.payload)
            == session.delivery(message),
{
    let topics = seq![message.topic];
    if session.flood.is_subscribed(message.topic) {
        assert(session.flood.is_subscribed(topics[0]));
    }
}

/// Why a session could not be started.
#[derive(Clone, Copy, Debug, PartialEq, Eq, Structural)]
pub enum StartupError {
    /// The node had subscribed to the topic before.
    SubscriptionRejected,
}

/// One chat session of a node.
#[derive(Debug)]
pub struct Session {
    local: PeerIdentity,
    topic: Topic,
    established: bool,
    flood: FloodRegistry,
}

impl View for Session {
    type V = SessionModel;

    closed spec fn view(&self) -> SessionModel {
        SessionModel {
            local: self.local@,
            topic: self.topic@,
            established: self.established,
            flood: self.flood@,
        }
    }
}

impl Session {
    /// Starts a session of the node `local` on `topic`: subscribes to the
    /// topic in `flood`.  Where the registry rejects the subscription no
    /// session can exist, and the error says so.
    pub fn start(local: PeerIdentity, topic: Topic, flood: FloodRegistry) -> (started: Result<
        Session,
        StartupError,
    >)
        ensures
            started is Ok <==> !flood@.is_subscribed(topic@),
            started matches Ok(session) ==> session@ == SessionModel::initial(
                local@,
                topic@,
                flood@,
            ),
            started matches Err(error) ==> error == StartupError::SubscriptionRejected,
    {
        let mut flood = flood;
        if flood.subscribe(topic.clone()) {
            Ok(Session { local, topic, established: false, flood })
        } else {
            Err(StartupError::SubscriptionRejected)
        }
    }

    /// Whether a liveness probe has been answered by any peer.
    pub fn is_established(&self) -> (established: bool)
        ensures
            established == self@.established,
    {
        self.established
    }

    /// The identity of this node.
    pub fn local_peer(&self) -> (peer: &PeerIdentity)
        ensures
            peer@ == self@.local,
    {
        &self.local
    }

    /// The topic of this session.
    pub fn topic(&self) -> (topic: &Topic)
        ensures
            topic@ == self@.topic,
    {
        &self.topic
    }

    /// The peers that this node sends to when it publishes, in the order in
    /// which they were recorded.
    pub fn peers(&self) -> (peers: Vec<PeerIdentity>)
        ensures
            peer_views(peers@) == self@.peers(),
            peer_views(peers@).no_duplicates(),
    {
        self.flood.peers_in_view(&self.topic)
    }

    /// The node's own prompt.
    pub fn prompt(&self) -> (prompt: String)
        ensures
            prompt@ == prompt_text(peer_name(self@.local), PromptColor::Cyan),
    {
        format_prompt(&self.local, PromptColor::Cyan)
    }

    /// Handles a line of input, given what the line spells as an address.
    pub fn on_parsed_line(&self, line: &str, parsed: Option<Address>) -> (action: Action)
        ensures
            action@ == self@.line_action(
                line@,
                match parsed {
                    Some(address) => Some(address@),
                    None => None,
                },
            ),
    {
        if self.established {
            Action::Publish(self.flood.publish(&self.topic, line.as_bytes()))
        } else {
            match parsed {
                Some(address) => Action::Dial(address),
                None => Action::Warn(Warning::NotAnAddress),
            }
        }
    }

    /// Handles a line of input.
    pub fn on_line(&self, line: &str) -> (action: Action)
        ensures
            action@ == self@.line_action(line@, multiaddr_bytes(line@)),
    {
        let parsed = if self.established {
            None
        } else {
            Address::parse(line)
        };
        self.on_parsed_line(line, parsed)
    }

    /// Handles one local input.
    pub fn on_local(&self, input: LocalInput) -> (action: Action)
        ensures
            action@ == self@.local_action(input@),
    {
        match input {
            LocalInput::Line(line) => self.on_line(line.as_str()),
            LocalInput::ReadFailed => Action::Warn(Warning::ReadFailed),
            LocalInput::Closed => Action::Stop,
        }
    }

    /// Handles one network event.
    pub fn on_network(&mut self, event: NetworkEvent) -> (action: Action)
        ensures
            final(self)@ == old(self)@.after_network(event@),
            action@ == old(self)@.network_action(event@),
    {
        match event {
            NetworkEvent::NewListenAddr(address) => Action::ReportAddress(address),
            NetworkEvent::PeerResponsive(peer) => {
                if self.established {
                    Action::Nothing
                } else {
                    self.flood.add_peer_to_view(&self.topic, peer.clone());
                    self.established = true;
                    Action::Connected(peer)
                }
            },
            NetworkEvent::Subscribed { peer, topic } => {
                self.flood.add_peer_to_view(&topic, peer.clone());
                Action::PeerJoined(peer)
            },
            NetworkEvent::MessageReceived { source, payload } => Action::Render(
                render_message(&source, payload.as_slice()),
            ),
            NetworkEvent::DialFailed => Action::Warn(Warning::DialFailed),
            NetworkEvent::Other => Action::Nothing,
        }
    }

    /// Handles a message that the network handed in: where this node has
    /// subscribed to its topic the message is shown, once; where it has not,
    /// the message is dropped.  The session does not change.
    pub fn deliver(&self, message: ChatMessage) -> (action: Action)
        ensures
            action@ == self@.delivery(message@),
    {
        match self.flood.receive(message) {
            Some(NetworkEvent::MessageReceived { source, payload }) => Action::Render(
                render_message(&source, payload.as_slice()),
            ),
            _ => Action::Nothing,
        }
    }

    /// Handles a message that names several topics, as the transport hands
    /// them in: it is shown, once, where this node has subscribed to any of
    /// the topics, and dropped where it has subscribed to none.  The session
    /// does not change.
    pub fn deliver_on(&self, topics: &Vec<Topic>, source: PeerIdentity, payload: Vec<u8>) -> (action:
        Action)
        ensures
            action@ == self@.delivery_on(topic_names(topics@), source@, payload@),
    {
        if self.flood.is_subscribed_to_any(topics) {
            Action::Render(render_message(&source, payload.as_slice()))
        } else {
            Action::Nothing
        }
    }

    /// Handles one event of either source.
    pub fn step(&mut self, event: Event) -> (action: Action)
        ensures
            final(self)@ == old(self)@.after(event@),
            action@ == old(self)@.action(event@),
    {
        match event {
            Event::Local(input) => self.on_local(input),
            Event::Network(event) => self.on_network(event),
        }
    }
}

} // verus!

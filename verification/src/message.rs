//! Topics and the chat messages that are flooded on them.

use crate::identity::PeerIdentity;
use vstd::prelude::*;
use vstd::string::StringExecFns;

verus! {

/// A named broadcast channel.  Two topics are the same channel exactly when
/// their names agree.
#[derive(Debug)]
pub struct Topic {
    name: String,
}

impl View for Topic {
    type V = Seq<char>;

    closed spec fn view(&self) -> Seq<char> {
        self.name@
    }
}

impl Topic {
    /// The topic called `name`.
    pub fn new(name: &str) -> (topic: Topic)
        ensures
            topic@ == name@,
    {
        Topic { name: String::from_str(name) }
    }

    /// The name of this topic.
    pub fn name(&self) -> (name: &str)
        ensures
            name@ == self@,
    {
        self.name.as_str()
    }

    /// Whether `self` and `other` name the same channel.
    pub fn same_topic(&self, other: &Topic) -> (same: bool)
        ensures
            same == (self@ == other@),
    {
        self.name == other.name
    }
}

impl Clone for Topic {
    fn clone(&self) -> (copy: Topic)
        ensures
            copy@ == self@,
    {
        Topic { name: self.name.clone() }
    }
}

/// The names of the topics of a list.
pub open spec fn topic_names(topics: Seq<Topic>) -> Seq<Seq<char>> {
    topics.map_values(|t: Topic| t@)
}

/// What a chat message is, as plain values.
pub struct ChatMessageView {
    pub topic: Seq<char>,
    pub source: Seq<u8>,
    pub payload: Seq<u8>,
}

/// One message on a topic.  The payload is whatever bytes the sender put
/// there: nothing promises that they are text.
#[derive(Debug)]
pub struct ChatMessage {
    pub topic: Topic,
    pub source: PeerIdentity,
    pub payload: Vec<u8>,
}

impl View for ChatMessage {
    type V = ChatMessageView;

    open spec fn view(&self) -> ChatMessageView {
        ChatMessageView { topic: self.topic@, source: self.source@, payload: self.payload@ }
    }
}

impl ChatMessage {
    /// The message that `source` sends on `topic` with the bytes `payload`.
    pub fn new(topic: Topic, source: PeerIdentity, payload: Vec<u8>) -> (message: ChatMessage)
        ensures
            message@ == (ChatMessageView {
                topic: topic@,
                source: source@,
                payload: payload@,
            }),
    {
        ChatMessage { topic, source, payload }
    }
}

/// What a publication is, as plain values.
pub struct PublicationView {
    pub topic: Seq<char>,
    pub payload: Seq<u8>,
    pub recipients: Seq<Seq<u8>>,
}

/// One act of publishing: the same topic and payload, sent once to each
/// recipient, in the order in which the recipients joined the view.
#[derive(Debug)]
pub struct Publication {
    pub topic: Topic,
    pub payload: Vec<u8>,
    pub recipients: Vec<PeerIdentity>,
}

/// The peers of a list, each as its encoded bytes.
pub open spec fn peer_views(peers: Seq<PeerIdentity>) -> Seq<Seq<u8>> {
    peers.map_values(|p: PeerIdentity| p@)
}

impl View for Publication {
    type V = PublicationView;

    open spec fn view(&self) -> PublicationView {
        PublicationView {
            topic: self.topic@,
            payload: self.payload@,
            recipients: peer_views(self.recipients@),
        }
    }
}

} // verus!

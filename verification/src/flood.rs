//! Flood dissemination: which topics this node has joined, and which peers it
//! sends to on each topic.

use crate::event::{NetworkEvent, NetworkEventView};
use crate::identity::PeerIdentity;
use crate::message::{
    peer_views, topic_names, ChatMessage, Publication, PublicationView, Topic,
};
use vstd::prelude::*;

verus! {

/// The view `view` after `peer` was recorded in it: unchanged where the peer
/// is already there, else with the peer added at the end.
pub open spec fn view_with(view: Seq<Seq<u8>>, peer: Seq<u8>) -> Seq<Seq<u8>> {
    if view.contains(peer) {
        view
    } else {
        view.push(peer)
    }
}

/// The flood view of `topic` in a map of views; empty where it has none.
pub open spec fn view_in(views: Map<Seq<char>, Seq<Seq<u8>>>, topic: Seq<char>) -> Seq<Seq<u8>> {
    if views.dom().contains(topic) {
        views[topic]
    } else {
        Seq::empty()
    }
}

/// What a flood registry holds, as plain values.
pub struct FloodModel {
    /// The names of the topics that this node has subscribed to.
    pub subscribed: Set<Seq<char>>,
    /// For each topic that has one, its flood view: the peers known to take
    /// part in it, in the order in which they were recorded.
    pub views: Map<Seq<char>, Seq<Seq<u8>>>,
}

impl FloodModel {
    /// A registry with no subscription and no view.
    pub open spec fn empty() -> FloodModel {
        FloodModel { subscribed: Set::empty(), views: Map::empty() }
    }

    /// Whether this node has subscribed to `topic`.
    pub open spec fn is_subscribed(self, topic: Seq<char>) -> bool {
        self.subscribed.contains(topic)
    }

    /// The flood view of `topic`; empty where nothing was recorded for it.
    pub open spec fn peers_of(self, topic: Seq<char>) -> Seq<Seq<u8>> {
        view_in(self.views, topic)
    }

    /// Whether this node has subscribed to any of `topics`.
    pub open spec fn is_subscribed_to_any(self, topics: Seq<Seq<char>>) -> bool {
        exists|i: int| 0 <= i < topics.len() && self.is_subscribed(#[trigger] topics[i])
    }

    /// The registry after this node subscribed to `topic`.
    pub open spec fn subscribe(self, topic: Seq<char>) -> FloodModel {
        FloodModel { subscribed: self.subscribed.insert(topic), views: self.views }
    }

    /// The registry after `peer` was recorded in the view of `topic`.
    pub open spec fn add_peer(self, topic: Seq<char>, peer: Seq<u8>) -> FloodModel {
        FloodModel {
            subscribed: self.subscribed,
            views: self.views.insert(topic, view_with(self.peers_of(topic), peer)),
        }
    }

    /// The peers that a publish on `topic` is sent to: the view of the topic
    /// where this node has subscribed to it, nobody where it has not.
    pub open spec fn recipients(self, topic: Seq<char>) -> Seq<Seq<u8>> {
        if self.is_subscribed(topic) {
            self.peers_of(topic)
        } else {
            Seq::empty()
        }
    }

    /// What a publish of `payload` on `topic` amounts to.
    pub open spec fn publication(self, topic: Seq<char>, payload: Seq<u8>) -> PublicationView {
        PublicationView { topic, payload, recipients: self.recipients(topic) }
    }
}

/// A flood view is a set kept in order: recording a peer adds it to the set
/// of the view's peers, and a view in which nobody stands twice stays so.
pub proof fn view_with_is_set_insertion(view: Seq<Seq<u8>>, peer: Seq<u8>)
    ensures
        view_with(view, peer).to_set() == view.to_set().insert(peer),
        view.no_duplicates() ==> view_with(view, peer).no_duplicates(),
{
    let after = view_with(view, peer);
    assert forall|other: Seq<u8>| after.contains(other) == (view.contains(other) || other
        == peer) by {
        if !view.contains(peer) {
            assert(after[view.len() as int] == peer);
            if view.contains(other) {
                let at = choose|i: int| 0 <= i < view.len() && view[i] == other;
                assert(after[at] == other);
            }
        }
    }
    assert(after.to_set() =~= view.to_set().insert(peer));
    if view.no_duplicates() && !view.contains(peer) {
        lemma_push_keeps_distinct(view, peer);
    }
}

/// Recording a peer in a view twice gives what recording it once gives.
pub proof fn add_peer_is_idempotent(registry: FloodModel, topic: Seq<char>, peer: Seq<u8>)
    ensures
        registry.add_peer(topic, peer).add_peer(topic, peer) == registry.add_peer(topic, peer),
{
    let once = registry.add_peer(topic, peer);
    let view = registry.peers_of(topic);
    if !view.contains(peer) {
        assert(view.push(peer)[view.len() as int] == peer);
    }
    assert(once.peers_of(topic).contains(peer));
    assert(once.add_peer(topic, peer).views =~= once.views);
}

/// A peer that was recorded in the view of a topic is in that view, and is a
/// recipient of what this node publishes on the topic once it has subscribed.
pub proof fn added_peer_is_in_view(registry: FloodModel, topic: Seq<char>, peer: Seq<u8>)
    ensures
        registry.add_peer(topic, peer).peers_of(topic).contains(peer),
        registry.is_subscribed(topic) ==> registry.add_peer(topic, peer).recipients(
            topic,
        ).contains(peer),
{
    let view = registry.peers_of(topic);
    if !view.contains(peer) {
        assert(view.push(peer)[view.len() as int] == peer);
    }
}

/// A flood view never loses a peer: whoever is in the view of a topic is
/// still there after any peer was recorded and after any subscription.
pub proof fn views_only_grow(
    registry: FloodModel,
    topic: Seq<char>,
    member: Seq<u8>,
    other_topic: Seq<char>,
    other_peer: Seq<u8>,
)
    requires
        registry.peers_of(topic).contains(member),
    ensures
        registry.add_peer(other_topic, other_peer).peers_of(topic).contains(member),
        registry.subscribe(other_topic).peers_of(topic).contains(member),
{
    let view = registry.peers_of(topic);
    let at = choose|i: int| 0 <= i < view.len() && view[i] == member;
    if other_topic == topic && !view.contains(other_peer) {
        assert(view.push(other_peer)[at] == member);
    }
}

/// A subscription is never lost, and recording a peer neither adds nor
/// removes one.
pub proof fn subscriptions_are_kept(
    registry: FloodModel,
    topic: Seq<char>,
    other_topic: Seq<char>,
    peer: Seq<u8>,
)
    ensures
        registry.subscribe(topic).is_subscribed(topic),
        registry.is_subscribed(topic) ==> registry.subscribe(other_topic).is_subscribed(topic),
        registry.add_peer(other_topic, peer).subscribed == registry.subscribed,
{
}

/// The flood view of one topic.
#[derive(Debug)]
struct TopicView {
    topic: Topic,
    peers: Vec<PeerIdentity>,
}

/// The subscription table and the flood views of one node.
#[derive(Debug)]
pub struct FloodRegistry {
    subscribed: Vec<Topic>,
    views: Vec<TopicView>,
}

spec fn names_topic(subscribed: Seq<Topic>, topic: Seq<char>) -> bool {
    exists|i: int| 0 <= i < subscribed.len() && subscribed[i]@ == topic
}

spec fn subscribed_names(subscribed: Seq<Topic>) -> Set<Seq<char>> {
    Set::new(|topic: Seq<char>| names_topic(subscribed, topic))
}

spec fn is_view_of(views: Seq<TopicView>, i: int, topic: Seq<char>) -> bool {
    0 <= i < views.len() && views[i].topic@ == topic
}

spec fn has_view(views: Seq<TopicView>, topic: Seq<char>) -> bool {
    exists|i: int| is_view_of(views, i, topic)
}

spec fn view_index(views: Seq<TopicView>, topic: Seq<char>) -> int {
    choose|i: int| is_view_of(views, i, topic)
}

/// No topic has two views, and no view holds a peer twice.
spec fn views_well_formed(views: Seq<TopicView>) -> bool {
    &&& forall|i: int, j: int| 0 <= i < j < views.len() ==> views[i].topic@ != views[j].topic@
    &&& forall|i: int|
        0 <= i < views.len() ==> #[trigger] peer_views(views[i].peers@).no_duplicates()
}

spec fn views_by_topic(views: Seq<TopicView>) -> Map<Seq<char>, Seq<Seq<u8>>> {
    Map::new(
        |topic: Seq<char>| has_view(views, topic),
        |topic: Seq<char>| peer_views(views[view_index(views, topic)].peers@),
    )
}

/// A view in which nobody stands twice stays so when somebody new is added.
proof fn lemma_push_keeps_distinct(view: Seq<Seq<u8>>, peer: Seq<u8>)
    requires
        view.no_duplicates(),
        !view.contains(peer),
    ensures
        view.push(peer).no_duplicates(),
{
    assert forall|a: int, b: int|
        0 <= a < view.len() + 1 && 0 <= b < view.len() + 1 && a != b implies view.push(peer)[a]
        != view.push(peer)[b] by {
        if a < view.len() {
            assert(view.contains(view[a]));
        }
        if b < view.len() {
            assert(view.contains(view[b]));
        }
    }
}

/// The view that stands at `i` is the view of its topic.
proof fn lemma_view_at(views: Seq<TopicView>, i: int)
    requires
        views_well_formed(views),
        0 <= i < views.len(),
    ensures
        has_view(views, views[i].topic@),
        view_index(views, views[i].topic@) == i,
        view_in(views_by_topic(views), views[i].topic@) == peer_views(views[i].peers@),
{
    let topic = views[i].topic@;
    assert(is_view_of(views, i, topic));
    let j = view_index(views, topic);
    assert(is_view_of(views, j, topic));
}

/// A topic that no view is for has the empty view.
proof fn lemma_no_view(views: Seq<TopicView>, topic: Seq<char>)
    requires
        forall|i: int| 0 <= i < views.len() ==> views[i].topic@ != topic,
    ensures
        !has_view(views, topic),
        view_in(views_by_topic(views), topic) == Seq::<Seq<u8>>::empty(),
{
    if has_view(views, topic) {
        let j = view_index(views, topic);
        assert(is_view_of(views, j, topic));
    }
}

/// Whether `peer` is among `peers`.
fn holds_peer(peers: &Vec<PeerIdentity>, peer: &PeerIdentity) -> (found: bool)
    ensures
        found == peer_views(peers@).contains(peer@),
{
    let mut at: usize = 0;
    while at < peers.len()
        invariant
            at <= peers@.len(),
            forall|k: int| 0 <= k < at ==> peer_views(peers@)[k] != peer@,
        decreases peers@.len() - at,
    {
        if peers[at].same_peer(peer) {
            assert(peer_views(peers@)[at as int] == peer@);
            return true;
        }
        at += 1;
    }
    false
}

/// A copy of a list of peers.
fn copy_peers(peers: &Vec<PeerIdentity>) -> (copy: Vec<PeerIdentity>)
    ensures
        peer_views(copy@) == peer_views(peers@),
{
    let mut copy: Vec<PeerIdentity> = Vec::new();
    let mut at: usize = 0;
    while at < peers.len()
        invariant
            at <= peers@.len(),
            copy@.len() == at,
            forall|k: int| 0 <= k < at ==> copy@[k]@ == peers@[k]@,
        decreases peers@.len() - at,
    {
        copy.push(peers[at].clone());
        at += 1;
    }
    assert(peer_views(copy@) =~= peer_views(peers@));
    copy
}

/// Whether `topic` is among `subscribed`.
fn holds_topic(subscribed: &Vec<Topic>, topic: &Topic) -> (found: bool)
    ensures
        found == subscribed_names(subscribed@).contains(topic@),
{
    let mut at: usize = 0;
    while at < subscribed.len()
        invariant
            at <= subscribed@.len(),
            forall|k: int| 0 <= k < at ==> subscribed@[k]@ != topic@,
        decreases subscribed@.len() - at,
    {
        if subscribed[at].same_topic(topic) {
            assert(names_topic(subscribed@, topic@));
            return true;
        }
        at += 1;
    }
    assert(!names_topic(subscribed@, topic@));
    false
}

/// Where the view of `topic` stands among `views`, if it has one.
fn find_view(views: &Vec<TopicView>, topic: &Topic) -> (found: Option<usize>)
    ensures
        found matches Some(i) ==> is_view_of(views@, i as int, topic@),
        found is None ==> forall|i: int| 0 <= i < views@.len() ==> views@[i].topic@ != topic@,
{
    let mut at: usize = 0;
    while at < views.len()
        invariant
            at <= views@.len(),
            forall|k: int| 0 <= k < at ==> views@[k].topic@ != topic@,
        decreases views@.len() - at,
    {
        if views[at].topic.same_topic(topic) {
            return Some(at);
        }
        at += 1;
    }
    None
}

/// Adds `topic` at the end of `subscribed`.
fn record_topic(subscribed: &mut Vec<Topic>, topic: Topic)
    ensures
        subscribed_names(final(subscribed)@) == subscribed_names(old(subscribed)@).insert(topic@),
{
    let ghost before = subscribed@;
    subscribed.push(topic);
    proof {
        let after = subscribed@;
        assert forall|t: Seq<char>|
            names_topic(after, t) == (names_topic(before, t) || t == topic@) by {
            if names_topic(before, t) {
                let i = choose|i: int| 0 <= i < before.len() && before[i]@ == t;
                assert(after[i]@ == t);
            }
            if t == topic@ {
                assert(after[before.len() as int]@ == t);
            }
        }
        assert(subscribed_names(after) =~= subscribed_names(before).insert(topic@));
    }
}

/// Records `peer` in the view of `topic` among `views`, starting a view for
/// the topic where it has none.
fn record_peer(views: &mut Vec<TopicView>, topic: &Topic, peer: PeerIdentity)
    requires
        views_well_formed(old(views)@),
    ensures
        views_well_formed(final(views)@),
        views_by_topic(final(views)@) == views_by_topic(old(views)@).insert(
            topic@,
            view_with(view_in(views_by_topic(old(views)@), topic@), peer@),
        ),
{
    let ghost before = views@;
    let ghost peer_view = peer@;
    match find_view(views, topic) {
        Some(i) => {
            proof {
                lemma_view_at(before, i as int);
            }
            if holds_peer(&views[i].peers, &peer) {
                assert(views_by_topic(before).insert(
                    topic@,
                    view_in(views_by_topic(before), topic@),
                ) =~= views_by_topic(before));
            } else {
                views[i].peers.push(peer);
                proof {
                    let after = views@;
                    assert(peer_views(after[i as int].peers@) =~= peer_views(
                        before[i as int].peers@,
                    ).push(peer_view));
                    lemma_push_keeps_distinct(peer_views(before[i as int].peers@), peer_view);
                    assert forall|j: int| 0 <= j < after.len() implies #[trigger] peer_views(
                        after[j].peers@,
                    ).no_duplicates() by {
                        if j != i {
                            assert(peer_views(before[j].peers@).no_duplicates());
                        }
                    }
                    assert forall|t: Seq<char>| has_view(after, t) == has_view(before, t) by {
                        if has_view(after, t) {
                            assert(is_view_of(before, view_index(after, t), t));
                        }
                        if has_view(before, t) {
                            assert(is_view_of(after, view_index(before, t), t));
                        }
                    }
                    lemma_view_at(after, i as int);
                    assert forall|t: Seq<char>| has_view(before, t) && t != topic@ implies
                        views_by_topic(after)[t] == views_by_topic(before)[t] by {
                        let j = view_index(before, t);
                        assert(is_view_of(before, j, t));
                        lemma_view_at(before, j);
                        lemma_view_at(after, j);
                    }
                    assert(views_by_topic(after) =~= views_by_topic(before).insert(
                        topic@,
                        view_with(view_in(views_by_topic(before), topic@), peer_view),
                    ));
                }
            }
        },
        None => {
            proof {
                lemma_no_view(before, topic@);
            }
            let mut peers: Vec<PeerIdentity> = Vec::new();
            peers.push(peer);
            views.push(TopicView { topic: topic.clone(), peers });
            proof {
                let after = views@;
                let last = before.len() as int;
                assert(peer_views(after[last].peers@) =~= seq![peer_view]);
                assert forall|t: Seq<char>|
                    has_view(after, t) == (has_view(before, t) || t == topic@) by {
                    if has_view(after, t) && t != topic@ {
                        assert(is_view_of(before, view_index(after, t), t));
                    }
                    if has_view(before, t) {
                        assert(is_view_of(after, view_index(before, t), t));
                    }
                    if t == topic@ {
                        assert(is_view_of(after, last, t));
                    }
                }
                lemma_view_at(after, last);
                assert forall|t: Seq<char>| has_view(before, t) implies views_by_topic(after)[t]
                    == views_by_topic(before)[t] by {
                    let j = view_index(before, t);
                    assert(is_view_of(before, j, t));
                    lemma_view_at(before, j);
                    lemma_view_at(after, j);
                }
                assert(views_by_topic(after) =~= views_by_topic(before).insert(
                    topic@,
                    view_with(view_in(views_by_topic(before), topic@), peer_view),
                ));
            }
        },
    }
}

impl View for FloodRegistry {
    type V = FloodModel;

    closed spec fn view(&self) -> FloodModel {
        FloodModel {
            subscribed: subscribed_names(self.subscribed@),
            views: views_by_topic(self.views@),
        }
    }
}

impl FloodRegistry {
    #[verifier::type_invariant]
    spec fn well_formed(&self) -> bool {
        views_well_formed(self.views@)
    }

    /// A registry with no subscription and no view.
    pub fn new() -> (registry: FloodRegistry)
        ensures
            registry@ == FloodModel::empty(),
    {
        let registry = FloodRegistry { subscribed: Vec::new(), views: Vec::new() };
        proof {
            assert forall|t: Seq<char>| !has_view(registry.views@, t) by {
                lemma_no_view(registry.views@, t);
            }
            assert(registry@.subscribed =~= Set::empty());
            assert(registry@.views =~= Map::empty());
        }
        registry
    }

    /// Whether this node has subscribed to `topic`.
    pub fn is_subscribed(&self, topic: &Topic) -> (subscribed: bool)
        ensures
            subscribed == self@.is_subscribed(topic@),
    {
        holds_topic(&self.subscribed, topic)
    }

    /// Whether this node has subscribed to any of `topics`.
    pub fn is_subscribed_to_any(&self, topics: &Vec<Topic>) -> (subscribed: bool)
        ensures
            subscribed == self@.is_subscribed_to_any(topic_names(topics@)),
    {
        let mut at: usize = 0;
        while at < topics.len()
            invariant
                at <= topics@.len(),
                forall|k: int| 0 <= k < at ==> !self@.is_subscribed(#[trigger] topic_names(topics@)[k]),
            decreases topics@.len() - at,
        {
            if self.is_subscribed(&topics[at]) {
                assert(self@.is_subscribed(topic_names(topics@)[at as int]));
                return true;
            }
            at += 1;
        }
        false
    }

    /// Registers this node's interest in `topic`.
    ///
    /// Returns `true` where the subscription is new, and `false`, leaving the
    /// registry as it was, where the node has subscribed to `topic` before.
    pub fn subscribe(&mut self, topic: Topic) -> (accepted: bool)
        ensures
            accepted == !old(self)@.is_subscribed(topic@),
            final(self)@ == old(self)@.subscribe(topic@),
    {
        proof {
            use_type_invariant(&*self);
        }
        if holds_topic(&self.subscribed, &topic) {
            assert(self@.subscribed.insert(topic@) =~= self@.subscribed);
            return false;
        }
        // The table is taken out, changed, and put back.
        let mut subscribed: Vec<Topic> = Vec::new();
        core::mem::swap(&mut self.subscribed, &mut subscribed);
        record_topic(&mut subscribed, topic);
        self.subscribed = subscribed;
        true
    }

    /// Records that `peer` takes part in the flood view of `topic`.
    ///
    /// Recording a peer that the view already holds changes nothing.
    pub fn add_peer_to_view(&mut self, topic: &Topic, peer: PeerIdentity)
        ensures
            final(self)@ == old(self)@.add_peer(topic@, peer@),
    {
        proof {
            use_type_invariant(&*self);
        }
        // The views are taken out, changed, and put back.
        let mut views: Vec<TopicView> = Vec::new();
        core::mem::swap(&mut self.views, &mut views);
        record_peer(&mut views, topic, peer);
        self.views = views;
    }

    /// The peers in the flood view of `topic`, in the order in which they were
    /// recorded.  No peer stands in it twice.
    pub fn peers_in_view(&self, topic: &Topic) -> (peers: Vec<PeerIdentity>)
        ensures
            peer_views(peers@) == self@.peers_of(topic@),
            peer_views(peers@).no_duplicates(),
    {
        proof {
            use_type_invariant(self);
        }
        match find_view(&self.views, topic) {
            Some(i) => {
                proof {
                    lemma_view_at(self.views@, i as int);
                }
                copy_peers(&self.views[i].peers)
            },
            None => {
                proof {
                    lemma_no_view(self.views@, topic@);
                }
                let peers: Vec<PeerIdentity> = Vec::new();
                assert(peer_views(peers@) =~= Seq::<Seq<u8>>::empty());
                peers
            },
        }
    }

    /// Publishes `payload` on `topic`: one send to every peer in the view of
    /// the topic.  Where this node has not subscribed to the topic, nothing is
    /// sent.  The registry itself does not change.
    pub fn publish(&self, topic: &Topic, payload: &[u8]) -> (publication: Publication)
        ensures
            publication@ == self@.publication(topic@, payload@),
    {
        let recipients = if self.is_subscribed(topic) {
            self.peers_in_view(topic)
        } else {
            let nobody: Vec<PeerIdentity> = Vec::new();
            assert(peer_views(nobody@) =~= Seq::<Seq<u8>>::empty());
            nobody
        };
        Publication {
            topic: topic.clone(),
            payload: vstd::slice::slice_to_vec(payload),
            recipients,
        }
    }

    /// Handles a message that arrived from the network: it is delivered, once,
    /// where this node has subscribed to its topic, and dropped where not.
    pub fn receive(&self, message: ChatMessage) -> (delivered: Option<NetworkEvent>)
        ensures
            delivered is Some <==> self@.is_subscribed(message@.topic),
            delivered matches Some(event) ==> event@ == (NetworkEventView::MessageReceived {
                source: message@.source,
                payload: message@.payload,
            }),
    {
        if self.is_subscribed(&message.topic) {
            Some(NetworkEvent::MessageReceived { source: message.source, payload: message.payload })
        } else {
            None
        }
    }
}

} // verus!

use vstd::prelude::*;

verus! {

/// Section of a resume that a change touched.
#[derive(Clone, Copy, Debug, PartialEq, Eq, Structural)]
pub enum SectionType {
    PersonalInfo,
    Education,
    Frameworks,
    Languages,
    Projects,
    Skills,
    Experience,
}

/// What happened to a resume.
#[derive(Clone, Copy, Debug, PartialEq, Eq, Structural)]
pub enum ResumeChangedAction {
    Created,
    Updated(SectionType),
    Deleted,
}

/// Notification that a resume changed, as subscribers receive it.
#[derive(Clone, Debug, PartialEq, Eq)]
pub struct ResumeChangedEvent {
    pub kind: String,
    pub resume_id: i32,
    pub action: ResumeChangedAction,
}

/// The `kind` every resume change notification carries.
pub open spec fn resume_changed_kind() -> Seq<char> {
    "resume.changed"@
}

/// Number of notifications a topic keeps for receivers that fall behind.
pub open spec fn hub_buffer() -> nat {
    128
}

/// Per-resume publication state: how many notifications were sent and the
/// most recent ones still held for slow receivers.
struct Topic {
    resume_id: i32,
    sent: u64,
    retained: Vec<ResumeChangedAction>,
}

/// Publish/subscribe hub of resume change notifications, one topic per resume.
pub struct Hub {
    identity: u64,
    topics: Vec<Topic>,
    buffer: usize,
    history: Ghost<Map<i32, Seq<ResumeChangedAction>>>,
}

/// A subscription to the notifications of one resume: the resume and the
/// position of the next notification to deliver.
#[derive(Clone, Copy, Debug)]
pub struct Receiver {
    hub: u64,
    resume_id: i32,
    next: u64,
}

/// Why a receive delivered no notification.
#[derive(Clone, Copy, Debug, PartialEq, Eq, Structural)]
pub enum TryRecvError {
    /// Nothing was published since the last delivered notification.
    Empty,
    /// The receiver fell behind; this many notifications were dropped.
    Lagged(u64),
}

/// Outcome of a receive in terms of the published history.
pub enum Delivery {
    Event(ResumeChangedAction),
    Empty,
    Lagged(nat),
}

/// The last `buffer` entries of a history (all of it when shorter).
pub open spec fn retained_window(h: Seq<ResumeChangedAction>, buffer: nat) -> Seq<ResumeChangedAction> {
    if h.len() > buffer {
        h.subrange(h.len() - buffer, h.len() as int)
    } else {
        h
    }
}

/// What a receive at position `next` of a topic with history `h` yields.
pub open spec fn delivery(h: Seq<ResumeChangedAction>, buffer: nat, next: nat) -> Delivery {
    if next >= h.len() {
        Delivery::Empty
    } else if next + buffer < h.len() {
        Delivery::Lagged((h.len() - buffer - next) as nat)
    } else {
        Delivery::Event(h[next as int])
    }
}

/// Everything published to a resume so far (nothing for a resume without topic).
pub open spec fn published_to(topics: Map<i32, Seq<ResumeChangedAction>>, resume_id: i32) -> Seq<ResumeChangedAction> {
    if topics.contains_key(resume_id) {
        topics[resume_id]
    } else {
        Seq::empty()
    }
}

/// The receiver position after a receive at position `next`.
pub open spec fn next_after_delivery(h: Seq<ResumeChangedAction>, buffer: nat, next: nat) -> nat {
    if next >= h.len() {
        next
    } else if next + buffer < h.len() {
        (h.len() - buffer) as nat
    } else {
        next + 1
    }
}

impl Topic {
    spec fn matches(&self, h: Seq<ResumeChangedAction>, buffer: nat) -> bool {
        &&& self.sent == h.len()
        &&& self.retained@ == retained_window(h, buffer)
    }
}

impl Hub {
    /// The identity of the hub, which its receivers carry.  What identity a
    /// new hub has is not stated, so a receiver can only be read through the
    /// hub it was subscribed on.
    pub closed spec fn identity(&self) -> u64 {
        self.identity
    }

    /// Every notification published so far, per resume that has a topic.
    pub closed spec fn topics(&self) -> Map<i32, Seq<ResumeChangedAction>> {
        self.history@
    }

    /// The hub's internal consistency.
    pub closed spec fn wf(&self) -> bool {
        &&& self.buffer == hub_buffer()
        &&& forall|i: int, j: int|
            0 <= i < j < self.topics@.len() ==> #[trigger] self.topics@[i].resume_id
                != #[trigger] self.topics@[j].resume_id
        &&& forall|i: int|
            0 <= i < self.topics@.len() ==> self.history@.contains_key(
                #[trigger] self.topics@[i].resume_id,
            )
        &&& forall|r: i32|
            #[trigger] self.history@.contains_key(r) ==> exists|i: int|
                0 <= i < self.topics@.len() && #[trigger] self.topics@[i].resume_id == r
        &&& forall|i: int|
            0 <= i < self.topics@.len() ==> #[trigger] self.topics@[i].matches(
                self.history@[self.topics@[i].resume_id],
                self.buffer as nat,
            )
    }

    /// Creates a hub without topics.
    pub fn new() -> (hub: Hub)
        ensures
            hub.wf(),
            hub.topics() == Map::<i32, Seq<ResumeChangedAction>>::empty(),
    {
        Hub { identity: 0, topics: Vec::new(), buffer: 128, history: Ghost(Map::empty()) }
    }

    fn find_topic(&self, resume_id: i32) -> (r: Option<usize>)
        requires
            self.wf(),
        ensures
            match r {
                Some(i) => i < self.topics@.len() && self.topics@[i as int].resume_id == resume_id,
                None => !self.history@.contains_key(resume_id),
            },
    {
        let mut i: usize = 0;
        while i < self.topics.len()
            invariant
                self.wf(),
                i <= self.topics@.len(),
                forall|k: int| 0 <= k < i ==> self.topics@[k].resume_id != resume_id,
            decreases self.topics@.len() - i,
        {
            if self.topics[i].resume_id == resume_id {
                return Some(i);
            }
            i = i + 1;
        }
        None
    }

    /// The topic of a resume, created (with an empty history) when missing.
    fn sender_for(&mut self, resume_id: i32) -> (idx: usize)
        requires
            old(self).wf(),
        ensures
            final(self).identity == old(self).identity,
            final(self).wf(),
            idx < final(self).topics@.len(),
            final(self).topics@[idx as int].resume_id == resume_id,
            final(self).history@ == if old(self).history@.contains_key(resume_id) {
                old(self).history@
            } else {
                old(self).history@.insert(resume_id, Seq::empty())
            },
    {
        match self.find_topic(resume_id) {
            Some(i) => i,
            None => {
                let ghost old_topics = self.topics@;
                self.topics.push(Topic { resume_id, sent: 0, retained: Vec::new() });
                self.history = Ghost(self.history@.insert(resume_id, Seq::empty()));
                let idx = self.topics.len() - 1;
                proof {
                    assert(self.topics@[idx as int].resume_id == resume_id);
                    assert forall|r: i32| #[trigger] self.history@.contains_key(r) implies exists|
                        i: int,
                    | 0 <= i < self.topics@.len() && #[trigger] self.topics@[i].resume_id == r by {
                        if r == resume_id {
                            assert(self.topics@[idx as int].resume_id == r);
                        } else {
                            let i = choose|i: int|
                                0 <= i < old_topics.len() && #[trigger] old_topics[i].resume_id
                                    == r;
                            assert(self.topics@[i].resume_id == r);
                        }
                    }
                    assert(retained_window(Seq::<ResumeChangedAction>::empty(), 128) =~= Seq::<
                        ResumeChangedAction,
                    >::empty());
                    assert forall|i: int| 0 <= i < self.topics@.len() implies #[trigger] self.topics@[i].matches(
                        self.history@[self.topics@[i].resume_id],
                        self.buffer as nat,
                    ) by {
                        if i < old_topics.len() {
                            assert(old_topics[i] == self.topics@[i]);
                        }
                    }
                }
                idx
            },
        }
    }

    /// Subscribes to the notifications of a resume: the receiver delivers
    /// what is published to that resume from now on.
    pub fn subscribe(&mut self, resume_id: i32) -> (rx: Receiver)
        requires
            old(self).wf(),
        ensures
            final(self).wf(),
            final(self).topics() == if old(self).topics().contains_key(resume_id) {
                old(self).topics()
            } else {
                old(self).topics().insert(resume_id, Seq::empty())
            },
            final(self).identity() == old(self).identity(),
            rx.hub_identity() == final(self).identity(),
            rx.resume_id() == resume_id,
            rx.position() == final(self).topics()[resume_id].len(),
    {
        let idx = self.sender_for(resume_id);
        let next = self.topics[idx].sent;
        proof {
            assert(self.topics@[idx as int].matches(
                self.history@[self.topics@[idx as int].resume_id],
                self.buffer as nat,
            ));
        }
        Receiver { hub: self.identity, resume_id, next }
    }

    /// How many notifications were published to a resume (0 for a resume
    /// without topic).
    pub fn published_count(&self, resume_id: i32) -> (r: u64)
        requires
            self.wf(),
        ensures
            r == published_to(self.topics(), resume_id).len(),
    {
        match self.find_topic(resume_id) {
            Some(i) => {
                proof {
                    assert(self.topics@[i as int].matches(
                        self.history@[self.topics@[i as int].resume_id],
                        self.buffer as nat,
                    ));
                }
                self.topics[i].sent
            },
            None => 0,
        }
    }

    /// Publishes a change notification to the subscribers of a resume.
    pub fn publish_resume_changed(&mut self, resume_id: i32, action: ResumeChangedAction)
        requires
            old(self).wf(),
            published_to(old(self).topics(), resume_id).len() < u64::MAX,
        ensures
            final(self).identity() == old(self).identity(),
            final(self).wf(),
            final(self).topics() == old(self).topics().insert(
                resume_id,
                published_to(old(self).topics(), resume_id).push(action),
            ),
    {
        let idx = self.sender_for(resume_id);
        let ghost mid_topics = self.topics@;
        let ghost h = self.history@[resume_id];
        proof {
            assert(mid_topics[idx as int].matches(
                self.history@[mid_topics[idx as int].resume_id],
                self.buffer as nat,
            ));
        }
        let mut topic = self.topics.remove(idx);
        let ghost r0 = topic.retained@;
        topic.retained.push(action);
        if topic.retained.len() > self.buffer {
            topic.retained.remove(0);
        }
        proof {
            let h2 = h.push(action);
            if h.len() > 128 {
                assert(topic.retained@ =~= h2.subrange(h2.len() - 128, h2.len() as int));
            } else if h.len() == 128 {
                assert(topic.retained@ =~= h2.subrange(h2.len() - 128, h2.len() as int));
            } else {
                assert(topic.retained@ =~= h2);
            }
        }
        topic.sent = topic.sent + 1;
        self.topics.insert(idx, topic);
        self.history = Ghost(self.history@.insert(resume_id, h.push(action)));
        proof {
            let h2 = h.push(action);
            assert(self.topics@[idx as int].retained@ =~= retained_window(h2, 128));
            assert forall|i: int| 0 <= i < self.topics@.len() implies #[trigger] self.topics@[i].matches(
                self.history@[self.topics@[i].resume_id],
                self.buffer as nat,
            ) by {
                if i != idx {
                    assert(self.topics@[i] == mid_topics[i]);
                    assert(mid_topics[i].resume_id != resume_id);
                }
            }
            assert forall|i: int, j: int|
                0 <= i < j < self.topics@.len() implies #[trigger] self.topics@[i].resume_id
                != #[trigger] self.topics@[j].resume_id by {
                assert(self.topics@[i].resume_id == mid_topics[i].resume_id);
                assert(self.topics@[j].resume_id == mid_topics[j].resume_id);
            }
            assert forall|r: i32| #[trigger] self.history@.contains_key(r) implies exists|i: int|
                0 <= i < self.topics@.len() && #[trigger] self.topics@[i].resume_id == r by {
                let i = choose|i: int|
                    0 <= i < mid_topics.len() && #[trigger] mid_topics[i].resume_id == r;
                assert(self.topics@[i].resume_id == r);
            }
            assert forall|i: int| 0 <= i < self.topics@.len() implies self.history@.contains_key(
                #[trigger] self.topics@[i].resume_id,
            ) by {
                assert(self.topics@[i].resume_id == mid_topics[i].resume_id);
            }
        }
    }
}

impl Receiver {
    /// The resume this receiver listens to.
    pub closed spec fn resume_id(&self) -> i32 {
        self.resume_id
    }

    /// Position in the resume's history of the next notification to deliver.
    pub closed spec fn position(&self) -> nat {
        self.next as nat
    }

    /// The identity of the hub this receiver was subscribed on.
    pub closed spec fn hub_identity(&self) -> u64 {
        self.hub
    }

    /// Whether this receiver was subscribed on `hub`.
    pub fn reads_from(&self, hub: &Hub) -> (r: bool)
        ensures
            r == (self.hub_identity() == hub.identity()),
    {
        self.hub == hub.identity
    }

    /// Takes the next notification without waiting.  A receiver that fell
    /// more than the hub's buffer behind first reports how many
    /// notifications it missed and then continues with the oldest one kept.
    pub fn try_recv(&mut self, hub: &Hub) -> (r: Result<ResumeChangedEvent, TryRecvError>)
        requires
            hub.wf(),
            old(self).hub_identity() == hub.identity(),
        ensures
            final(self).hub_identity() == old(self).hub_identity(),
            final(self).resume_id() == old(self).resume_id(),
            final(self).position() == next_after_delivery(
                published_to(hub.topics(), old(self).resume_id()),
                hub_buffer(),
                old(self).position(),
            ),
            old(self).position() <= published_to(hub.topics(), old(self).resume_id()).len()
                ==> final(self).position() <= published_to(hub.topics(), old(self).resume_id()).len(),
            match delivery(published_to(hub.topics(), old(self).resume_id()), hub_buffer(), old(self).position()) {
                Delivery::Event(a) => r matches Ok(e) && e.kind@ == resume_changed_kind()
                    && e.resume_id == old(self).resume_id() && e.action == a,
                Delivery::Empty => r == Err::<ResumeChangedEvent, TryRecvError>(TryRecvError::Empty),
                Delivery::Lagged(n) => r matches Err(TryRecvError::Lagged(m)) && m == n,
            },
    {
        let idx = match hub.find_topic(self.resume_id) {
            Some(i) => i,
            None => return Err(TryRecvError::Empty),
        };
        let topic = &hub.topics[idx];
        let ghost h = hub.history@[self.resume_id];
        assert(topic.matches(h, 128));
        if self.next >= topic.sent {
            return Err(TryRecvError::Empty);
        }
        let oldest: u64 = topic.sent - topic.retained.len() as u64;
        if self.next < oldest {
            let missed = oldest - self.next;
            self.next = oldest;
            return Err(TryRecvError::Lagged(missed));
        }
        let action = topic.retained[(self.next - oldest) as usize];
        self.next = self.next + 1;
        proof { reveal_strlit("resume.changed"); }
        Ok(ResumeChangedEvent { kind: String::from_str("resume.changed"), resume_id: self.resume_id, action })
    }
}

/// A subscriber that has received everything published so far receives the
/// next published notification, and only that one.
pub proof fn lemma_publish_reaches_caught_up_subscriber(h: Seq<ResumeChangedAction>, a: ResumeChangedAction)
    ensures
        delivery(h.push(a), hub_buffer(), h.len()) == Delivery::Event(a),
        next_after_delivery(h.push(a), hub_buffer(), h.len()) == h.len() + 1,
        delivery(h.push(a), hub_buffer(), h.len() + 1) == Delivery::Empty,
{
}

/// A new subscriber receives nothing that was published before it subscribed.
pub proof fn lemma_new_subscriber_starts_empty(h: Seq<ResumeChangedAction>)
    ensures
        delivery(h, hub_buffer(), h.len()) == Delivery::Empty,
        next_after_delivery(h, hub_buffer(), h.len()) == h.len(),
{
}

/// A subscriber at most a buffer's worth behind receives the published
/// notifications in order, without gaps.
pub proof fn lemma_in_order_within_buffer(h: Seq<ResumeChangedAction>, p: nat)
    requires
        p < h.len(),
        h.len() <= p + hub_buffer(),
    ensures
        delivery(h, hub_buffer(), p) == Delivery::Event(h[p as int]),
        next_after_delivery(h, hub_buffer(), p) == p + 1,
{
}

/// A subscriber more than a buffer's worth behind is told how many
/// notifications it missed and resumes at the oldest one kept.
pub proof fn lemma_lagging_subscriber_skips_to_oldest_kept(h: Seq<ResumeChangedAction>, p: nat)
    requires
        p + hub_buffer() < h.len(),
    ensures
        delivery(h, hub_buffer(), p) == Delivery::Lagged((h.len() - hub_buffer() - p) as nat),
        next_after_delivery(h, hub_buffer(), p) + hub_buffer() == h.len(),
        delivery(h, hub_buffer(), next_after_delivery(h, hub_buffer(), p))
            == Delivery::Event(h[h.len() - hub_buffer()]),
{
}

/// Publishing to one resume changes nothing that the subscribers of any
/// other resume receive.
pub proof fn lemma_publish_leaves_other_resumes(
    topics: Map<i32, Seq<ResumeChangedAction>>,
    resume_id: i32,
    a: ResumeChangedAction,
    other: i32,
)
    requires
        other != resume_id,
    ensures
        published_to(topics.insert(resume_id, published_to(topics, resume_id).push(a)), other)
            == published_to(topics, other),
{
}

/// A subscriber that had received everything receives a burst of up to a
/// buffer's worth of notifications exactly, in publication order, and then
/// nothing; this holds for each subscriber of the resume on its own.
pub proof fn lemma_subscriber_receives_burst_in_order(h: Seq<ResumeChangedAction>, burst: Seq<ResumeChangedAction>)
    requires
        burst.len() <= hub_buffer(),
    ensures
        forall|i: int|
            0 <= i < burst.len() ==> delivery(h + burst, hub_buffer(), (h.len() + i) as nat) == Delivery::Event(
                #[trigger] burst[i],
            ) && next_after_delivery(h + burst, hub_buffer(), (h.len() + i) as nat) == h.len() + i + 1,
        delivery(h + burst, hub_buffer(), (h + burst).len()) == Delivery::Empty,
{
    assert forall|i: int| 0 <= i < burst.len() implies delivery(h + burst, hub_buffer(), (h.len() + i) as nat)
        == Delivery::Event(#[trigger] burst[i]) && next_after_delivery(h + burst, hub_buffer(), (h.len() + i) as nat)
        == h.len() + i + 1 by {
        assert((h + burst)[h.len() + i] == burst[i]);
    }
}

/// A resume's notification history only grows: publishing appends to one
/// resume's history and keeps every history as a prefix of what it becomes.
pub proof fn lemma_history_only_grows(
    topics: Map<i32, Seq<ResumeChangedAction>>,
    resume_id: i32,
    a: ResumeChangedAction,
    any: i32,
)
    ensures
        published_to(topics, any).is_prefix_of(
            published_to(topics.insert(resume_id, published_to(topics, resume_id).push(a)), any),
        ),
{
    let before = published_to(topics, any);
    let after = published_to(topics.insert(resume_id, published_to(topics, resume_id).push(a)), any);
    if any == resume_id {
        assert(after == before.push(a));
        assert(before =~= after.subrange(0, before.len() as int));
    } else {
        assert(after =~= before);
    }
}

/// Subscribing never changes what was published: a resume that has a topic
/// keeps it as it is, and a new resume's topic starts empty.
pub proof fn lemma_subscribe_keeps_histories(topics: Map<i32, Seq<ResumeChangedAction>>, resume_id: i32, any: i32)
    ensures
        published_to(
            if topics.contains_key(resume_id) { topics } else { topics.insert(resume_id, Seq::empty()) },
            any,
        ) == published_to(topics, any),
{
}

} // verus!

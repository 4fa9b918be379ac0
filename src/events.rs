use vstd::prelude::*;
use crate::text::same_text;

verus! {

/// The events a native object can report to a subscribed actor.
#[derive(Debug, Clone, Copy, PartialEq, Eq, Structural)]
pub enum EventKind {
    OnClose,
    OnDead,
    OnWorkerClose,
    OnPause,
    OnResume,
    OnProducerPause,
    OnProducerResume,
    OnProducerClose,
    OnTransportClose,
    OnLayersChange,
    OnScore,
    OnVideoOrientationChange,
    OnSctpStateChange,
    OnIceStateChange,
    OnDtlsStateChange,
    OnIceSelectedTupleChange,
    OnTuple,
}

/// The kinds of native object a handle can wrap.
#[derive(Debug, Clone, Copy, PartialEq, Eq, Structural)]
pub enum ResourceKind {
    Worker,
    Router,
    WebRtcServer,
    WebRtcTransport,
    PipeTransport,
    PlainTransport,
    Producer,
    Consumer,
    DataProducer,
    DataConsumer,
}

/// The atom that names an event kind in the host runtime.
pub open spec fn kind_name(k: EventKind) -> Seq<char> {
    match k {
        EventKind::OnClose => "on_close"@,
        EventKind::OnDead => "on_dead"@,
        EventKind::OnWorkerClose => "on_worker_close"@,
        EventKind::OnPause => "on_pause"@,
        EventKind::OnResume => "on_resume"@,
        EventKind::OnProducerPause => "on_producer_pause"@,
        EventKind::OnProducerResume => "on_producer_resume"@,
        EventKind::OnProducerClose => "on_producer_close"@,
        EventKind::OnTransportClose => "on_transport_close"@,
        EventKind::OnLayersChange => "on_layers_change"@,
        EventKind::OnScore => "on_score"@,
        EventKind::OnVideoOrientationChange => "on_video_orientation_change"@,
        EventKind::OnSctpStateChange => "on_sctp_state_change"@,
        EventKind::OnIceStateChange => "on_ice_state_change"@,
        EventKind::OnDtlsStateChange => "on_dtls_state_change"@,
        EventKind::OnIceSelectedTupleChange => "on_ice_selected_tuple_change"@,
        EventKind::OnTuple => "on_tuple"@,
    }
}

/// Which native callbacks each kind of object offers.
pub open spec fn supports(r: ResourceKind, k: EventKind) -> bool {
    match r {
        ResourceKind::Worker => k == EventKind::OnClose || k == EventKind::OnDead,
        ResourceKind::Router => k == EventKind::OnClose || k == EventKind::OnWorkerClose,
        ResourceKind::WebRtcServer => false,
        ResourceKind::WebRtcTransport => k == EventKind::OnClose || k == EventKind::OnSctpStateChange
            || k == EventKind::OnIceStateChange || k == EventKind::OnDtlsStateChange || k
            == EventKind::OnIceSelectedTupleChange,
        ResourceKind::PipeTransport | ResourceKind::PlainTransport => k == EventKind::OnClose || k
            == EventKind::OnSctpStateChange || k == EventKind::OnTuple,
        ResourceKind::Producer => k == EventKind::OnClose || k == EventKind::OnPause || k
            == EventKind::OnResume || k == EventKind::OnVideoOrientationChange || k
            == EventKind::OnScore,
        ResourceKind::Consumer => k == EventKind::OnClose || k == EventKind::OnPause || k
            == EventKind::OnResume || k == EventKind::OnProducerPause || k
            == EventKind::OnProducerResume || k == EventKind::OnProducerClose || k
            == EventKind::OnTransportClose || k == EventKind::OnLayersChange || k
            == EventKind::OnScore,
        ResourceKind::DataProducer | ResourceKind::DataConsumer => k == EventKind::OnClose,
    }
}

impl EventKind {
    /// The atom name of this event kind.
    pub fn name(&self) -> (r: &'static str)
        ensures
            r@ == kind_name(*self),
    {
        match self {
            EventKind::OnClose => "on_close",
            EventKind::OnDead => "on_dead",
            EventKind::OnWorkerClose => "on_worker_close",
            EventKind::OnPause => "on_pause",
            EventKind::OnResume => "on_resume",
            EventKind::OnProducerPause => "on_producer_pause",
            EventKind::OnProducerResume => "on_producer_resume",
            EventKind::OnProducerClose => "on_producer_close",
            EventKind::OnTransportClose => "on_transport_close",
            EventKind::OnLayersChange => "on_layers_change",
            EventKind::OnScore => "on_score",
            EventKind::OnVideoOrientationChange => "on_video_orientation_change",
            EventKind::OnSctpStateChange => "on_sctp_state_change",
            EventKind::OnIceStateChange => "on_ice_state_change",
            EventKind::OnDtlsStateChange => "on_dtls_state_change",
            EventKind::OnIceSelectedTupleChange => "on_ice_selected_tuple_change",
            EventKind::OnTuple => "on_tuple",
        }
    }
}

/// Every event kind, each once.
pub fn all_events() -> (r: Vec<EventKind>)
    ensures
        forall|k: EventKind| r@.contains(k),
        r@.no_duplicates(),
{
    let r = vec![
        EventKind::OnClose,
        EventKind::OnDead,
        EventKind::OnWorkerClose,
        EventKind::OnPause,
        EventKind::OnResume,
        EventKind::OnProducerPause,
        EventKind::OnProducerResume,
        EventKind::OnProducerClose,
        EventKind::OnTransportClose,
        EventKind::OnLayersChange,
        EventKind::OnScore,
        EventKind::OnVideoOrientationChange,
        EventKind::OnSctpStateChange,
        EventKind::OnIceStateChange,
        EventKind::OnDtlsStateChange,
        EventKind::OnIceSelectedTupleChange,
        EventKind::OnTuple,
    ];
    assert forall|k: EventKind| r@.contains(k) by {
        match k {
            EventKind::OnClose => assert(r@[0] == k),
            EventKind::OnDead => assert(r@[1] == k),
            EventKind::OnWorkerClose => assert(r@[2] == k),
            EventKind::OnPause => assert(r@[3] == k),
            EventKind::OnResume => assert(r@[4] == k),
            EventKind::OnProducerPause => assert(r@[5] == k),
            EventKind::OnProducerResume => assert(r@[6] == k),
            EventKind::OnProducerClose => assert(r@[7] == k),
            EventKind::OnTransportClose => assert(r@[8] == k),
            EventKind::OnLayersChange => assert(r@[9] == k),
            EventKind::OnScore => assert(r@[10] == k),
            EventKind::OnVideoOrientationChange => assert(r@[11] == k),
            EventKind::OnSctpStateChange => assert(r@[12] == k),
            EventKind::OnIceStateChange => assert(r@[13] == k),
            EventKind::OnDtlsStateChange => assert(r@[14] == k),
            EventKind::OnIceSelectedTupleChange => assert(r@[15] == k),
            EventKind::OnTuple => assert(r@[16] == k),
        }
    }
    r
}

/// The event kind an atom name stands for, if any.
pub fn event_kind_from_name(name: &str) -> (r: Option<EventKind>)
    ensures
        r is Some ==> kind_name(r->Some_0) == name@,
        r is None ==> forall|k: EventKind| kind_name(k) != name@,
{
    let kinds = all_events();
    let mut i: usize = 0;
    while i < kinds.len()
        invariant
            i <= kinds@.len(),
            forall|k: EventKind| kinds@.contains(k),
            forall|j: int| 0 <= j < i ==> kind_name(#[trigger] kinds@[j]) != name@,
        decreases kinds.len() - i,
    {
        let k = kinds[i];
        if same_text(k.name(), name) {
            return Some(k);
        }
        i += 1;
    }
    assert forall|k: EventKind| kind_name(k) != name@ by {
        assert(kinds@.contains(k));
        let j = choose|j: int| 0 <= j < kinds@.len() && kinds@[j] == k;
        assert(kind_name(kinds@[j]) != name@);
    }
    None
}

/// Whether an object of kind `r` offers a callback for `k`.
pub fn supports_event(r: ResourceKind, k: EventKind) -> (b: bool)
    ensures
        b == supports(r, k),
{
    match r {
        ResourceKind::Worker => k == EventKind::OnClose || k == EventKind::OnDead,
        ResourceKind::Router => k == EventKind::OnClose || k == EventKind::OnWorkerClose,
        ResourceKind::WebRtcServer => false,
        ResourceKind::WebRtcTransport => k == EventKind::OnClose || k == EventKind::OnSctpStateChange
            || k == EventKind::OnIceStateChange || k == EventKind::OnDtlsStateChange || k
            == EventKind::OnIceSelectedTupleChange,
        ResourceKind::PipeTransport | ResourceKind::PlainTransport => k == EventKind::OnClose || k
            == EventKind::OnSctpStateChange || k == EventKind::OnTuple,
        ResourceKind::Producer => k == EventKind::OnClose || k == EventKind::OnPause || k
            == EventKind::OnResume || k == EventKind::OnVideoOrientationChange || k
            == EventKind::OnScore,
        ResourceKind::Consumer => k == EventKind::OnClose || k == EventKind::OnPause || k
            == EventKind::OnResume || k == EventKind::OnProducerPause || k
            == EventKind::OnProducerResume || k == EventKind::OnProducerClose || k
            == EventKind::OnTransportClose || k == EventKind::OnLayersChange || k
            == EventKind::OnScore,
        ResourceKind::DataProducer | ResourceKind::DataConsumer => k == EventKind::OnClose,
    }
}

/// What one subscription call owes: `attach` lists, each once, exactly the
/// requested kinds that the object offers and that were not yet subscribed,
/// and the subscribed set grows by exactly those, in that order.
pub open spec fn subscribe_post(
    before: Seq<EventKind>,
    r: ResourceKind,
    requested: Seq<EventKind>,
    attach: Seq<EventKind>,
    after: Seq<EventKind>,
) -> bool {
    &&& attach.no_duplicates()
    &&& forall|k: EventKind|
        #![trigger attach.contains(k)]
        attach.contains(k) <==> (requested.contains(k) && supports(r, k) && !before.contains(k))
    &&& after == before + attach
}

/// The kinds attached by a run of subscription calls, in call order.
pub open spec fn attached_in_order(attaches: Seq<Seq<EventKind>>) -> Seq<EventKind>
    decreases attaches.len(),
{
    if attaches.len() == 0 {
        Seq::empty()
    } else {
        attached_in_order(attaches.drop_last()) + attaches.last()
    }
}

proof fn lemma_push_contains(s: Seq<EventKind>, v: EventKind, x: EventKind)
    ensures
        s.push(v).contains(x) <==> (s.contains(x) || x == v),
{
    if s.contains(x) {
        let j = choose|j: int| 0 <= j < s.len() && #[trigger] s[j] == x;
        assert(s.push(v)[j] == x);
    }
    if x == v {
        assert(s.push(v)[s.len() as int] == x);
    }
    if s.push(v).contains(x) && x != v {
        let j = choose|j: int| 0 <= j < s.push(v).len() && #[trigger] s.push(v)[j] == x;
        assert(s[j] == x);
    }
}

/// Whether `k` is in `v`.
fn holds_kind(v: &Vec<EventKind>, k: EventKind) -> (r: bool)
    ensures
        r == v@.contains(k),
{
    let mut i: usize = 0;
    while i < v.len()
        invariant
            i <= v@.len(),
            forall|j: int| 0 <= j < i ==> v@[j] != k,
        decreases v.len() - i,
    {
        if v[i] == k {
            return true;
        }
        i += 1;
    }
    false
}

/// The event kinds of one handle that already have a native listener.
pub struct SubscriptionSet {
    kinds: Vec<EventKind>,
}

impl View for SubscriptionSet {
    type V = Seq<EventKind>;

    closed spec fn view(&self) -> Seq<EventKind> {
        self.kinds@
    }
}

impl SubscriptionSet {
    /// No kind is held twice.
    pub open spec fn wf(&self) -> bool {
        self@.no_duplicates()
    }

    pub fn new() -> (s: Self)
        ensures
            s@ == Seq::<EventKind>::empty(),
            s.wf(),
    {
        SubscriptionSet { kinds: Vec::new() }
    }

    pub fn is_subscribed(&self, k: EventKind) -> (r: bool)
        ensures
            r == self@.contains(k),
    {
        holds_kind(&self.kinds, k)
    }

    /// Records a subscription request for an object of kind `r` and returns
    /// the kinds whose native callback must now be attached: a kind that is
    /// already subscribed, requested twice, or not offered is left out.
    pub fn subscribe(&mut self, r: ResourceKind, requested: &Vec<EventKind>) -> (attach: Vec<
        EventKind,
    >)
        requires
            old(self).wf(),
        ensures
            final(self).wf(),
            subscribe_post(old(self)@, r, requested@, attach@, final(self)@),
    {
        let ghost before = self@;
        let mut attach: Vec<EventKind> = Vec::new();
        let mut i: usize = 0;
        while i < requested.len()
            invariant
                i <= requested@.len(),
                before.no_duplicates(),
                attach@.no_duplicates(),
                self@ == before + attach@,
                forall|k: EventKind|
                    #![trigger attach@.contains(k)]
                    attach@.contains(k) <==> (requested@.take(i as int).contains(k) && supports(r, k)
                        && !before.contains(k)),
            decreases requested.len() - i,
        {
            let k = requested[i];
            assert(requested@.take(i + 1) == requested@.take(i as int).push(k));
            if supports_event(r, k) && !holds_kind(&self.kinds, k) {
                proof {
                    if attach@.contains(k) {
                        let j = choose|j: int| 0 <= j < attach@.len() && #[trigger] attach@[j] == k;
                        assert((before + attach@)[before.len() + j] == k);
                    }
                    if before.contains(k) {
                        let j = choose|j: int| 0 <= j < before.len() && #[trigger] before[j] == k;
                        assert((before + attach@)[j] == k);
                    }
                    assert forall|a: int, b: int|
                        0 <= a < b < attach@.push(k).len() implies attach@.push(k)[a] != attach@.push(k)[b] by {
                        if b == attach@.len() {
                            assert(attach@.contains(attach@[a]));
                        }
                    }
                    assert(before + attach@.push(k) == (before + attach@).push(k));
                }
                let ghost old_attach = attach@;
                self.kinds.push(k);
                attach.push(k);
                proof {
                    assert forall|x: EventKind| #![trigger attach@.contains(x)]
                        attach@.contains(x) <==> (requested@.take(i + 1).contains(x) && supports(r, x)
                            && !before.contains(x)) by {
                        lemma_push_contains(old_attach, k, x);
                        lemma_push_contains(requested@.take(i as int), k, x);
                        assert(old_attach.contains(x) <==> (requested@.take(i as int).contains(x) && supports(r, x)
                            && !before.contains(x)));
                    }
                }
            } else {
                proof {
                    assert forall|x: EventKind| #![trigger attach@.contains(x)]
                        attach@.contains(x) <==> (requested@.take(i + 1).contains(x) && supports(r, x)
                            && !before.contains(x)) by {
                        if x == k && requested@.take(i + 1).contains(x) && supports(r, x) && !before.contains(x) {
                            assert((before + attach@).contains(k));
                            let j = choose|j: int| 0 <= j < (before + attach@).len() && #[trigger] (before + attach@)[j] == k;
                            if j >= before.len() {
                                assert(attach@[j - before.len()] == k);
                            } else {
                                assert(before[j] == k);
                            }
                        }
                        if requested@.take(i + 1).contains(x) && x != k {
                            let j = choose|j: int| 0 <= j < i + 1 && #[trigger] requested@.take(i + 1)[j] == x;
                            assert(requested@.take(i as int)[j] == x);
                        }
                    }
                }
            }
            i += 1;
        }
        assert(requested@.take(requested@.len() as int) == requested@);
        proof {
            assert forall|a: int, b: int| 0 <= a < b < self@.len() implies self@[a] != self@[b] by {
                if b >= before.len() && a < before.len() {
                    assert(attach@.contains(self@[b]));
                    assert(before.contains(self@[a]));
                }
            }
        }
        attach
    }
}

/// Each event kind gets at most one native listener over a handle's life:
/// across any run of subscription calls that starts with none, the kinds
/// attached, taken together, are the subscribed set and hold no kind twice,
/// so a kind requested again is never attached again.
pub proof fn lemma_single_listener(
    r: ResourceKind,
    requests: Seq<Seq<EventKind>>,
    attaches: Seq<Seq<EventKind>>,
    states: Seq<Seq<EventKind>>,
)
    requires
        states.len() == requests.len() + 1,
        attaches.len() == requests.len(),
        states[0] == Seq::<EventKind>::empty(),
        forall|i: int|
            0 <= i < requests.len() ==> #[trigger] subscribe_post(
                states[i],
                r,
                requests[i],
                attaches[i],
                states[i + 1],
            ),
    ensures
        attached_in_order(attaches) == states.last(),
        states.last().no_duplicates(),
    decreases requests.len(),
{
    let n = requests.len() as int;
    if n > 0 {
        assert forall|i: int| 0 <= i < n - 1 implies #[trigger] subscribe_post(
            states.drop_last()[i],
            r,
            requests.drop_last()[i],
            attaches.drop_last()[i],
            states.drop_last()[i + 1],
        ) by {
            assert(subscribe_post(states[i], r, requests[i], attaches[i], states[i + 1]));
        }
        lemma_single_listener(r, requests.drop_last(), attaches.drop_last(), states.drop_last());
        let before = states[n - 1];
        let attach = attaches[n - 1];
        assert(subscribe_post(before, r, requests[n - 1], attach, states[n]));
        assert forall|a: int, b: int|
            0 <= a < b < states[n].len() implies states[n][a] != states[n][b] by {
            if b >= before.len() && a < before.len() {
                assert(attach.contains(states[n][b]));
                assert(before.contains(states[n][a]));
            }
        }
    }
}

} // verus!

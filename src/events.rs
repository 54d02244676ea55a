use vstd::prelude::*;

verus! {

/// The notification kinds a socket can subscribe to.
#[derive(Clone, Copy, Debug, PartialEq, Eq, Hash)]
pub enum SctpEvent {
    DataIo,
    Association,
    Address,
    SendFailure,
    PeerError,
    Shutdown,
    PartialDelivery,
    AdaptationLayer,
    Authentication,
    SenderDry,
    StreamReset,
    AssociationReset,
    StreamChange,
    SendFailureEvent,
}

/// The kernel's event-subscription record: one flag byte per event kind, in
/// this order; 1 enables the kind, 0 leaves it disabled.
#[derive(Clone, Copy, Debug, PartialEq, Eq, Default)]
pub struct EventSubscribe {
    pub data_io: u8,
    pub association: u8,
    pub address: u8,
    pub send_failure: u8,
    pub peer_error: u8,
    pub shutdown: u8,
    pub partial_delivery: u8,
    pub adaptation_layer: u8,
    pub authentication: u8,
    pub sender_dry: u8,
    pub stream_reset: u8,
    pub association_reset: u8,
    pub stream_change: u8,
    pub send_failure_event: u8,
}

/// Size of the event-subscription record.
pub const EVENT_SUBSCRIBE_LEN: usize = 14;

/// 1 where `k` is in `s`, else 0.
pub open spec fn flag_for(s: Seq<SctpEvent>, k: SctpEvent) -> u8 {
    if s.contains(k) {
        1
    } else {
        0
    }
}

/// The record that enables exactly the kinds in `s`.
pub open spec fn bitfield_of(s: Seq<SctpEvent>) -> EventSubscribe {
    EventSubscribe {
        data_io: flag_for(s, SctpEvent::DataIo),
        association: flag_for(s, SctpEvent::Association),
        address: flag_for(s, SctpEvent::Address),
        send_failure: flag_for(s, SctpEvent::SendFailure),
        peer_error: flag_for(s, SctpEvent::PeerError),
        shutdown: flag_for(s, SctpEvent::Shutdown),
        partial_delivery: flag_for(s, SctpEvent::PartialDelivery),
        adaptation_layer: flag_for(s, SctpEvent::AdaptationLayer),
        authentication: flag_for(s, SctpEvent::Authentication),
        sender_dry: flag_for(s, SctpEvent::SenderDry),
        stream_reset: flag_for(s, SctpEvent::StreamReset),
        association_reset: flag_for(s, SctpEvent::AssociationReset),
        stream_change: flag_for(s, SctpEvent::StreamChange),
        send_failure_event: flag_for(s, SctpEvent::SendFailureEvent),
    }
}

impl EventSubscribe {
    /// The flag byte of kind `k`.
    pub open spec fn flag(self, k: SctpEvent) -> u8 {
        match k {
            SctpEvent::DataIo => self.data_io,
            SctpEvent::Association => self.association,
            SctpEvent::Address => self.address,
            SctpEvent::SendFailure => self.send_failure,
            SctpEvent::PeerError => self.peer_error,
            SctpEvent::Shutdown => self.shutdown,
            SctpEvent::PartialDelivery => self.partial_delivery,
            SctpEvent::AdaptationLayer => self.adaptation_layer,
            SctpEvent::Authentication => self.authentication,
            SctpEvent::SenderDry => self.sender_dry,
            SctpEvent::StreamReset => self.stream_reset,
            SctpEvent::AssociationReset => self.association_reset,
            SctpEvent::StreamChange => self.stream_change,
            SctpEvent::SendFailureEvent => self.send_failure_event,
        }
    }

    /// The record as the kernel reads it: the fourteen flag bytes in field order.
    pub open spec fn bytes_spec(self) -> Seq<u8> {
        seq![
            self.data_io,
            self.association,
            self.address,
            self.send_failure,
            self.peer_error,
            self.shutdown,
            self.partial_delivery,
            self.adaptation_layer,
            self.authentication,
            self.sender_dry,
            self.stream_reset,
            self.association_reset,
            self.stream_change,
            self.send_failure_event,
        ]
    }

    /// Serializes the record for the kernel.
    pub fn to_bytes(&self) -> (r: Vec<u8>)
        ensures
            r@ == self.bytes_spec(),
    {
        let r: Vec<u8> = vec![
            self.data_io,
            self.association,
            self.address,
            self.send_failure,
            self.peer_error,
            self.shutdown,
            self.partial_delivery,
            self.adaptation_layer,
            self.authentication,
            self.sender_dry,
            self.stream_reset,
            self.association_reset,
            self.stream_change,
            self.send_failure_event,
        ];
        assert(r@ =~= self.bytes_spec());
        r
    }
}

/// Maps a set of event kinds to the kernel's subscription record: the field of
/// each kind in `events` is enabled, every other field is disabled.
pub fn to_bitfield(events: &Vec<SctpEvent>) -> (r: EventSubscribe)
    ensures
        r == bitfield_of(events@),
{
    let mut r = EventSubscribe {
        data_io: 0,
        association: 0,
        address: 0,
        send_failure: 0,
        peer_error: 0,
        shutdown: 0,
        partial_delivery: 0,
        adaptation_layer: 0,
        authentication: 0,
        sender_dry: 0,
        stream_reset: 0,
        association_reset: 0,
        stream_change: 0,
        send_failure_event: 0,
    };
    let mut i: usize = 0;
    while i < events.len()
        invariant
            0 <= i <= events@.len(),
            forall|k: SctpEvent| #[trigger] r.flag(k) == flag_for(events@.subrange(0, i as int), k),
        decreases events@.len() - i,
    {
        let ghost before = events@.subrange(0, i as int);
        let ev = events[i];
        let ghost old_r = r;
        match ev {
            SctpEvent::DataIo => r.data_io = 1,
            SctpEvent::Association => r.association = 1,
            SctpEvent::Address => r.address = 1,
            SctpEvent::SendFailure => r.send_failure = 1,
            SctpEvent::PeerError => r.peer_error = 1,
            SctpEvent::Shutdown => r.shutdown = 1,
            SctpEvent::PartialDelivery => r.partial_delivery = 1,
            SctpEvent::AdaptationLayer => r.adaptation_layer = 1,
            SctpEvent::Authentication => r.authentication = 1,
            SctpEvent::SenderDry => r.sender_dry = 1,
            SctpEvent::StreamReset => r.stream_reset = 1,
            SctpEvent::AssociationReset => r.association_reset = 1,
            SctpEvent::StreamChange => r.stream_change = 1,
            SctpEvent::SendFailureEvent => r.send_failure_event = 1,
        }
        i = i + 1;
        proof {
            let after = events@.subrange(0, i as int);
            assert(after =~= before.push(ev));
            assert forall|k: SctpEvent| #[trigger] r.flag(k) == flag_for(after, k) by {
                assert(r.flag(k) == if k == ev {
                    1u8
                } else {
                    old_r.flag(k)
                });
                assert(old_r.flag(k) == flag_for(before, k));
                if k == ev {
                    assert(after[i - 1] == ev);
                } else if before.contains(k) {
                    let j = choose|j: int| 0 <= j < before.len() && before[j] == k;
                    assert(after[j] == k);
                } else if after.contains(k) {
                    let j = choose|j: int| 0 <= j < after.len() && after[j] == k;
                    assert(j < before.len());
                    assert(before[j] == k);
                }
            }
        }
    }
    assert(events@.subrange(0, i as int) =~= events@);
    proof {
        lemma_flags_determine(r, events@);
    }
    r
}

/// A record whose every flag is that of the kinds in `s` is the record of `s`.
proof fn lemma_flags_determine(r: EventSubscribe, s: Seq<SctpEvent>)
    requires
        forall|k: SctpEvent| #[trigger] r.flag(k) == flag_for(s, k),
    ensures
        r == bitfield_of(s),
{
    assert(r.flag(SctpEvent::DataIo) == flag_for(s, SctpEvent::DataIo));
    assert(r.flag(SctpEvent::Association) == flag_for(s, SctpEvent::Association));
    assert(r.flag(SctpEvent::Address) == flag_for(s, SctpEvent::Address));
    assert(r.flag(SctpEvent::SendFailure) == flag_for(s, SctpEvent::SendFailure));
    assert(r.flag(SctpEvent::PeerError) == flag_for(s, SctpEvent::PeerError));
    assert(r.flag(SctpEvent::Shutdown) == flag_for(s, SctpEvent::Shutdown));
    assert(r.flag(SctpEvent::PartialDelivery) == flag_for(s, SctpEvent::PartialDelivery));
    assert(r.flag(SctpEvent::AdaptationLayer) == flag_for(s, SctpEvent::AdaptationLayer));
    assert(r.flag(SctpEvent::Authentication) == flag_for(s, SctpEvent::Authentication));
    assert(r.flag(SctpEvent::SenderDry) == flag_for(s, SctpEvent::SenderDry));
    assert(r.flag(SctpEvent::StreamReset) == flag_for(s, SctpEvent::StreamReset));
    assert(r.flag(SctpEvent::AssociationReset) == flag_for(s, SctpEvent::AssociationReset));
    assert(r.flag(SctpEvent::StreamChange) == flag_for(s, SctpEvent::StreamChange));
    assert(r.flag(SctpEvent::SendFailureEvent) == flag_for(s, SctpEvent::SendFailureEvent));
}

/// Two event sets give the same record exactly when they hold the same kinds:
/// the mapping from sets of kinds to records is injective.
pub proof fn lemma_bitfield_injective(a: Seq<SctpEvent>, b: Seq<SctpEvent>)
    ensures
        (bitfield_of(a) == bitfield_of(b)) <==> (forall|k: SctpEvent|
            a.contains(k) <==> b.contains(k)),
{
    if bitfield_of(a) == bitfield_of(b) {
        assert forall|k: SctpEvent| a.contains(k) <==> b.contains(k) by {
            assert(bitfield_of(a).flag(k) == flag_for(a, k));
            assert(bitfield_of(b).flag(k) == flag_for(b, k));
        }
    }
}

/// The empty event set gives a record with every field disabled.
pub proof fn lemma_bitfield_empty()
    ensures
        forall|k: SctpEvent| #[trigger] bitfield_of(Seq::empty()).flag(k) == 0,
{
}

} // verus!

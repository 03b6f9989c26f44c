//! Interactions: one inbound or outbound message unit, tagged with a datatype.
//!
//! A daemon event carries its payload as a key/value set in which exactly one
//! recognized key names the datatype and its value is the body; every other
//! key is metadata and ignored.  An outbound interaction is encoded the same
//! way, as a single-pair payload.

use vstd::prelude::*;

verus! {

/// The interaction types the endpoint understands.
#[derive(Clone, Copy, Debug, PartialEq, Eq, Structural)]
pub enum Datatype {
    PlainText,
    Command,
    SessionMessage,
    MediaControl,
    AlarmControl,
}

impl View for Datatype {
    type V = Datatype;

    open spec fn view(&self) -> Datatype {
        *self
    }
}

impl DeepView for Datatype {
    type V = Datatype;

    open spec fn deep_view(&self) -> Datatype {
        *self
    }
}

/// The datatype named by an inbound payload key, if the key is recognized.
/// Commands arriving from the service use the bare `command` key.
pub open spec fn spec_datatype_of_key(key: Seq<char>) -> Option<Datatype> {
    if key == "text/plain"@ {
        Option::Some(Datatype::PlainText)
    } else if key == "command"@ {
        Option::Some(Datatype::Command)
    } else if key == "rori/message"@ {
        Option::Some(Datatype::SessionMessage)
    } else if key == "music"@ {
        Option::Some(Datatype::MediaControl)
    } else if key == "alarm"@ {
        Option::Some(Datatype::AlarmControl)
    } else {
        Option::None
    }
}

/// The payload key under which an outbound interaction of each datatype is
/// sent.  Commands leaving this client are marked `rori/command`: the service
/// treats client commands and its own `command` payloads differently.
pub open spec fn spec_wire_key(datatype: Datatype) -> Seq<char> {
    match datatype {
        Datatype::PlainText => "text/plain"@,
        Datatype::Command => "rori/command"@,
        Datatype::SessionMessage => "rori/message"@,
        Datatype::MediaControl => "music"@,
        Datatype::AlarmControl => "alarm"@,
    }
}

/// The single-pair payload carrying an outbound interaction.
pub open spec fn spec_encode_payload(datatype: Datatype, body: Seq<char>) -> Seq<
    (Seq<char>, Seq<char>),
> {
    seq![(spec_wire_key(datatype), body)]
}

/// The datatype and body a payload decodes to: of all recognized keys the
/// last one scanned wins, and a payload without one decodes to nothing.
pub open spec fn spec_decode_payload(pairs: Seq<(Seq<char>, Seq<char>)>) -> Option<
    (Datatype, Seq<char>),
>
    decreases pairs.len(),
{
    if pairs.len() == 0 {
        Option::None
    } else {
        match spec_datatype_of_key(pairs.last().0) {
            Option::Some(datatype) => Option::Some((datatype, pairs.last().1)),
            Option::None => spec_decode_payload(pairs.drop_last()),
        }
    }
}

/// Maps an inbound payload key to its datatype.
fn datatype_of_key(key: &String) -> (r: Option<Datatype>)
    ensures
        r == spec_datatype_of_key(key@),
{
    if *key == "text/plain".to_owned() {
        Option::Some(Datatype::PlainText)
    } else if *key == "command".to_owned() {
        Option::Some(Datatype::Command)
    } else if *key == "rori/message".to_owned() {
        Option::Some(Datatype::SessionMessage)
    } else if *key == "music".to_owned() {
        Option::Some(Datatype::MediaControl)
    } else if *key == "alarm".to_owned() {
        Option::Some(Datatype::AlarmControl)
    } else {
        Option::None
    }
}

/// Scans a payload and returns the datatype and body it decodes to.
pub fn decode_payload(pairs: &Vec<(String, String)>) -> (r: Option<(Datatype, String)>)
    ensures
        r.deep_view() == spec_decode_payload(pairs.deep_view()),
{
    let ghost dv = pairs.deep_view();
    let mut found: Option<(Datatype, String)> = Option::None;
    let mut i: usize = 0;
    while i < pairs.len()
        invariant
            i <= pairs.len(),
            dv == pairs.deep_view(),
            found.deep_view() == spec_decode_payload(dv.take(i as int)),
        decreases pairs.len() - i,
    {
        let pair = &pairs[i];
        match datatype_of_key(&pair.0) {
            Option::Some(datatype) => {
                found = Option::Some((datatype, pair.1.clone()));
            },
            Option::None => {},
        }
        proof {
            assert(dv.take(i + 1).drop_last() =~= dv.take(i as int));
            assert(dv.take(i + 1).last() == dv[i as int]);
        }
        i = i + 1;
    }
    proof {
        assert(dv.take(pairs.len() as int) =~= dv);
    }
    found
}

/// One inbound message unit, immutable once constructed.
pub struct Interaction {
    pub author_ring_id: String,
    pub datatype: Datatype,
    pub body: String,
    pub timestamp: i64,
}

/// The mathematical content of an `Interaction`.
pub struct InteractionView {
    pub author_ring_id: Seq<char>,
    pub datatype: Datatype,
    pub body: Seq<char>,
    pub timestamp: int,
}

impl View for Interaction {
    type V = InteractionView;

    open spec fn view(&self) -> InteractionView {
        InteractionView {
            author_ring_id: self.author_ring_id@,
            datatype: self.datatype,
            body: self.body@,
            timestamp: self.timestamp as int,
        }
    }
}

/// Relies on `time::OffsetDateTime::now_utc` and `unix_timestamp`: the
/// wall-clock time in seconds.  Nothing can be promised of a clock reading.
#[verifier::external_body]
fn now_seconds() -> i64 {
    time::OffsetDateTime::now_utc().unix_timestamp()
}

impl Interaction {
    /// Builds the interaction an inbound event decodes to: the payload names
    /// the datatype and body, the author is the sending peer, and the
    /// timestamp records when the event was decoded.  An event without a
    /// recognized payload key decodes to nothing.
    pub fn from_payload(author_ring_id: String, pairs: &Vec<(String, String)>) -> (r: Option<
        Interaction,
    >)
        ensures
            r is Some <==> spec_decode_payload(pairs.deep_view()) is Some,
            r matches Some(i) ==> {
                &&& i@.author_ring_id == author_ring_id@
                &&& Option::Some((i@.datatype, i@.body)) == spec_decode_payload(pairs.deep_view())
            },
    {
        match decode_payload(pairs) {
            Option::Some((datatype, body)) => Option::Some(
                Interaction { author_ring_id, datatype, body, timestamp: now_seconds() },
            ),
            Option::None => Option::None,
        }
    }
}

/// One outbound message unit, bound for the coordination service.
pub struct OutboundMessage {
    pub datatype: Datatype,
    pub body: String,
}

/// The mathematical content of an `OutboundMessage`.
pub struct OutboundMessageView {
    pub datatype: Datatype,
    pub body: Seq<char>,
}

impl View for OutboundMessage {
    type V = OutboundMessageView;

    open spec fn view(&self) -> OutboundMessageView {
        OutboundMessageView { datatype: self.datatype, body: self.body@ }
    }
}

impl DeepView for OutboundMessage {
    type V = OutboundMessageView;

    open spec fn deep_view(&self) -> OutboundMessageView {
        self.view()
    }
}

impl OutboundMessage {
    /// The key/value payload under which this interaction is posted.
    pub fn payload(&self) -> (r: Vec<(String, String)>)
        ensures
            r.deep_view() == spec_encode_payload(self@.datatype, self@.body),
    {
        let mut r: Vec<(String, String)> = Vec::new();
        r.push((wire_key(self.datatype), self.body.clone()));
        proof {
            assert(r.deep_view() =~= spec_encode_payload(self@.datatype, self@.body));
        }
        r
    }
}

/// Maps an outbound datatype to its payload key.
fn wire_key(datatype: Datatype) -> (r: String)
    ensures
        r@ == spec_wire_key(datatype),
{
    match datatype {
        Datatype::PlainText => "text/plain".to_owned(),
        Datatype::Command => "rori/command".to_owned(),
        Datatype::SessionMessage => "rori/message".to_owned(),
        Datatype::MediaControl => "music".to_owned(),
        Datatype::AlarmControl => "alarm".to_owned(),
    }
}

/// Encoding an outbound interaction and decoding the result by the inbound
/// payload rules yields the interaction back.  The one exception is
/// `Command`: a command leaves this client under the `rori/command` key,
/// which inbound decoding does not recognize — commands are only honoured in
/// the service-to-client direction under the bare `command` key.
pub proof fn lemma_payload_round_trip(datatype: Datatype, body: Seq<char>)
    requires
        datatype != Datatype::Command,
    ensures
        spec_decode_payload(spec_encode_payload(datatype, body)) == Option::Some((datatype, body)),
{
    reveal_strlit("text/plain");
    reveal_strlit("command");
    reveal_strlit("rori/message");
    reveal_strlit("music");
    reveal_strlit("alarm");
    reveal_strlit("rori/command");
    let pairs = spec_encode_payload(datatype, body);
    assert(pairs.last() == (spec_wire_key(datatype), body));
    assert(("text/plain"@).len() == 10);
    assert(("command"@).len() == 7);
    assert(("rori/message"@).len() == 12);
    assert(("music"@).len() == 5);
    assert(("alarm"@).len() == 5);
    assert(("music"@)[0] == 'm' && ("alarm"@)[0] == 'a');
    assert(spec_datatype_of_key(spec_wire_key(datatype)) == Option::Some(datatype));
}

} // verus!

//! The endpoint: owner of the bound identity, driver of the register/link
//! handshake, and router of every inbound and outbound interaction.

use crate::account::{Account, AccountView};
use crate::interaction::{Datatype, Interaction, OutboundMessage, OutboundMessageView};
use crate::interaction::InteractionView;
use crate::json::{bool_field, json_bool_field};
use crate::session::{HandshakeKind, SessionState};
use vstd::prelude::*;

verus! {

/// The one instance binding a local identity to the coordination service.
/// It holds the identity record, the service's base address and network
/// identity, the queue of pending utterances, and the session state.
pub struct Endpoint {
    pub account: Account,
    pub rori_server: String,
    pub rori_ring_id: String,
    pub to_say: Vec<String>,
    pub session: SessionState,
}

/// The mathematical content of an `Endpoint`.
#[verifier::ext_equal]
pub struct EndpointView {
    pub account: AccountView,
    pub rori_server: Seq<char>,
    pub rori_ring_id: Seq<char>,
    pub to_say: Seq<Seq<char>>,
    pub session: SessionState,
}

impl View for Endpoint {
    type V = EndpointView;

    open spec fn view(&self) -> EndpointView {
        EndpointView {
            account: self.account@,
            rori_server: self.rori_server@,
            rori_ring_id: self.rori_ring_id@,
            to_say: self.to_say.deep_view(),
            session: self.session,
        }
    }
}

/// Whether `body` is a structured session reply declaring the identity
/// registered: a JSON document whose `registered` field is boolean true.
pub open spec fn spec_session_registered(body: Seq<char>) -> bool {
    json_bool_field(body, "registered"@) == Option::Some(true)
}

/// The one-time capability announcement: a command telling the service which
/// inbound datatypes this client accepts.
pub open spec fn spec_set_types_message() -> OutboundMessageView {
    OutboundMessageView { datatype: Datatype::Command, body: "/set_types music command alarm"@ }
}

/// Builds the capability announcement.
fn set_types_message() -> (r: OutboundMessage)
    ensures
        r@ == spec_set_types_message(),
{
    OutboundMessage { datatype: Datatype::Command, body: "/set_types music command alarm".to_owned() }
}

/// The endpoint after an utterance is appended to the say queue.
pub open spec fn spec_say_append(e: EndpointView, body: Seq<char>) -> EndpointView {
    EndpointView { to_say: e.to_say.push(body), ..e }
}

/// The drained batch and the endpoint after an atomic snapshot-and-clear of
/// the say queue.
pub open spec fn spec_say_drain(e: EndpointView) -> (Seq<Seq<char>>, EndpointView) {
    (e.to_say, EndpointView { to_say: Seq::<Seq<char>>::empty(), ..e })
}

/// What the endpoint asks of its surroundings after routing one inbound
/// interaction.
pub enum InboundAction {
    /// The event was filtered out or carried nothing to act on.
    Dropped,
    /// The body joined the say queue.
    Said,
    /// Invoke the media-control sink with the given argument.
    MediaInvocation(String),
    /// Invoke the alarm sink with the given argument.
    AlarmInvocation(String),
    /// Run a shell with the given command line.
    ShellInvocation(String),
    /// The session is now confirmed: raise the logged flag, clear the display
    /// text, and send the enclosed announcement.
    SessionConfirmed(OutboundMessage),
    /// Surface the body as display text.
    DisplayText(String),
}

/// The mathematical content of an `InboundAction`.
pub enum InboundActionView {
    Dropped,
    Said,
    MediaInvocation(Seq<char>),
    AlarmInvocation(Seq<char>),
    ShellInvocation(Seq<char>),
    SessionConfirmed(OutboundMessageView),
    DisplayText(Seq<char>),
}

impl View for InboundAction {
    type V = InboundActionView;

    open spec fn view(&self) -> InboundActionView {
        match self {
            InboundAction::Dropped => InboundActionView::Dropped,
            InboundAction::Said => InboundActionView::Said,
            InboundAction::MediaInvocation(arg) => InboundActionView::MediaInvocation(arg@),
            InboundAction::AlarmInvocation(arg) => InboundActionView::AlarmInvocation(arg@),
            InboundAction::ShellInvocation(arg) => InboundActionView::ShellInvocation(arg@),
            InboundAction::SessionConfirmed(msg) => InboundActionView::SessionConfirmed(msg@),
            InboundAction::DisplayText(text) => InboundActionView::DisplayText(text@),
        }
    }
}

/// The endpoint and action one inbound event steps to.  An event is honoured
/// only when its source is the bound identity, its author the coordination
/// service, and its body non-empty; each datatype then dispatches to its
/// handler, and a session reply confirms the session exactly once.
pub open spec fn spec_inbound_step(
    e: EndpointView,
    source: Seq<char>,
    i: InteractionView,
) -> (EndpointView, InboundActionView) {
    if source != e.account.id || i.author_ring_id != e.rori_ring_id || i.body.len() == 0 {
        (e, InboundActionView::Dropped)
    } else {
        match i.datatype {
            Datatype::PlainText => (spec_say_append(e, i.body), InboundActionView::Said),
            Datatype::MediaControl => (e, InboundActionView::MediaInvocation(i.body)),
            Datatype::AlarmControl => (e, InboundActionView::AlarmInvocation(i.body)),
            Datatype::Command => (e, InboundActionView::ShellInvocation(i.body)),
            Datatype::SessionMessage => {
                if spec_session_registered(i.body) {
                    if e.session is Confirmed {
                        (e, InboundActionView::Dropped)
                    } else {
                        (
                            EndpointView { session: SessionState::Confirmed, ..e },
                            InboundActionView::SessionConfirmed(spec_set_types_message()),
                        )
                    }
                } else if json_bool_field(i.body, "registered"@) is Some {
                    (e, InboundActionView::Dropped)
                } else {
                    (e, InboundActionView::DisplayText(i.body))
                }
            },
        }
    }
}

/// What the endpoint asks of its surroundings after the login algorithm ran
/// against the two lookup results.
pub enum LoginOutcome {
    /// The alias is already recognized under the bound address: raise the
    /// logged flag, clear the display text, and send the announcement.
    AlreadyConfirmed(OutboundMessage),
    /// The bound address is claimed by a different alias: fatal
    /// misconfiguration, the process must stop and send nothing.
    Misconfigured,
    /// The alias is registered remotely: send the enclosed link command.
    LinkRequested(OutboundMessage),
    /// The alias is unknown remotely: send the enclosed register command.
    RegisterRequested(OutboundMessage),
}

/// The mathematical content of a `LoginOutcome`.
pub enum LoginOutcomeView {
    AlreadyConfirmed(OutboundMessageView),
    Misconfigured,
    LinkRequested(OutboundMessageView),
    RegisterRequested(OutboundMessageView),
}

impl View for LoginOutcome {
    type V = LoginOutcomeView;

    open spec fn view(&self) -> LoginOutcomeView {
        match self {
            LoginOutcome::AlreadyConfirmed(msg) => LoginOutcomeView::AlreadyConfirmed(msg@),
            LoginOutcome::Misconfigured => LoginOutcomeView::Misconfigured,
            LoginOutcome::LinkRequested(msg) => LoginOutcomeView::LinkRequested(msg@),
            LoginOutcome::RegisterRequested(msg) => LoginOutcomeView::RegisterRequested(msg@),
        }
    }
}

/// The endpoint and outcome the login algorithm steps to, given the alias the
/// reverse lookup resolved the bound address to and the address the forward
/// lookup resolved the bound alias to.  An empty lookup result means
/// "unclaimed" respectively "not registered".
pub open spec fn spec_login_step(
    e: EndpointView,
    reverse_name: Seq<char>,
    forward_addr: Seq<char>,
) -> (EndpointView, LoginOutcomeView) {
    if reverse_name == e.account.alias {
        (
            EndpointView { session: SessionState::Confirmed, ..e },
            LoginOutcomeView::AlreadyConfirmed(spec_set_types_message()),
        )
    } else if reverse_name.len() > 0 {
        (e, LoginOutcomeView::Misconfigured)
    } else if forward_addr.len() > 0 {
        (
            EndpointView {
                session: SessionState::AwaitingConfirmation(HandshakeKind::Link),
                ..spec_say_append(e, "Linking with another device..."@)
            },
            LoginOutcomeView::LinkRequested(
                OutboundMessageView { datatype: Datatype::Command, body: "/link "@ + e.account.alias },
            ),
        )
    } else {
        (
            EndpointView {
                session: SessionState::AwaitingConfirmation(HandshakeKind::Register),
                ..spec_say_append(e, "Waiting registering confirmation..."@)
            },
            LoginOutcomeView::RegisterRequested(
                OutboundMessageView {
                    datatype: Datatype::Command,
                    body: "/register "@ + e.account.alias,
                },
            ),
        )
    }
}

/// Whether `c` delimits tokens in user text: the blank characters a keyboard
/// produces.
pub open spec fn spec_is_space(c: char) -> bool {
    c == ' ' || c == '\t' || c == '\n' || c == '\r'
}

/// The length of the leading run of non-whitespace characters: where the
/// first whitespace-delimited token of `s` ends.
pub open spec fn spec_token_len(s: Seq<char>) -> nat
    decreases s.len(),
{
    if s.len() == 0 {
        0
    } else if spec_is_space(s[0]) {
        0
    } else {
        1 + spec_token_len(s.skip(1))
    }
}

/// The first whitespace-delimited token of `s`.
pub open spec fn spec_first_token(s: Seq<char>) -> Seq<char> {
    s.take(spec_token_len(s) as int)
}

/// Whether `text` is a command a human is allowed to issue: its first token
/// is in the fixed allow-list.  Datatype management and other service-side
/// commands are deliberately not on it.
pub open spec fn spec_is_command(text: Seq<char>) -> bool {
    let token = spec_first_token(text);
    ||| token == "/register"@
    ||| token == "/unregister"@
    ||| token == "/add_device"@
    ||| token == "/rm_device"@
    ||| token == "/link"@
}

/// The outbound interaction pending user text classifies to: commands on the
/// allow-list are sent as commands, anything else as plain text, and empty
/// text is never sent.
pub open spec fn spec_outbound_of_text(text: Seq<char>) -> Option<OutboundMessageView> {
    if text.len() == 0 {
        Option::None
    } else {
        Option::Some(
            OutboundMessageView {
                datatype: if spec_is_command(text) {
                    Datatype::Command
                } else {
                    Datatype::PlainText
                },
                body: text,
            },
        )
    }
}

proof fn lemma_token_len_at(s: Seq<char>, i: int)
    requires
        0 <= i <= s.len(),
        forall|j: int| 0 <= j < i ==> !spec_is_space(s[j]),
        i == s.len() || spec_is_space(s[i]),
    ensures
        spec_token_len(s) == i,
    decreases i,
{
    if i == 0 {
    } else {
        assert(!spec_is_space(s[0]));
        lemma_token_len_at(s.skip(1), i - 1);
    }
}

/// Whether `c` delimits tokens in user text.
fn is_space_char(c: char) -> (r: bool)
    ensures
        r == spec_is_space(c),
{
    c == ' ' || c == '\t' || c == '\n' || c == '\r'
}

impl Endpoint {
    /// Binds the loaded identity record to the coordination service named by
    /// the configuration.  An account without a network address cannot be
    /// bound and is rejected; otherwise the endpoint starts with an empty say
    /// queue and an unconfirmed session.
    pub fn init(account: Account, rori_server: String, rori_ring_id: String) -> (r: Result<
        Endpoint,
        &'static str,
    >)
        ensures
            r is Err <==> account@.ring_id.len() == 0,
            r matches Err(m) ==> m@ == "Cannot build RORI account, please check configuration"@,
            r matches Ok(e) ==> e@ == (EndpointView {
                account: account@,
                rori_server: rori_server@,
                rori_ring_id: rori_ring_id@,
                to_say: Seq::<Seq<char>>::empty(),
                session: SessionState::Unconfirmed,
            }),
    {
        if account.ring_id.as_str().is_empty() {
            Result::Err("Cannot build RORI account, please check configuration")
        } else {
            let endpoint = Endpoint {
                account,
                rori_server,
                rori_ring_id,
                to_say: Vec::new(),
                session: SessionState::Unconfirmed,
            };
            proof {
                assert(endpoint.to_say.deep_view() =~= Seq::<Seq<char>>::empty());
            }
            Result::Ok(endpoint)
        }
    }

    /// Runs the login algorithm against the two lookup results, on entry,
    /// while the session is still unconfirmed.  The returned outcome names
    /// the handshake command to send, or reports the fatal misconfiguration
    /// on which nothing may be sent.
    pub fn login(&mut self, reverse_name: &String, forward_addr: &String) -> (r: LoginOutcome)
        requires
            old(self)@.session is Unconfirmed,
        ensures
            final(self)@ == spec_login_step(old(self)@, reverse_name@, forward_addr@).0,
            r@ == spec_login_step(old(self)@, reverse_name@, forward_addr@).1,
    {
        if *reverse_name == self.account.alias {
            self.session = SessionState::Confirmed;
            LoginOutcome::AlreadyConfirmed(set_types_message())
        } else if !reverse_name.as_str().is_empty() {
            LoginOutcome::Misconfigured
        } else if !forward_addr.as_str().is_empty() {
            self.session = SessionState::AwaitingConfirmation(HandshakeKind::Link);
            self.to_say.push("Linking with another device...".to_owned());
            proof {
                assert(self.to_say.deep_view() =~= old(self).to_say.deep_view().push(
                    "Linking with another device..."@,
                ));
            }
            LoginOutcome::LinkRequested(
                OutboundMessage {
                    datatype: Datatype::Command,
                    body: "/link ".to_owned().concat(self.account.alias.as_str()),
                },
            )
        } else {
            self.session = SessionState::AwaitingConfirmation(HandshakeKind::Register);
            self.to_say.push("Waiting registering confirmation...".to_owned());
            proof {
                assert(self.to_say.deep_view() =~= old(self).to_say.deep_view().push(
                    "Waiting registering confirmation..."@,
                ));
            }
            LoginOutcome::RegisterRequested(
                OutboundMessage {
                    datatype: Datatype::Command,
                    body: "/register ".to_owned().concat(self.account.alias.as_str()),
                },
            )
        }
    }

    /// Routes one inbound interaction: filters it against the bound identity
    /// and the service peer, then dispatches on its datatype.
    pub fn handle_interaction(&mut self, source: &String, interaction: &Interaction) -> (r:
        InboundAction)
        ensures
            final(self)@ == spec_inbound_step(old(self)@, source@, interaction@).0,
            r@ == spec_inbound_step(old(self)@, source@, interaction@).1,
    {
        if !(*source == self.account.id && interaction.author_ring_id == self.rori_ring_id
            && !interaction.body.as_str().is_empty()) {
            return InboundAction::Dropped;
        }
        match interaction.datatype {
            Datatype::PlainText => {
                self.to_say.push(interaction.body.clone());
                proof {
                    assert(self.to_say.deep_view() =~= old(self).to_say.deep_view().push(
                        interaction.body@,
                    ));
                }
                InboundAction::Said
            },
            Datatype::MediaControl => InboundAction::MediaInvocation(interaction.body.clone()),
            Datatype::AlarmControl => InboundAction::AlarmInvocation(interaction.body.clone()),
            Datatype::Command => InboundAction::ShellInvocation(interaction.body.clone()),
            Datatype::SessionMessage => {
                match bool_field(interaction.body.as_str(), "registered") {
                    Option::Some(true) => {
                        match self.session {
                            SessionState::Confirmed => InboundAction::Dropped,
                            _ => {
                                self.session = SessionState::Confirmed;
                                InboundAction::SessionConfirmed(set_types_message())
                            },
                        }
                    },
                    Option::Some(false) => InboundAction::Dropped,
                    Option::None => InboundAction::DisplayText(interaction.body.clone()),
                }
            },
        }
    }

    /// Whether `text` is a command a human is allowed to issue.
    pub fn is_a_command(&self, text: &String) -> (r: bool)
        ensures
            r == spec_is_command(text@),
    {
        let s = text.as_str();
        let n = s.unicode_len();
        let mut i: usize = 0;
        while i < n && !is_space_char(s.get_char(i))
            invariant
                i <= n,
                n == s@.len(),
                forall|j: int| 0 <= j < i ==> !spec_is_space(s@[j]),
            decreases n - i,
        {
            i = i + 1;
        }
        proof {
            lemma_token_len_at(s@, i as int);
            assert(s@.take(i as int) =~= s@.subrange(0, i as int));
        }
        let token = s.substring_char(0, i).to_owned();
        token == "/register".to_owned() || token == "/unregister".to_owned() || token
            == "/add_device".to_owned() || token == "/rm_device".to_owned() || token
            == "/link".to_owned()
    }

    /// Classifies pending user text into the outbound interaction to send,
    /// or nothing when the text is empty.
    pub fn classify_user_text(&self, text: &String) -> (r: Option<OutboundMessage>)
        ensures
            r.deep_view() == spec_outbound_of_text(text@),
    {
        if text.as_str().is_empty() {
            Option::None
        } else if self.is_a_command(text) {
            Option::Some(OutboundMessage { datatype: Datatype::Command, body: text.clone() })
        } else {
            Option::Some(OutboundMessage { datatype: Datatype::PlainText, body: text.clone() })
        }
    }

    /// Appends one utterance to the say queue; producers never block and
    /// never lose an utterance.
    pub fn add_to_say_queue(&mut self, body: &String)
        ensures
            final(self)@ == spec_say_append(old(self)@, body@),
    {
        self.to_say.push(body.clone());
        proof {
            assert(self.to_say.deep_view() =~= old(self).to_say.deep_view().push(body@));
        }
    }

    /// Snapshots and clears the say queue in one step, returning the batch in
    /// insertion order for the speech sink.
    pub fn process_say(&mut self) -> (r: Vec<String>)
        ensures
            r.deep_view() == spec_say_drain(old(self)@).0,
            final(self)@ == spec_say_drain(old(self)@).1,
    {
        let mut drained: Vec<String> = Vec::new();
        std::mem::swap(&mut drained, &mut self.to_say);
        proof {
            assert(self.to_say.deep_view() =~= Seq::<Seq<char>>::empty());
        }
        drained
    }
}

/// Only events whose source is the bound identity, whose author is the
/// coordination service, and whose body is non-empty ever reach the router:
/// every other event leaves the endpoint unchanged and is dropped.
pub proof fn lemma_inbound_filter(e: EndpointView, source: Seq<char>, i: InteractionView)
    requires
        source != e.account.id || i.author_ring_id != e.rori_ring_id || i.body.len() == 0,
    ensures
        spec_inbound_step(e, source, i) == (e, InboundActionView::Dropped),
{
}

/// Confirming the session twice is idempotent: the first confirmation leaves
/// the session confirmed, and the second changes nothing and sends nothing —
/// in particular no register or link command is re-sent.
pub proof fn lemma_confirm_idempotent(e: EndpointView, source: Seq<char>, i: InteractionView)
    requires
        source == e.account.id,
        i.author_ring_id == e.rori_ring_id,
        i.body.len() > 0,
        i.datatype is SessionMessage,
        spec_session_registered(i.body),
    ensures
        spec_inbound_step(e, source, i).0.session is Confirmed,
        spec_inbound_step(spec_inbound_step(e, source, i).0, source, i) == (
            spec_inbound_step(e, source, i).0,
            InboundActionView::Dropped,
        ),
{
}

/// A confirmed session is terminal for the process lifetime: no inbound event
/// ever downgrades it.
pub proof fn lemma_confirmed_is_terminal(e: EndpointView, source: Seq<char>, i: InteractionView)
    requires
        e.session is Confirmed,
    ensures
        spec_inbound_step(e, source, i).0.session is Confirmed,
{
}

/// Utterances drain in insertion order: appending two bodies and draining
/// yields the earlier queue followed by both, in order, and leaves the queue
/// empty.
pub proof fn lemma_say_queue_order(e: EndpointView, a: Seq<char>, b: Seq<char>)
    ensures
        spec_say_drain(spec_say_append(spec_say_append(e, a), b)).0 =~= e.to_say + seq![a, b],
        spec_say_drain(spec_say_append(spec_say_append(e, a), b)).1.to_say
            == Seq::<Seq<char>>::empty(),
{
}

} // verus!

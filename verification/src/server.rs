//! The server's decisions: what an inbound message and an inbound frame
//! come to, and which connections are open.

use vstd::prelude::*;
use crate::codec::{decode_request, request_from_text, response_json};
use crate::command::{CommandView, IdeCommand};
use crate::handlers::{
    command_handled, command_response, error_response, handle_method, method_step, MethodStep,
    MethodStepView,
};
use crate::json_text::compact_text;
use crate::protocol::{
    IdView, JsonRpcError, JsonRpcId, JsonRpcResponse, INVALID_REQUEST, JSONRPC_VERSION,
    PARSE_ERROR,
};
use crate::seq_laws::lemma_filter_push;
use crate::state::{may_derive, IdeState, IdeStateView};
use crate::text::{decimal, decimal_text, join, lemma_decimal_injective, str_eq};

verus! {

/// What an inbound message comes to before anything is sent to the host
/// loop.
#[derive(Debug)]
pub enum MessageStep {
    /// Nothing is sent back.
    NoReply,
    /// This text is sent back.
    Reply(String),
    /// The command is to be handed to the host loop; the reply to the
    /// request with this id follows from whether that succeeded.
    Send { id: JsonRpcId, command: IdeCommand },
    /// The command is to be handed to the host loop and nothing is sent
    /// back: the message carried no id.
    Perform { command: IdeCommand },
}

/// The model of a [`MessageStep`].
pub ghost enum MessageStepView {
    NoReply,
    Reply(Seq<char>),
    Send { id: IdView, command: CommandView },
    Perform { command: CommandView },
}

impl View for MessageStep {
    type V = MessageStepView;

    open spec fn view(&self) -> MessageStepView {
        match self {
            MessageStep::NoReply => MessageStepView::NoReply,
            MessageStep::Reply(text) => MessageStepView::Reply(text@),
            MessageStep::Send { id, command } => MessageStepView::Send {
                id: id@,
                command: command@,
            },
            MessageStep::Perform { command } => MessageStepView::Perform { command: command@ },
        }
    }
}

/// The reply to a message that is no request: the parse error, without an
/// id.
pub open spec fn parse_error_reply() -> Seq<char> {
    compact_text(response_json(error_response(None, PARSE_ERROR as int, "Parse error"@)))
}

/// The reply to a request whose protocol tag is not `2.0`: the error
/// `invalid request`, with the request's id.
pub open spec fn invalid_version_reply(id: Option<IdView>) -> Seq<char> {
    compact_text(
        response_json(
            error_response(
                id,
                INVALID_REQUEST as int,
                "Invalid request: "@ + "Expected jsonrpc version 2.0"@,
            ),
        ),
    )
}

/// What an inbound message comes to: the parse error where the text is no
/// request, `invalid request` where its protocol tag is not `2.0`, else
/// what its method comes to, with a response written as its JSON text. A
/// message with the tag `2.0` and without an id gets no reply.
pub open spec fn message_step(
    text: Seq<char>,
    s: IdeStateView,
    derived: Option<Seq<char>>,
) -> MessageStepView {
    match request_from_text(text) {
        Some(req) => if req.jsonrpc != JSONRPC_VERSION@ {
            MessageStepView::Reply(invalid_version_reply(req.id))
        } else {
            match method_step(req.method, req.params, req.id, s, derived) {
                MethodStepView::NoResponse => MessageStepView::NoReply,
                MethodStepView::Respond(r) => MessageStepView::Reply(compact_text(response_json(r))),
                MethodStepView::Send { id, command } => MessageStepView::Send { id, command },
                MethodStepView::Perform { command } => MessageStepView::Perform { command },
            }
        },
        None => MessageStepView::Reply(parse_error_reply()),
    }
}

/// Handles one inbound message against the session snapshot.
pub fn handle_message(text: &str, state: &IdeState) -> (r: MessageStep)
    ensures
        exists|derived: Option<Seq<char>>|
            may_derive(state@, derived) && r@ == message_step(text@, state@, derived),
{
    let ghost none = None::<Seq<char>>;
    let request = match decode_request(text) {
        Ok(req) => req,
        Err(e) => {
            let r = MessageStep::Reply(JsonRpcResponse::error(None, e).encode());
            assert(may_derive(state@, none) && r@ == message_step(text@, state@, none));
            return r;
        },
    };
    let ghost req = request@;
    if !str_eq(request.jsonrpc.as_str(), JSONRPC_VERSION) {
        let r = MessageStep::Reply(
            JsonRpcResponse::error(
                request.id,
                JsonRpcError::invalid_request("Expected jsonrpc version 2.0"),
            ).encode(),
        );
        assert(may_derive(state@, none) && r@ == message_step(text@, state@, none));
        return r;
    }
    let step = handle_method(request.method.as_str(), request.params, request.id, state);
    let ghost derived = choose|derived: Option<Seq<char>>|
        may_derive(state@, derived) && step@ == method_step(
            req.method,
            req.params,
            req.id,
            state@,
            derived,
        );
    let r = match step {
        MethodStep::NoResponse => MessageStep::NoReply,
        MethodStep::Respond(response) => MessageStep::Reply(response.encode()),
        MethodStep::Send { id, command } => MessageStep::Send { id, command },
        MethodStep::Perform { command } => MessageStep::Perform { command },
    };
    assert(may_derive(state@, derived) && r@ == message_step(text@, state@, derived));
    r
}

/// A message that reads as a request with the tag `2.0` and without an id
/// gets no reply, whatever its method and its parameters: it comes to
/// nothing, or to a command for the host loop.
pub proof fn message_without_id_gets_no_reply(
    text: Seq<char>,
    s: IdeStateView,
    derived: Option<Seq<char>>,
)
    requires
        request_from_text(text) is Some,
        request_from_text(text)->0.jsonrpc == JSONRPC_VERSION@,
        request_from_text(text)->0.id is None,
    ensures
        message_step(text, s, derived) is NoReply || message_step(text, s, derived) is Perform,
{
}

/// The reply to the request with this id whose `openFile` command the
/// host loop was to be handed; `failure` is `None` where the command was
/// handed over, else the reason why it was not.
pub fn command_reply(id: JsonRpcId, failure: Option<&str>) -> (r: String)
    ensures
        r@ == compact_text(
            response_json(
                command_response(
                    Some(id@),
                    match failure {
                        Some(reason) => Some(reason@),
                        None => None,
                    },
                ),
            ),
        ),
{
    command_handled(id, failure).encode()
}

/// What arrives on a connection.
#[derive(Debug)]
pub enum Incoming {
    /// A text frame.
    Text(String),
    /// A keepalive ping with its payload.
    Ping(Vec<u8>),
    /// The client closes the connection.
    Close,
    /// Any other frame.
    Other,
    /// The connection could not be read.
    Failed,
}

/// What the server does about what arrived.
#[derive(Debug)]
pub enum FrameAction {
    /// Nothing.
    Ignore,
    /// Send this text on the connection.
    Reply(String),
    /// Send a pong with this payload on the connection.
    Pong(Vec<u8>),
    /// Hand the command to the host loop, then reply to the request with
    /// this id.
    Send { id: JsonRpcId, command: IdeCommand },
    /// Hand the command to the host loop and send nothing.
    Perform { command: IdeCommand },
    /// Leave the registry and end the connection.
    Hangup,
}

/// The model of a [`FrameAction`].
pub ghost enum FrameActionView {
    Ignore,
    Reply(Seq<char>),
    Pong(Seq<u8>),
    Send { id: IdView, command: CommandView },
    Perform { command: CommandView },
    Hangup,
}

impl View for FrameAction {
    type V = FrameActionView;

    open spec fn view(&self) -> FrameActionView {
        match self {
            FrameAction::Ignore => FrameActionView::Ignore,
            FrameAction::Reply(text) => FrameActionView::Reply(text@),
            FrameAction::Pong(data) => FrameActionView::Pong(data@),
            FrameAction::Send { id, command } => FrameActionView::Send {
                id: id@,
                command: command@,
            },
            FrameAction::Perform { command } => FrameActionView::Perform { command: command@ },
            FrameAction::Hangup => FrameActionView::Hangup,
        }
    }
}

/// The action that a message step asks for.
pub open spec fn action_of_step(step: MessageStepView) -> FrameActionView {
    match step {
        MessageStepView::NoReply => FrameActionView::Ignore,
        MessageStepView::Reply(text) => FrameActionView::Reply(text),
        MessageStepView::Send { id, command } => FrameActionView::Send { id, command },
        MessageStepView::Perform { command } => FrameActionView::Perform { command },
    }
}

/// Whether `action` is what the server does about `frame`: a text frame is
/// handled as a message; a ping is answered with a pong of the same
/// payload; a close and a failed read end the connection; any other frame
/// is ignored.
pub open spec fn is_frame_action(frame: Incoming, s: IdeStateView, action: FrameActionView) -> bool {
    match frame {
        Incoming::Text(text) => exists|derived: Option<Seq<char>>|
            may_derive(s, derived) && action == action_of_step(message_step(text@, s, derived)),
        Incoming::Ping(data) => action == FrameActionView::Pong(data@),
        Incoming::Close => action == FrameActionView::Hangup,
        Incoming::Other => action == FrameActionView::Ignore,
        Incoming::Failed => action == FrameActionView::Hangup,
    }
}

/// Decides what to do about what arrived on a connection.
pub fn on_frame(frame: Incoming, state: &IdeState) -> (r: FrameAction)
    ensures
        is_frame_action(frame, state@, r@),
{
    match frame {
        Incoming::Text(text) => {
            let step = handle_message(text.as_str(), state);
            let ghost derived = choose|derived: Option<Seq<char>>|
                may_derive(state@, derived) && step@ == message_step(text@, state@, derived);
            let r = match step {
                MessageStep::NoReply => FrameAction::Ignore,
                MessageStep::Reply(reply) => FrameAction::Reply(reply),
                MessageStep::Send { id, command } => FrameAction::Send { id, command },
                MessageStep::Perform { command } => FrameAction::Perform { command },
            };
            assert(may_derive(state@, derived) && r@ == action_of_step(
                message_step(text@, state@, derived),
            ));
            r
        },
        Incoming::Ping(data) => FrameAction::Pong(data),
        Incoming::Close => FrameAction::Hangup,
        Incoming::Other => FrameAction::Ignore,
        Incoming::Failed => FrameAction::Hangup,
    }
}

/// One open connection: its id and the channel on which messages for it
/// are queued.
pub struct Client<T> {
    id: String,
    tx: T,
}

/// The open connections, in the order in which they were accepted, and the
/// number that the next connection gets.
pub struct ServerState<T> {
    clients: Vec<Client<T>>,
    next_id: u64,
}

/// The model of a [`ServerState`]: each connection's id with its channel.
pub ghost struct RegistryView<T> {
    pub entries: Seq<(Seq<char>, T)>,
    pub next_id: u64,
}

/// The id of the connection with number `n`.
pub open spec fn client_name(n: u64) -> Seq<char> {
    "client-"@ + decimal_text(n as nat)
}

/// The channel of the connection with this id: that of the last entry that
/// carries it.
pub open spec fn channel_of<T>(entries: Seq<(Seq<char>, T)>, id: Seq<char>) -> Option<T>
    decreases entries.len(),
{
    if entries.len() == 0 {
        None
    } else if entries.last().0 == id {
        Some(entries.last().1)
    } else {
        channel_of(entries.drop_last(), id)
    }
}

/// Whether an entry belongs to another connection than the one with this
/// id.
pub open spec fn other_than<T>(id: Seq<char>) -> spec_fn((Seq<char>, T)) -> bool {
    |e: (Seq<char>, T)| e.0 != id
}

/// The entries without those of the connection with this id.
pub open spec fn without<T>(entries: Seq<(Seq<char>, T)>, id: Seq<char>) -> Seq<(Seq<char>, T)> {
    entries.filter(other_than(id))
}

/// Whether `id` is the id of a connection number from 1 up to, and not
/// including, `bound`.
pub open spec fn is_issued(id: Seq<char>, bound: u64) -> bool {
    exists|k: u64| 1 <= k < bound && id == #[trigger] client_name(k)
}

impl<T> RegistryView<T> {
    /// Every id in the registry is that of a connection number below the
    /// next one.
    pub open spec fn wf(self) -> bool {
        &&& self.next_id >= 1
        &&& forall|i: int|
            0 <= i < self.entries.len() ==> is_issued((#[trigger] self.entries[i]).0, self.next_id)
    }
}

impl<T> View for ServerState<T> {
    type V = RegistryView<T>;

    closed spec fn view(&self) -> RegistryView<T> {
        RegistryView {
            entries: Seq::new(
                self.clients@.len(),
                |i: int| (self.clients@[i].id@, self.clients@[i].tx),
            ),
            next_id: self.next_id,
        }
    }
}

/// The ids of two connection numbers are the same only where the numbers
/// are.
pub proof fn lemma_client_names_differ(a: u64, b: u64)
    requires
        a != b,
    ensures
        client_name(a) != client_name(b),
{
    if client_name(a) == client_name(b) {
        let prefix = "client-"@;
        assert((prefix + decimal_text(a as nat)).skip(prefix.len() as int) =~= decimal_text(
            a as nat,
        ));
        assert((prefix + decimal_text(b as nat)).skip(prefix.len() as int) =~= decimal_text(
            b as nat,
        ));
        lemma_decimal_injective(a as nat, b as nat);
    }
}

/// A key that none of the entries from `from` on carries has the channel
/// that the entries before `from` give it.
proof fn lemma_channel_skips<T>(entries: Seq<(Seq<char>, T)>, id: Seq<char>, from: int)
    requires
        0 <= from <= entries.len(),
        forall|i: int| from <= i < entries.len() ==> entries[i].0 != id,
    ensures
        channel_of(entries, id) == channel_of(entries.take(from), id),
    decreases entries.len(),
{
    if from == entries.len() {
        assert(entries.take(from) == entries);
    } else {
        lemma_channel_skips(entries.drop_last(), id, from);
        assert(entries.drop_last().take(from) == entries.take(from));
    }
}

impl<T> ServerState<T> {
    /// The registry without connections; the first connection gets the
    /// number 1.
    pub fn new() -> (r: ServerState<T>)
        ensures
            r@.entries == Seq::<(Seq<char>, T)>::empty(),
            r@.next_id == 1,
            r@.wf(),
    {
        let r = ServerState { clients: Vec::new(), next_id: 1 };
        assert(r@.entries =~= Seq::<(Seq<char>, T)>::empty());
        r
    }

    /// The number of open connections.
    pub fn client_count(&self) -> (r: usize)
        ensures
            r == self@.entries.len(),
    {
        self.clients.len()
    }

    /// The number that the next connection gets.
    pub fn next_id(&self) -> (r: u64)
        ensures
            r == self@.next_id,
    {
        self.next_id
    }

    /// Registers a connection under a fresh id, which is returned: no
    /// connection of the registry carries it.
    pub fn add_client(&mut self, tx: T) -> (id: String)
        requires
            old(self)@.wf(),
            old(self)@.next_id < u64::MAX,
        ensures
            id@ == client_name(old(self)@.next_id),
            final(self)@.entries == old(self)@.entries.push((id@, tx)),
            final(self)@.next_id == old(self)@.next_id + 1,
            final(self)@.wf(),
            channel_of(old(self)@.entries, id@) is None,
    {
        let ghost before = self@;
        let n = self.next_id;
        let id = join("client-", decimal(n).as_str());
        self.next_id = n + 1;
        self.clients.push(Client { id: id.clone(), tx });
        proof {
            assert(self@.entries =~= before.entries.push((id@, tx)));
            assert forall|i: int| 0 <= i < before.entries.len() implies before.entries[i].0
                != id@ by {
                assert(is_issued(before.entries[i].0, n));
                let k = choose|k: u64| 1 <= k < n && before.entries[i].0 == client_name(k);
                lemma_client_names_differ(k, n);
            }
            lemma_channel_skips(before.entries, id@, 0);
            assert(before.entries.take(0).len() == 0);
            assert forall|i: int| 0 <= i < self@.entries.len() implies is_issued(
                (#[trigger] self@.entries[i]).0,
                self@.next_id,
            ) by {
                if i < before.entries.len() {
                    assert(is_issued(before.entries[i].0, n));
                    let k = choose|k: u64| 1 <= k < n && before.entries[i].0 == client_name(k);
                    assert(1 <= k < self@.next_id && self@.entries[i].0 == client_name(k));
                } else {
                    assert(1 <= n < self@.next_id && self@.entries[i].0 == client_name(n));
                }
            }
        }
        id
    }

    /// Removes the connection with this id and no other.
    pub fn remove_client(&mut self, id: &str)
        ensures
            final(self)@.entries == without(old(self)@.entries, id@),
            final(self)@.next_id == old(self)@.next_id,
            old(self)@.wf() ==> final(self)@.wf(),
    {
        let ghost before = self@.entries;
        let ghost keep = other_than::<T>(id@);
        let ghost mut k: int = 0;
        let mut i: usize = 0;
        proof {
            reveal(Seq::filter);
            assert(self@.entries.take(0) =~= before.take(0).filter(keep));
            assert(self@.entries.skip(0) =~= before.skip(0));
        }
        while i < self.clients.len()
            invariant
                0 <= k <= before.len(),
                i <= self.clients.len(),
                self.next_id == old(self).next_id,
                keep == other_than::<T>(id@),
                self@.entries.take(i as int) == before.take(k).filter(keep),
                self@.entries.skip(i as int) == before.skip(k),
            decreases self.clients.len() - i,
        {
            let ghost now = self@.entries;
            proof {
                assert(now.len() == self.clients.len());
                assert(now.skip(i as int).len() == now.len() - i);
                assert(before.skip(k).len() == before.len() - k);
                assert(now.skip(i as int)[0] == before.skip(k)[0]);
                assert(now[i as int] == before[k]);
                assert(before.take(k + 1) =~= before.take(k).push(before[k]));
                lemma_filter_push(before.take(k), before[k], keep);
            }
            if str_eq(self.clients[i].id.as_str(), id) {
                self.clients.remove(i);
                proof {
                    assert(self@.entries.take(i as int) =~= now.take(i as int));
                    assert(self@.entries.skip(i as int) =~= now.skip(i as int).skip(1));
                    assert(before.skip(k).skip(1) =~= before.skip(k + 1));
                }
            } else {
                proof {
                    assert(now.take(i as int + 1) =~= now.take(i as int).push(now[i as int]));
                    assert(now.skip(i as int + 1) =~= now.skip(i as int).skip(1));
                    assert(before.skip(k).skip(1) =~= before.skip(k + 1));
                }
                i += 1;
            }
            proof {
                k = k + 1;
            }
        }
        proof {
            assert(self@.entries.take(i as int) =~= self@.entries);
            assert(self@.entries.skip(i as int).len() == 0);
            assert(before.skip(k).len() == before.len() - k);
            assert(before.take(k) =~= before);
            if old(self)@.wf() {
                lemma_without_is_wf(old(self)@, id@);
            }
        }
    }

    /// The channel of the connection with this id.
    #[verifier::loop_isolation(false)]
    pub fn find(&self, id: &str) -> (r: Option<&T>)
        ensures
            match r {
                Some(tx) => channel_of(self@.entries, id@) == Some(*tx),
                None => channel_of(self@.entries, id@) is None,
            },
    {
        let mut i: usize = self.clients.len();
        while i > 0
            invariant
                i <= self.clients.len(),
                forall|k: int| i <= k < self.clients.len() ==> self@.entries[k].0 != id@,
            decreases i,
        {
            i -= 1;
            if str_eq(self.clients[i].id.as_str(), id) {
                proof {
                    lemma_channel_skips(self@.entries, id@, i as int + 1);
                    assert(self@.entries.take(i as int + 1).last() == self@.entries[i as int]);
                }
                return Some(&self.clients[i].tx);
            }
        }
        proof {
            lemma_channel_skips(self@.entries, id@, 0);
            assert(self@.entries.take(0).len() == 0);
        }
        None
    }

    /// The channels of all open connections, in the order in which the
    /// connections were accepted.
    pub fn channels(&self) -> (r: Vec<&T>)
        ensures
            r@.len() == self@.entries.len(),
            forall|i: int| 0 <= i < r@.len() ==> *r@[i] == self@.entries[i].1,
    {
        let mut out: Vec<&T> = Vec::new();
        let mut i: usize = 0;
        while i < self.clients.len()
            invariant
                i <= self.clients.len(),
                out@.len() == i,
                forall|k: int| 0 <= k < i ==> *out@[k] == self@.entries[k].1,
            decreases self.clients.len() - i,
        {
            out.push(&self.clients[i].tx);
            i += 1;
        }
        out
    }
}

/// Removing a connection keeps the registry well formed.
pub proof fn lemma_without_is_wf<T>(v: RegistryView<T>, id: Seq<char>)
    requires
        v.wf(),
    ensures
        (RegistryView { entries: without(v.entries, id), next_id: v.next_id }).wf(),
{
    let keep = other_than::<T>(id);
    let kept = without(v.entries, id);
    assert forall|i: int| 0 <= i < kept.len() implies is_issued(
        (#[trigger] kept[i]).0,
        v.next_id,
    ) by {
        lemma_filtered_came_from(v.entries, keep, i);
        let j = choose|j: int| 0 <= j < v.entries.len() && v.entries[j] == kept[i];
        assert(is_issued(v.entries[j].0, v.next_id));
    }
}

proof fn lemma_filtered_came_from<A>(s: Seq<A>, pred: spec_fn(A) -> bool, i: int)
    requires
        0 <= i < s.filter(pred).len(),
    ensures
        exists|j: int| 0 <= j < s.len() && s[j] == s.filter(pred)[i],
    decreases s.len(),
{
    reveal(Seq::filter);
    if s.len() > 0 {
        let rest = s.drop_last().filter(pred);
        if i < rest.len() {
            lemma_filtered_came_from(s.drop_last(), pred, i);
            let j = choose|j: int| 0 <= j < s.drop_last().len() && s.drop_last()[j] == rest[i];
            assert(s[j] == s.filter(pred)[i]);
        } else {
            assert(s[s.len() - 1] == s.filter(pred)[i]);
        }
    }
}

/// Closing one connection leaves every other connection with its channel:
/// what is queued for another connection still reaches it.
pub proof fn closing_one_leaves_the_others<T>(
    entries: Seq<(Seq<char>, T)>,
    closed: Seq<char>,
    other: Seq<char>,
)
    requires
        other != closed,
    ensures
        channel_of(without(entries, closed), other) == channel_of(entries, other),
    decreases entries.len(),
{
    reveal(Seq::filter);
    if entries.len() > 0 {
        closing_one_leaves_the_others(entries.drop_last(), closed, other);
        let keep = other_than::<T>(closed);
        assert(entries.drop_last().push(entries.last()) == entries);
        lemma_filter_push(entries.drop_last(), entries.last(), keep);
        if keep(entries.last()) {
            assert(without(entries, closed).drop_last() == without(entries.drop_last(), closed));
        }
    }
}

/// Two connections that are accepted one after the other get different
/// ids.
pub proof fn connections_get_different_ids(first: u64, second: u64)
    requires
        first < second,
    ensures
        client_name(first) != client_name(second),
{
    lemma_client_names_differ(first, second);
}

/// Why the server could not start.
#[derive(Debug)]
pub enum ServerError {
    /// No port could be bound.
    Bind(String),
    /// The discovery record could not be written.
    LockFile(String),
}

impl ServerError {
    /// The error in words.
    pub fn message(&self) -> (r: String)
        ensures
            r@ == match self {
                ServerError::Bind(msg) => "Failed to bind server: "@ + msg@,
                ServerError::LockFile(msg) => "Lock file error: "@ + msg@,
            },
    {
        match self {
            ServerError::Bind(msg) => join("Failed to bind server: ", msg.as_str()),
            ServerError::LockFile(msg) => join("Lock file error: ", msg.as_str()),
        }
    }
}

/// Why a connection could not be served.
#[derive(Debug)]
pub enum ConnectionError {
    /// The transport handshake failed.
    Handshake(String),
}

impl ConnectionError {
    /// The error in words.
    pub fn message(&self) -> (r: String)
        ensures
            r@ == match self {
                ConnectionError::Handshake(msg) => "WebSocket handshake failed: "@ + msg@,
            },
    {
        match self {
            ConnectionError::Handshake(msg) => join("WebSocket handshake failed: ", msg.as_str()),
        }
    }
}

} // verus!

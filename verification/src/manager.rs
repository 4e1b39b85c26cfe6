//! The node manager: supervisor state of one node. The manager owns the
//! node's runtime state — session id, last statistics, derived load penalty,
//! the reconnect counter, the terminal flag and the tenant subscriptions —
//! and every transition of that state is a verified function here. The
//! asynchronous shell owns the sockets and the task loop: it decodes frames
//! and feeds them to `handle_message`, drains the command queue through
//! `handle_command`, and performs each connection attempt that `connect_step`
//! asks for.

use vstd::prelude::*;
use vstd::string::StringExecFns;
use crate::error::LavalinkNodeError;
use crate::model::EventType;
use crate::model::LavalinkMessage;
use crate::model::Stats;
use crate::model::spec_event_guild_id;
use crate::model::spec_penalty_u64;
use crate::rest::Rest;
use crate::rest::RestOptions;
use crate::text::format_u64;
use crate::text::spec_u64_digits;

verus! {

/// Mathematical state of a node manager: every field the transition
/// functions read or write, with subscriptions abstracted to the sequence of
/// tenant ids that hold one.
pub ghost struct ManagerView {
    pub name: Seq<char>,
    pub auth: Seq<char>,
    pub id: u64,
    pub url: Seq<char>,
    pub authority: Seq<char>,
    pub user_agent: Seq<char>,
    pub reconnect_tries: u16,
    pub session_id: Option<Seq<char>>,
    pub statistics: Option<Stats>,
    pub penalties: u64,
    pub destroyed: bool,
    pub reconnects: u16,
    pub subs: Seq<u64>,
    pub rest_url: Seq<char>,
}

/// Options a node manager is created from.
#[derive(Clone, Debug)]
pub struct NodeManagerOptions {
    pub name: String,
    pub host: String,
    pub port: u32,
    pub auth: String,
    pub id: u64,
    pub user_agent: String,
    pub reconnect_tries: u16,
}

/// Snapshot of a manager's externally visible data, as answered to a
/// `GetData` command.
#[derive(Clone, Debug)]
pub struct NodeManagerData {
    pub name: String,
    pub auth: String,
    pub id: u64,
    pub url: String,
    pub penalties: u64,
    pub statistics: Option<Stats>,
}

/// A command sent to a manager through its queue.
#[derive(Clone, Copy, Debug)]
pub enum WebsocketCommand {
    Connect,
    Disconnect,
    Destroy,
    GetData,
}

/// What a manager does in answer to one command. `RunConnect` directs the
/// shell to drive the reconnect procedure; `Acked` carries the tenants whose
/// subscription received the terminal marker; `Data` carries the snapshot.
#[derive(Clone, Debug)]
pub enum CommandAction {
    RunConnect,
    Acked(Vec<u64>),
    Data(NodeManagerData),
}

/// What a manager does with one decoded stream message.
#[derive(Clone, Copy, Debug)]
pub enum MessageOutcome {
    /// The stream failed or closed: the shell must run the reconnect
    /// procedure.
    Reconnect,
    /// The message updated manager state (or was advisory) and is done.
    Handled,
    /// A player event was delivered to the subscription of this tenant.
    Emitted(u64),
    /// A player event was addressed to a tenant without a subscription and
    /// was dropped.
    Dropped(u64),
}

/// What the shell must do after one connection attempt: proceed connected,
/// retry after a backoff in seconds, or give up with the error.
#[derive(Clone, Debug)]
pub enum ConnectStep {
    Connected,
    RetryAfter(u64),
    Fail(LavalinkNodeError),
}

/// A handshake request for the stream connection: the URL and every header
/// whose value this library decides. The shell adds the freshly generated
/// websocket nonce, which is outside this state.
#[derive(Clone, Debug)]
pub struct HandshakeRequest {
    pub url: String,
    pub headers: Vec<(String, String)>,
}

/// The reconnect counter after one more attempt, saturating at the top of
/// its machine word.
pub open spec fn next_reconnects(r: u16) -> u16 {
    if r < u16::MAX {
        (r + 1) as u16
    } else {
        r
    }
}

/// State after one decoded stream message: `Ready` stores the session id,
/// `Stats` stores the frame and its derived penalty, everything else —
/// including a stream error, which only directs the shell to reconnect —
/// leaves the state unchanged.
pub open spec fn spec_after_message(
    v: ManagerView,
    m: Result<Option<LavalinkMessage>, LavalinkNodeError>,
) -> ManagerView {
    match m {
        Ok(Some(LavalinkMessage::Ready(r))) => ManagerView { session_id: Some(r.session_id@), ..v },
        Ok(Some(LavalinkMessage::Stats(s))) => ManagerView {
            statistics: Some(s),
            penalties: spec_penalty_u64(s),
            ..v
        },
        _ => v,
    }
}

/// State after one command: `Disconnect` ends every subscription and resets
/// the reconnect counter, `Destroy` additionally sets the terminal flag, and
/// `Connect` and `GetData` change nothing.
pub open spec fn spec_after_command(v: ManagerView, c: WebsocketCommand) -> ManagerView {
    match c {
        WebsocketCommand::Connect => v,
        WebsocketCommand::Disconnect => ManagerView { subs: Seq::empty(), reconnects: 0, ..v },
        WebsocketCommand::Destroy => ManagerView {
            subs: Seq::empty(),
            reconnects: 0,
            destroyed: true,
            ..v
        },
        WebsocketCommand::GetData => v,
    }
}

/// State after a sequence of commands, processed front to back.
pub open spec fn spec_after_commands(v: ManagerView, cs: Seq<WebsocketCommand>) -> ManagerView
    decreases cs.len(),
{
    if cs.len() == 0 {
        v
    } else {
        spec_after_commands(spec_after_command(v, cs[0]), cs.skip(1))
    }
}

/// The answer owed to one command, given the state it is processed in:
/// `Connect` is answered by running the reconnect procedure, `Disconnect`
/// and `Destroy` acknowledge with exactly the tenants that were subscribed —
/// each receiving one terminal marker — and `GetData` answers the snapshot
/// of that state.
pub open spec fn spec_command_action_ok(
    v: ManagerView,
    c: WebsocketCommand,
    a: CommandAction,
) -> bool {
    match c {
        WebsocketCommand::Connect => a is RunConnect,
        WebsocketCommand::Disconnect => a matches CommandAction::Acked(d) && d@ == v.subs,
        WebsocketCommand::Destroy => a matches CommandAction::Acked(d) && d@ == v.subs,
        WebsocketCommand::GetData => a matches CommandAction::Data(d) && d.name@ == v.name
            && d.auth@ == v.auth && d.id == v.id && d.url@ == v.url && d.penalties == v.penalties
            && d.statistics == v.statistics,
    }
}

/// What a correct handshake request for manager state `v` holds: the stream
/// URL, and in order the upgrade set (with the node's authority as the host),
/// the caller's identity, the node's token, the previous session id (empty
/// before the first `Ready`) and the library's user agent.
pub open spec fn spec_handshake_ok(v: ManagerView, r: HandshakeRequest) -> bool {
    &&& r.url@ == v.url
    &&& r.headers@.len() == 9
    &&& r.headers@[0].0@ == "Host"@ && r.headers@[0].1@ == v.authority
    &&& r.headers@[1].0@ == "Connection"@ && r.headers@[1].1@ == "Upgrade"@
    &&& r.headers@[2].0@ == "Upgrade"@ && r.headers@[2].1@ == "websocket"@
    &&& r.headers@[3].0@ == "Sec-WebSocket-Version"@ && r.headers@[3].1@ == "13"@
    &&& r.headers@[4].0@ == "User-Id"@ && r.headers@[4].1@ == spec_u64_digits(v.id as int)
    &&& r.headers@[5].0@ == "Authorization"@ && r.headers@[5].1@ == v.auth
    &&& r.headers@[6].0@ == "Session-Id"@ && r.headers@[6].1@ == (match v.session_id {
        Some(s) => s,
        None => ""@,
    })
    &&& r.headers@[7].0@ == "Client-Name"@ && r.headers@[7].1@ == v.user_agent
    &&& r.headers@[8].0@ == "User-Agent"@ && r.headers@[8].1@ == v.user_agent
}

/// Supervisor state of one node. The subscriptions are an owned vector of
/// `(tenant, sender)` pairs rather than the shared concurrent map a running
/// fleet keeps them in: the manager is the single writer of this state, the
/// registry reaches it through the same owner, and terminal delivery is
/// promised per subscription in order — all of which is stated and proved
/// over the owned sequence, while the cross-task sharing lives in the shell.
pub struct NodeManager {
    pub name: String,
    pub auth: String,
    pub id: u64,
    pub url: String,
    pub authority: String,
    pub user_agent: String,
    pub reconnect_tries: u16,
    pub session_id: Option<String>,
    pub statistics: Option<Stats>,
    pub penalties: u64,
    pub destroyed: bool,
    pub reconnects: u16,
    pub event_senders: Vec<(u64, flume::Sender<EventType>)>,
    pub rest: Rest,
}

impl View for NodeManager {
    type V = ManagerView;

    open spec fn view(&self) -> ManagerView {
        ManagerView {
            name: self.name@,
            auth: self.auth@,
            id: self.id,
            url: self.url@,
            authority: self.authority@,
            user_agent: self.user_agent@,
            reconnect_tries: self.reconnect_tries,
            session_id: match self.session_id {
                Some(s) => Some(s@),
                None => None,
            },
            statistics: self.statistics,
            penalties: self.penalties,
            destroyed: self.destroyed,
            reconnects: self.reconnects,
            subs: self.event_senders@.map_values(|p: (u64, flume::Sender<EventType>)| p.0),
            rest_url: self.rest.url@,
        }
    }
}

impl NodeManager {
    /// Subscribed tenant ids are pairwise distinct, and the control surface
    /// carries this node's own token and user agent.
    pub open spec fn wf(&self) -> bool {
        &&& forall|i: int, j: int|
            0 <= i < j < self@.subs.len() ==> #[trigger] self@.subs[i] != #[trigger] self@.subs[j]
        &&& self.rest.auth@ == self@.auth
        &&& self.rest.user_agent@ == self@.user_agent
    }

    /// This tenant holds a subscription on this node.
    pub open spec fn has_sub(&self, guild_id: u64) -> bool {
        self@.subs.contains(guild_id)
    }

    /// Creates a manager from its options: stream URL derived from host and
    /// port, no session, no statistics, zero penalty, no subscriptions, not
    /// destroyed, reconnect counter at zero.
    pub fn new(options: NodeManagerOptions) -> (r: NodeManager)
        ensures
            r@.name == options.name@,
            r@.auth == options.auth@,
            r@.id == options.id,
            r@.url == "ws://"@ + options.host@ + ":"@ + spec_u64_digits(options.port as int)
                + "/v4/websocket"@,
            r@.authority == options.host@ + ":"@ + spec_u64_digits(options.port as int),
            r@.user_agent == options.user_agent@,
            r@.reconnect_tries == options.reconnect_tries,
            r@.session_id is None,
            r@.statistics is None,
            r@.penalties == 0,
            !r@.destroyed,
            r@.reconnects == 0,
            r@.subs =~= Seq::<u64>::empty(),
            r@.rest_url == "http://"@ + options.host@ + ":"@ + spec_u64_digits(options.port as int)
                + "/v4"@,
            r.wf(),
    {
        let port = format_u64(options.port as u64);
        let url = String::from_str("ws://").concat(options.host.as_str()).concat(":").concat(
            port.as_str(),
        ).concat("/v4/websocket");
        proof {
            assert(url@ =~= "ws://"@ + options.host@ + ":"@ + spec_u64_digits(options.port as int)
                + "/v4/websocket"@);
        }
        let authority = options.host.clone().concat(":").concat(port.as_str());
        proof {
            assert(authority@ =~= options.host@ + ":"@ + spec_u64_digits(options.port as int));
        }
        let rest_url = String::from_str("http://").concat(options.host.as_str()).concat(
            ":",
        ).concat(port.as_str()).concat("/v4");
        proof {
            assert(rest_url@ =~= "http://"@ + options.host@ + ":"@ + spec_u64_digits(
                options.port as int,
            ) + "/v4"@);
        }
        let rest = Rest::new(
            RestOptions {
                url: rest_url,
                auth: options.auth.clone(),
                user_agent: options.user_agent.clone(),
            },
        );
        let r = NodeManager {
            name: options.name,
            auth: options.auth,
            id: options.id,
            url,
            authority,
            user_agent: options.user_agent,
            reconnect_tries: options.reconnect_tries,
            session_id: None,
            statistics: None,
            penalties: 0,
            destroyed: false,
            reconnects: 0,
            event_senders: Vec::new(),
            rest,
        };
        proof {
            assert(r@.subs =~= Seq::<u64>::empty());
        }
        r
    }

    /// Index of a tenant's subscription, if it holds one.
    fn find_sub(&self, guild_id: u64) -> (r: Option<usize>)
        ensures
            match r {
                Some(i) => i < self@.subs.len() && self@.subs[i as int] == guild_id,
                None => !self.has_sub(guild_id),
            },
    {
        let n = self.event_senders.len();
        let mut i: usize = 0;
        while i < n
            invariant
                0 <= i <= n,
                n == self@.subs.len(),
                forall|j: int| 0 <= j < i ==> self@.subs[j] != guild_id,
            decreases n - i,
        {
            if self.event_senders[i].0 == guild_id {
                return Some(i);
            }
            i = i + 1;
        }
        proof {
            assert(forall|j: int|
                0 <= j < self@.subs.len() ==> self@.subs[j] != guild_id);
        }
        None
    }

    /// Whether this tenant holds a subscription on this node.
    pub fn has_subscription(&self, guild_id: u64) -> (r: bool)
        ensures
            r == self.has_sub(guild_id),
    {
        match self.find_sub(guild_id) {
            Some(_) => true,
            None => false,
        }
    }

    /// Registers a subscription for a tenant that holds none yet.
    pub fn subscribe(&mut self, guild_id: u64, sender: flume::Sender<EventType>)
        requires
            old(self).wf(),
            !old(self).has_sub(guild_id),
        ensures
            final(self)@ == (ManagerView { subs: old(self)@.subs.push(guild_id), ..old(self)@ }),
            final(self).wf(),
    {
        let ghost before = self@.subs;
        self.event_senders.push((guild_id, sender));
        proof {
            assert(self@.subs =~= before.push(guild_id));
            assert(self.wf()) by {
                assert(forall|j: int| 0 <= j < before.len() ==> before[j] != guild_id);
            }
        }
    }

    /// Ends a tenant's subscription: sends the terminal `Destroyed` marker
    /// on it, then removes it. Without a subscription nothing changes.
    pub fn close_subscription(&mut self, guild_id: u64) -> (removed: bool)
        requires
            old(self).wf(),
        ensures
            removed == old(self).has_sub(guild_id),
            final(self).wf(),
            final(self)@.subs.len() == old(self)@.subs.len() - (if removed {
                1int
            } else {
                0int
            }),
            forall|x: u64|
                #[trigger] final(self).has_sub(x) == (old(self).has_sub(x) && x != guild_id),
            final(self)@ == (ManagerView { subs: final(self)@.subs, ..old(self)@ }),
            removed ==> exists|i: int|
                0 <= i < old(self)@.subs.len() && old(self)@.subs[i] == guild_id && final(self)@.subs
                    == old(self)@.subs.remove(i),
    {
        match self.find_sub(guild_id) {
            Some(i) => {
                let ghost before = self@.subs;
                let _ = self.event_senders[i].1.send(EventType::Destroyed);
                let _ = self.event_senders.remove(i);
                proof {
                    assert(self@.subs =~= before.remove(i as int));
                    lemma_remove_unique(before, i as int, guild_id);
                }
                true
            },
            None => false,
        }
    }

    /// Applies one decoded stream message (or stream failure) to the state
    /// and says what the shell must do next. A player event is sent to the
    /// addressed tenant's subscription when one exists and is dropped
    /// silently otherwise; state moves exactly by `spec_after_message`.
    pub fn handle_message(&mut self, result: Result<Option<LavalinkMessage>, LavalinkNodeError>)
        -> (outcome: MessageOutcome)
        requires
            old(self).wf(),
        ensures
            final(self)@ == spec_after_message(old(self)@, result),
            final(self).wf(),
            match result {
                Err(_) => outcome is Reconnect,
                Ok(None) => outcome is Handled,
                Ok(Some(LavalinkMessage::Event(e))) => if old(self).has_sub(spec_event_guild_id(e)) {
                    outcome == MessageOutcome::Emitted(spec_event_guild_id(e))
                } else {
                    outcome == MessageOutcome::Dropped(spec_event_guild_id(e))
                },
                Ok(Some(_)) => outcome is Handled,
            },
    {
        match result {
            Err(_) => MessageOutcome::Reconnect,
            Ok(None) => MessageOutcome::Handled,
            Ok(Some(message)) => match message {
                LavalinkMessage::Ready(data) => {
                    self.session_id = Some(data.session_id);
                    MessageOutcome::Handled
                },
                LavalinkMessage::Stats(data) => {
                    let p = data.penalty();
                    self.statistics = Some(data);
                    self.penalties = p;
                    MessageOutcome::Handled
                },
                LavalinkMessage::PlayerUpdate(_) => MessageOutcome::Handled,
                LavalinkMessage::Event(event) => {
                    let guild_id = event.guild_id();
                    match self.find_sub(guild_id) {
                        Some(i) => {
                            let _ = self.event_senders[i].1.send(EventType::Player(event));
                            MessageOutcome::Emitted(guild_id)
                        },
                        None => MessageOutcome::Dropped(guild_id),
                    }
                },
            },
        }
    }

    /// Sends the terminal `Destroyed` marker on every live subscription —
    /// one marker each, in subscription order — then clears them all.
    /// Returns the tenants that were signalled.
    pub fn send_players_destroy(&mut self) -> (delivered: Vec<u64>)
        requires
            old(self).wf(),
        ensures
            delivered@ == old(self)@.subs,
            final(self)@ == (ManagerView { subs: Seq::empty(), ..old(self)@ }),
            final(self).wf(),
    {
        let mut delivered: Vec<u64> = Vec::new();
        let n = self.event_senders.len();
        let mut i: usize = 0;
        while i < n
            invariant
                0 <= i <= n,
                n == self@.subs.len(),
                self@ == old(self)@,
                delivered@ =~= self@.subs.take(i as int),
            decreases n - i,
        {
            let guild_id = self.event_senders[i].0;
            let _ = self.event_senders[i].1.send(EventType::Destroyed);
            delivered.push(guild_id);
            proof {
                assert(delivered@ =~= self@.subs.take(i + 1));
            }
            i = i + 1;
        }
        self.event_senders.clear();
        proof {
            assert(delivered@ =~= old(self)@.subs);
            assert(self@.subs =~= Seq::<u64>::empty());
        }
        delivered
    }

    /// Disconnect: every subscription receives its terminal marker and is
    /// removed, and the reconnect counter resets. The shell closes the
    /// stream itself. Returns the tenants that were signalled.
    pub fn disconnect(&mut self) -> (delivered: Vec<u64>)
        requires
            old(self).wf(),
        ensures
            delivered@ == old(self)@.subs,
            final(self)@ == (ManagerView { subs: Seq::empty(), reconnects: 0, ..old(self)@ }),
            final(self).wf(),
    {
        let delivered = self.send_players_destroy();
        self.reconnects = 0;
        delivered
    }

    /// Destroy: a disconnect followed by the terminal flag; the manager's
    /// loop exits on it. Returns the tenants that were signalled.
    pub fn destroy(&mut self) -> (delivered: Vec<u64>)
        requires
            old(self).wf(),
        ensures
            delivered@ == old(self)@.subs,
            final(self)@ == (ManagerView {
                subs: Seq::empty(),
                reconnects: 0,
                destroyed: true,
                ..old(self)@
            }),
            final(self).wf(),
    {
        let delivered = self.disconnect();
        self.destroyed = true;
        delivered
    }

    /// Snapshot of this manager's externally visible data.
    pub fn data(&self) -> (d: NodeManagerData)
        ensures
            d.name@ == self@.name,
            d.auth@ == self@.auth,
            d.id == self@.id,
            d.url@ == self@.url,
            d.penalties == self@.penalties,
            d.statistics == self@.statistics,
    {
        NodeManagerData {
            name: self.name.clone(),
            auth: self.auth.clone(),
            id: self.id,
            url: self.url.clone(),
            penalties: self.penalties,
            statistics: self.statistics.clone(),
        }
    }

    /// Processes one command and returns the action owed for it. State moves
    /// exactly by `spec_after_command`; the answer satisfies
    /// `spec_command_action_ok` in the state the command found.
    pub fn handle_command(&mut self, command: WebsocketCommand) -> (action: CommandAction)
        requires
            old(self).wf(),
        ensures
            final(self)@ == spec_after_command(old(self)@, command),
            final(self).wf(),
            spec_command_action_ok(old(self)@, command, action),
    {
        match command {
            WebsocketCommand::Connect => CommandAction::RunConnect,
            WebsocketCommand::Disconnect => CommandAction::Acked(self.disconnect()),
            WebsocketCommand::Destroy => CommandAction::Acked(self.destroy()),
            WebsocketCommand::GetData => CommandAction::Data(self.data()),
        }
    }

    /// Processes a sequence of commands front to back: the final state is
    /// the fold of `spec_after_command` over the sequence, and the `i`-th
    /// action answers the `i`-th command in exactly the state the commands
    /// before it produced. Commands injected in an order are thus processed
    /// in that order.
    pub fn handle_commands(&mut self, commands: Vec<WebsocketCommand>) -> (actions: Vec<
        CommandAction,
    >)
        requires
            old(self).wf(),
        ensures
            final(self)@ == spec_after_commands(old(self)@, commands@),
            final(self).wf(),
            actions@.len() == commands@.len(),
            forall|i: int|
                0 <= i < commands@.len() ==> spec_command_action_ok(
                    spec_after_commands(old(self)@, commands@.take(i)),
                    commands@[i],
                    #[trigger] actions@[i],
                ),
    {
        let mut actions: Vec<CommandAction> = Vec::new();
        let n = commands.len();
        let mut i: usize = 0;
        proof {
            assert(commands@.take(0) =~= Seq::<WebsocketCommand>::empty());
        }
        while i < n
            invariant
                0 <= i <= n,
                n == commands@.len(),
                self.wf(),
                self@ == spec_after_commands(old(self)@, commands@.take(i as int)),
                actions@.len() == i,
                forall|j: int|
                    0 <= j < i ==> spec_command_action_ok(
                        spec_after_commands(old(self)@, commands@.take(j)),
                        commands@[j],
                        #[trigger] actions@[j],
                    ),
            decreases n - i,
        {
            let action = self.handle_command(commands[i]);
            actions.push(action);
            proof {
                lemma_after_commands_snoc(old(self)@, commands@, i as int);
            }
            i = i + 1;
        }
        proof {
            assert(commands@.take(n as int) =~= commands@);
        }
        actions
    }

    /// Decides what follows one connection attempt, mirroring the reconnect
    /// procedure: a success resets the counter and proceeds connected; a
    /// failure with attempts left waits five seconds and retries; a failure
    /// that exhausts the configured tries resets the counter and surfaces
    /// the transport error.
    pub fn connect_step(&mut self, attempt_ok: bool) -> (step: ConnectStep)
        ensures
            attempt_ok ==> step is Connected && final(self)@ == (ManagerView {
                reconnects: 0,
                ..old(self)@
            }),
            !attempt_ok && next_reconnects(old(self)@.reconnects) < old(self)@.reconnect_tries
                ==> step == ConnectStep::RetryAfter(5) && final(self)@ == (ManagerView {
                reconnects: next_reconnects(old(self)@.reconnects),
                ..old(self)@
            }),
            !attempt_ok && next_reconnects(old(self)@.reconnects) >= old(self)@.reconnect_tries
                ==> step == ConnectStep::Fail(LavalinkNodeError::Transport) && final(self)@
                == (ManagerView { reconnects: 0, ..old(self)@ }),
    {
        if self.reconnects < u16::MAX {
            self.reconnects = self.reconnects + 1;
        }
        if attempt_ok {
            self.reconnects = 0;
            ConnectStep::Connected
        } else if self.reconnects < self.reconnect_tries {
            ConnectStep::RetryAfter(5)
        } else {
            self.reconnects = 0;
            ConnectStep::Fail(LavalinkNodeError::Transport)
        }
    }

    /// The handshake request for a connection attempt: the stream URL and
    /// every header this library decides — identity, authorization, the
    /// previous session id (empty before the first `Ready`), client name and
    /// user agent, plus the standard upgrade set. The shell appends the
    /// freshly generated websocket nonce.
    pub fn handshake_request(&self) -> (r: HandshakeRequest)
        ensures
            spec_handshake_ok(self@, r),
    {
        let session = match &self.session_id {
            Some(s) => s.clone(),
            None => String::new(),
        };
        proof {
            reveal_strlit("");
            assert(""@ =~= Seq::<char>::empty());
        }
        let mut headers: Vec<(String, String)> = Vec::new();
        headers.push((String::from_str("Host"), self.authority.clone()));
        headers.push((String::from_str("Connection"), String::from_str("Upgrade")));
        headers.push((String::from_str("Upgrade"), String::from_str("websocket")));
        headers.push((String::from_str("Sec-WebSocket-Version"), String::from_str("13")));
        headers.push((String::from_str("User-Id"), format_u64(self.id)));
        headers.push((String::from_str("Authorization"), self.auth.clone()));
        headers.push((String::from_str("Session-Id"), session));
        headers.push((String::from_str("Client-Name"), self.user_agent.clone()));
        headers.push((String::from_str("User-Agent"), self.user_agent.clone()));
        HandshakeRequest { url: self.url.clone(), headers }
    }
}

/// Removing one occurrence from a duplicate-free sequence keeps it
/// duplicate-free and removes exactly that value's membership.
proof fn lemma_remove_unique(s: Seq<u64>, i: int, v: u64)
    requires
        0 <= i < s.len(),
        s[i] == v,
        forall|a: int, b: int| 0 <= a < b < s.len() ==> #[trigger] s[a] != #[trigger] s[b],
    ensures
        forall|a: int, b: int|
            0 <= a < b < s.remove(i).len() ==> #[trigger] s.remove(i)[a] != #[trigger] s.remove(
                i,
            )[b],
        forall|x: u64| #[trigger] s.remove(i).contains(x) == (s.contains(x) && x != v),
{
    let t = s.remove(i);
    assert(forall|a: int|
        0 <= a < t.len() ==> t[a] == (if a < i {
            s[a]
        } else {
            s[a + 1]
        }));
    assert forall|x: u64| #[trigger] t.contains(x) == (s.contains(x) && x != v) by {
        if t.contains(x) {
            let a = choose|a: int| 0 <= a < t.len() && t[a] == x;
            if a < i {
                assert(s[a] == x);
            } else {
                assert(s[a + 1] == x);
            }
            assert(s.contains(x));
            assert(x != v);
        }
        if s.contains(x) && x != v {
            let a = choose|a: int| 0 <= a < s.len() && s[a] == x;
            if a < i {
                assert(t[a] == x);
            } else {
                assert(a > i);
                assert(t[a - 1] == x);
            }
            assert(t.contains(x));
        }
    }
}

/// Folding one more command at the back equals stepping the folded prefix
/// by that command.
proof fn lemma_after_commands_push(v: ManagerView, s: Seq<WebsocketCommand>, c: WebsocketCommand)
    ensures
        spec_after_commands(v, s.push(c)) == spec_after_command(spec_after_commands(v, s), c),
    decreases s.len(),
{
    if s.len() == 0 {
        assert(s.push(c).len() == 1);
        assert(s.push(c)[0] == c);
        assert(s.push(c).skip(1) =~= Seq::<WebsocketCommand>::empty());
        assert(spec_after_commands(v, s.push(c)) == spec_after_commands(
            spec_after_command(v, c),
            Seq::<WebsocketCommand>::empty(),
        ));
        assert(spec_after_commands(spec_after_command(v, c), Seq::<WebsocketCommand>::empty())
            == spec_after_command(v, c));
        assert(spec_after_commands(v, s) == v);
    } else {
        assert(s.push(c)[0] == s[0]);
        assert(s.push(c).skip(1) =~= s.skip(1).push(c));
        lemma_after_commands_push(spec_after_command(v, s[0]), s.skip(1), c);
        assert(spec_after_commands(v, s.push(c)) == spec_after_commands(
            spec_after_command(v, s[0]),
            s.skip(1).push(c),
        ));
        assert(spec_after_commands(v, s) == spec_after_commands(
            spec_after_command(v, s[0]),
            s.skip(1),
        ));
    }
}

/// The fold over one more element of a prefix steps the fold over the
/// shorter prefix.
proof fn lemma_after_commands_snoc(v: ManagerView, cs: Seq<WebsocketCommand>, i: int)
    requires
        0 <= i < cs.len(),
    ensures
        spec_after_commands(v, cs.take(i + 1)) == spec_after_command(
            spec_after_commands(v, cs.take(i)),
            cs[i],
        ),
{
    assert(cs.take(i + 1) =~= cs.take(i).push(cs[i]));
    lemma_after_commands_push(v, cs.take(i), cs[i]);
}

} // verus!

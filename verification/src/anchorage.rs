//! The fleet registry: the nodes by name, the load-based selector, the
//! tenant-to-node lookup and the player lifecycle. Its well-formedness
//! invariant — node names pairwise distinct, every manager well formed, and
//! every tenant subscribed on at most one node — is established by the
//! constructor and preserved by every operation; `create_player` refuses a
//! tenant that any node already holds, which is what keeps ownership unique.

use vstd::prelude::*;
use vstd::string::StringExecFns;
use crate::error::AnchorageError;
use crate::error::LavalinkRestError;
use crate::manager::ManagerView;
use crate::manager::NodeManager;
use crate::manager::NodeManagerOptions;
use crate::model::EventType;
use crate::rest::HttpRequest;
use crate::rest::spec_base_headers;
use crate::player::Player;
use crate::text::spec_u64_digits;

verus! {

/// Options the registry is created from. A missing user agent falls back to
/// the library's own; missing reconnect tries are effectively unbounded.
#[derive(Clone, Debug)]
pub struct Options {
    pub user_agent: Option<String>,
    pub reconnect_tries: Option<u16>,
}

/// Static description of one node.
#[derive(Clone, Debug)]
pub struct NodeOptions {
    pub name: String,
    pub host: String,
    pub port: u32,
    pub auth: String,
}

/// Voice-channel connection data a player is created with.
#[derive(Clone, Debug)]
pub struct ConnectionOptions {
    pub channel_id: Option<u64>,
    pub endpoint: String,
    pub guild_id: u64,
    pub session_id: String,
    pub token: String,
    pub user_id: u64,
}

/// A freshly created node manager for descriptor `info`: correct identity,
/// correct stream and control URLs, and completely blank runtime state.
pub open spec fn spec_fresh_node(
    m: ManagerView,
    info: NodeOptions,
    user_id: u64,
    user_agent: Seq<char>,
    reconnect_tries: u16,
) -> bool {
    &&& m.name == info.name@
    &&& m.auth == info.auth@
    &&& m.id == user_id
    &&& m.url == "ws://"@ + info.host@ + ":"@ + spec_u64_digits(info.port as int)
        + "/v4/websocket"@
    &&& m.authority == info.host@ + ":"@ + spec_u64_digits(info.port as int)
    &&& m.rest_url == "http://"@ + info.host@ + ":"@ + spec_u64_digits(info.port as int) + "/v4"@
    &&& m.user_agent == user_agent
    &&& m.reconnect_tries == reconnect_tries
    &&& m.session_id is None
    &&& m.statistics is None
    &&& m.penalties == 0
    &&& !m.destroyed
    &&& m.reconnects == 0
    &&& m.subs == Seq::<u64>::empty()
}

/// `m` is a fresh node made from one of the descriptors in `data`.
pub open spec fn spec_fresh_from(
    m: ManagerView,
    data: Seq<NodeOptions>,
    user_id: u64,
    user_agent: Seq<char>,
    reconnect_tries: u16,
) -> bool {
    exists|k: int|
        0 <= k < data.len() && spec_fresh_node(m, #[trigger] data[k], user_id, user_agent, reconnect_tries)
}

/// The managers' mathematical states, node by node.
pub open spec fn spec_views(nodes: Seq<NodeManager>) -> Seq<ManagerView> {
    nodes.map_values(|n: NodeManager| n@)
}

/// The state a freshly created manager has for descriptor `info`.
pub open spec fn spec_fresh_view(
    info: NodeOptions,
    user_id: u64,
    user_agent: Seq<char>,
    reconnect_tries: u16,
) -> ManagerView {
    ManagerView {
        name: info.name@,
        auth: info.auth@,
        id: user_id,
        url: "ws://"@ + info.host@ + ":"@ + spec_u64_digits(info.port as int) + "/v4/websocket"@,
        authority: info.host@ + ":"@ + spec_u64_digits(info.port as int),
        user_agent,
        reconnect_tries,
        session_id: None,
        statistics: None,
        penalties: 0,
        destroyed: false,
        reconnects: 0,
        subs: Seq::empty(),
        rest_url: "http://"@ + info.host@ + ":"@ + spec_u64_digits(info.port as int) + "/v4"@,
    }
}

/// A node of this name stands among these states.
pub open spec fn spec_names_contain(views: Seq<ManagerView>, name: Seq<char>) -> bool {
    exists|i: int| 0 <= i < views.len() && (#[trigger] views[i]).name == name
}

/// One registration step: a taken name leaves the fleet as it is — the
/// first writer wins — and a new name appends a fresh manager.
pub open spec fn spec_start_step(
    views: Seq<ManagerView>,
    info: NodeOptions,
    user_id: u64,
    user_agent: Seq<char>,
    reconnect_tries: u16,
) -> Seq<ManagerView> {
    if spec_names_contain(views, info.name@) {
        views
    } else {
        views.push(spec_fresh_view(info, user_id, user_agent, reconnect_tries))
    }
}

/// The fleet after registering a run of descriptors, front to back.
pub open spec fn spec_after_start(
    views: Seq<ManagerView>,
    data: Seq<NodeOptions>,
    user_id: u64,
    user_agent: Seq<char>,
    reconnect_tries: u16,
) -> Seq<ManagerView>
    decreases data.len(),
{
    if data.len() == 0 {
        views
    } else {
        spec_after_start(
            spec_start_step(views, data[0], user_id, user_agent, reconnect_tries),
            data.skip(1),
            user_id,
            user_agent,
            reconnect_tries,
        )
    }
}

/// Registering one more descriptor at the back equals stepping the fold of
/// the shorter run.
proof fn lemma_after_start_push(
    views: Seq<ManagerView>,
    data: Seq<NodeOptions>,
    info: NodeOptions,
    user_id: u64,
    user_agent: Seq<char>,
    reconnect_tries: u16,
)
    ensures
        spec_after_start(views, data.push(info), user_id, user_agent, reconnect_tries)
            == spec_start_step(
            spec_after_start(views, data, user_id, user_agent, reconnect_tries),
            info,
            user_id,
            user_agent,
            reconnect_tries,
        ),
    decreases data.len(),
{
    if data.len() == 0 {
        assert(data.push(info)[0] == info);
        assert(data.push(info).skip(1) =~= Seq::<NodeOptions>::empty());
        assert(spec_after_start(views, data.push(info), user_id, user_agent, reconnect_tries)
            == spec_after_start(
            spec_start_step(views, info, user_id, user_agent, reconnect_tries),
            Seq::<NodeOptions>::empty(),
            user_id,
            user_agent,
            reconnect_tries,
        ));
        assert(spec_after_start(views, data, user_id, user_agent, reconnect_tries) == views);
    } else {
        assert(data.push(info)[0] == data[0]);
        assert(data.push(info).skip(1) =~= data.skip(1).push(info));
        lemma_after_start_push(
            spec_start_step(views, data[0], user_id, user_agent, reconnect_tries),
            data.skip(1),
            info,
            user_id,
            user_agent,
            reconnect_tries,
        );
        assert(spec_after_start(views, data.push(info), user_id, user_agent, reconnect_tries)
            == spec_after_start(
            spec_start_step(views, data[0], user_id, user_agent, reconnect_tries),
            data.skip(1).push(info),
            user_id,
            user_agent,
            reconnect_tries,
        ));
        assert(spec_after_start(views, data, user_id, user_agent, reconnect_tries)
            == spec_after_start(
            spec_start_step(views, data[0], user_id, user_agent, reconnect_tries),
            data.skip(1),
            user_id,
            user_agent,
            reconnect_tries,
        ));
    }
}

/// A name stands among the managers' states exactly when a node of that
/// name is registered.
proof fn lemma_names_contain_views(nodes: Seq<NodeManager>, name: Seq<char>)
    ensures
        spec_names_contain(spec_views(nodes), name) <==> exists|i: int|
            0 <= i < nodes.len() && (#[trigger] nodes[i])@.name == name,
{
    let views = spec_views(nodes);
    if spec_names_contain(views, name) {
        let i = choose|i: int| 0 <= i < views.len() && (#[trigger] views[i]).name == name;
        assert(nodes[i]@.name == name);
    }
    if exists|i: int| 0 <= i < nodes.len() && (#[trigger] nodes[i])@.name == name {
        let i = choose|i: int| 0 <= i < nodes.len() && (#[trigger] nodes[i])@.name == name;
        assert(views[i].name == name);
    }
}

/// The fleet registry.
pub struct Anchorage {
    pub user_agent: String,
    pub reconnect_tries: u16,
    pub nodes: Vec<NodeManager>,
}

impl Anchorage {
    /// Node names are pairwise distinct, every manager is well formed, and
    /// no tenant is subscribed on two nodes.
    pub open spec fn wf(&self) -> bool {
        &&& forall|i: int, j: int|
            0 <= i < j < self.nodes@.len() ==> #[trigger] self.nodes@[i]@.name
                != #[trigger] self.nodes@[j]@.name
        &&& forall|i: int| 0 <= i < self.nodes@.len() ==> #[trigger] self.nodes@[i].wf()
        &&& forall|i: int, j: int, g: u64|
            0 <= i < self.nodes@.len() && 0 <= j < self.nodes@.len() && i != j ==> !(
            #[trigger] self.nodes@[i].has_sub(g) && #[trigger] self.nodes@[j].has_sub(g))
    }

    /// A node of this name is registered.
    pub open spec fn spec_has_node(&self, name: Seq<char>) -> bool {
        exists|i: int| 0 <= i < self.nodes@.len() && #[trigger] self.nodes@[i]@.name == name
    }

    /// Some node holds a subscription for this tenant.
    pub open spec fn spec_has_player(&self, guild_id: u64) -> bool {
        exists|i: int| 0 <= i < self.nodes@.len() && #[trigger] self.nodes@[i].has_sub(guild_id)
    }

    /// Creates an empty registry: the given user agent or the library's
    /// own, the given reconnect limit or the unbounded default, no nodes.
    pub fn new(options: Options) -> (r: Anchorage)
        ensures
            r.user_agent@ == (match options.user_agent {
                Some(u) => u@,
                None => "Anchorage/0.1.0"@,
            }),
            r.reconnect_tries == (match options.reconnect_tries {
                Some(t) => t,
                None => u16::MAX,
            }),
            r.nodes@.len() == 0,
            r.wf(),
    {
        let user_agent = match options.user_agent {
            Some(u) => u,
            None => String::from_str("Anchorage/0.1.0"),
        };
        let reconnect_tries = match options.reconnect_tries {
            Some(t) => t,
            None => u16::MAX,
        };
        Anchorage { user_agent, reconnect_tries, nodes: Vec::new() }
    }

    /// Index of the node with this name, scanning front to back.
    pub fn find_node(&self, name: &String) -> (r: Option<usize>)
        ensures
            match r {
                Some(i) => i < self.nodes@.len() && self.nodes@[i as int]@.name == name@ && (
                forall|j: int| 0 <= j < i ==> #[trigger] self.nodes@[j]@.name != name@),
                None => forall|j: int|
                    0 <= j < self.nodes@.len() ==> #[trigger] self.nodes@[j]@.name != name@,
            },
    {
        let n = self.nodes.len();
        let mut i: usize = 0;
        while i < n
            invariant
                0 <= i <= n,
                n == self.nodes@.len(),
                forall|j: int| 0 <= j < i ==> #[trigger] self.nodes@[j]@.name != name@,
            decreases n - i,
        {
            if self.nodes[i].name == *name {
                return Some(i);
            }
            i = i + 1;
        }
        None
    }

    /// Registers one node under its descriptor. A name already registered
    /// is kept as it is — the first writer wins — and nothing changes.
    pub fn add_node(&mut self, user_id: u64, info: NodeOptions) -> (added: bool)
        requires
            old(self).wf(),
        ensures
            final(self).wf(),
            final(self).user_agent == old(self).user_agent,
            final(self).reconnect_tries == old(self).reconnect_tries,
            added == !old(self).spec_has_node(info.name@),
            !added ==> final(self).nodes@ == old(self).nodes@,
            added ==> final(self).nodes@.len() == old(self).nodes@.len() + 1 && (forall|j: int|
                0 <= j < old(self).nodes@.len() ==> final(self).nodes@[j] == old(
                    self,
                ).nodes@[j]) && spec_fresh_node(
                final(self).nodes@[old(self).nodes@.len() as int]@,
                info,
                user_id,
                old(self).user_agent@,
                old(self).reconnect_tries,
            ),
    {
        match self.find_node(&info.name) {
            Some(_) => false,
            None => {
                let ghost before = self.nodes@;
                let manager = NodeManager::new(
                    NodeManagerOptions {
                        name: info.name,
                        host: info.host,
                        port: info.port,
                        auth: info.auth,
                        id: user_id,
                        user_agent: self.user_agent.clone(),
                        reconnect_tries: self.reconnect_tries,
                    },
                );
                self.nodes.push(manager);
                proof {
                    let nodes = self.nodes@;
                    let last = nodes.len() - 1;
                    assert(forall|j: int| 0 <= j < last ==> nodes[j] == before[j]);
                    assert(nodes[last]@.subs =~= Seq::<u64>::empty());
                    assert forall|g: u64| !nodes[last].has_sub(g) by {
                        assert(!nodes[last]@.subs.contains(g));
                    }
                    assert(self.wf());
                }
                true
            },
        }
    }

    /// Registers every descriptor in order, keeping the first node of each
    /// name. Afterwards each requested name is present; nodes registered
    /// before are untouched, and every node added here starts fresh from
    /// one of the descriptors.
    pub fn start(&mut self, user_id: u64, nodes_data: Vec<NodeOptions>)
        requires
            old(self).wf(),
        ensures
            final(self).wf(),
            final(self).user_agent == old(self).user_agent,
            final(self).reconnect_tries == old(self).reconnect_tries,
            final(self).nodes@.len() >= old(self).nodes@.len(),
            forall|j: int|
                0 <= j < old(self).nodes@.len() ==> final(self).nodes@[j] == old(self).nodes@[j],
            forall|k: int|
                0 <= k < nodes_data@.len() ==> final(self).spec_has_node(
                    #[trigger] nodes_data@[k].name@,
                ),
            forall|j: int|
                old(self).nodes@.len() <= j < final(self).nodes@.len() ==> spec_fresh_from(
                    #[trigger] final(self).nodes@[j]@,
                    nodes_data@,
                    user_id,
                    old(self).user_agent@,
                    old(self).reconnect_tries,
                ),
            spec_views(final(self).nodes@) == spec_after_start(
                spec_views(old(self).nodes@),
                nodes_data@,
                user_id,
                old(self).user_agent@,
                old(self).reconnect_tries,
            ),
    {
        let ghost all = nodes_data@;
        let mut data = nodes_data;
        let ghost done: int = 0;
        proof {
            assert(all.take(0) =~= Seq::<NodeOptions>::empty());
        }
        while data.len() > 0
            invariant
                self.wf(),
                self.user_agent == old(self).user_agent,
                self.reconnect_tries == old(self).reconnect_tries,
                0 <= done <= all.len(),
                data@ =~= all.skip(done),
                self.nodes@.len() >= old(self).nodes@.len(),
                forall|j: int|
                    0 <= j < old(self).nodes@.len() ==> self.nodes@[j] == old(self).nodes@[j],
                forall|k: int| 0 <= k < done ==> self.spec_has_node(#[trigger] all[k].name@),
                forall|j: int|
                    old(self).nodes@.len() <= j < self.nodes@.len() ==> spec_fresh_from(
                        #[trigger] self.nodes@[j]@,
                        all,
                        user_id,
                        old(self).user_agent@,
                        old(self).reconnect_tries,
                    ),
                spec_views(self.nodes@) == spec_after_start(
                    spec_views(old(self).nodes@),
                    all.take(done),
                    user_id,
                    old(self).user_agent@,
                    old(self).reconnect_tries,
                ),
            decreases data.len(),
        {
            let ghost nodes_before = self.nodes@;
            let info = data.remove(0);
            let ghost this = info;
            proof {
                assert(this == all[done]);
            }
            let added = self.add_node(user_id, info);
            proof {
                if added {
                    let last = self.nodes@.len() - 1;
                    assert(self.nodes@[last]@.name == this.name@);
                    assert(self.spec_has_node(this.name@));
                    assert(spec_fresh_node(
                        self.nodes@[last]@,
                        all[done],
                        user_id,
                        old(self).user_agent@,
                        old(self).reconnect_tries,
                    ));
                    assert(spec_fresh_from(
                        self.nodes@[last]@,
                        all,
                        user_id,
                        old(self).user_agent@,
                        old(self).reconnect_tries,
                    ));
                } else {
                    assert(self.spec_has_node(this.name@));
                }
                // names registered earlier stay present: prior indices are
                // unchanged whether or not a node was appended
                assert forall|k: int| 0 <= k < done + 1 implies self.spec_has_node(
                    #[trigger] all[k].name@,
                ) by {
                    if k < done {
                        let i = choose|i: int|
                            0 <= i < nodes_before.len() && #[trigger] nodes_before[i]@.name
                                == all[k].name@;
                        assert(self.nodes@[i]@.name == all[k].name@);
                    }
                }
                // the fleet's states fold by one more registration step
                let ua = old(self).user_agent@;
                let tries = old(self).reconnect_tries;
                assert(all.take(done + 1) =~= all.take(done).push(all[done]));
                lemma_after_start_push(
                    spec_views(old(self).nodes@),
                    all.take(done),
                    all[done],
                    user_id,
                    ua,
                    tries,
                );
                if added {
                    if spec_names_contain(spec_views(nodes_before), this.name@) {
                        let i = choose|i: int|
                            0 <= i < spec_views(nodes_before).len() && (#[trigger] spec_views(
                                nodes_before,
                            )[i]).name == this.name@;
                        assert(nodes_before[i]@.name == this.name@);
                        assert(false);
                    }
                    let last = self.nodes@.len() - 1;
                    assert(self.nodes@[last]@ == spec_fresh_view(this, user_id, ua, tries));
                    assert(spec_views(self.nodes@) =~= spec_views(nodes_before).push(
                        self.nodes@[last]@,
                    ));
                } else {
                    let i = choose|i: int|
                        0 <= i < nodes_before.len() && #[trigger] nodes_before[i]@.name
                            == this.name@;
                    assert((spec_views(nodes_before)[i]).name == this.name@);
                    assert(spec_names_contain(spec_views(nodes_before), this.name@));
                    assert(spec_views(self.nodes@) =~= spec_views(nodes_before));
                }
                assert(data@ =~= all.skip(done + 1));
                done = done + 1;
            }
        }
        proof {
            assert(done == all.len());
            assert(all.take(done) =~= all);
            assert(forall|k: int|
                0 <= k < nodes_data@.len() ==> self.spec_has_node(#[trigger] nodes_data@[k].name@));
        }
    }

    /// The name of the node carrying the least load penalty — the true
    /// minimum over the fleet, the earliest node on a tie — or the
    /// dedicated error on an empty fleet.
    pub fn get_ideal_node(&self) -> (r: Result<String, AnchorageError>)
        ensures
            self.nodes@.len() == 0 <==> r == Result::<String, AnchorageError>::Err(
                AnchorageError::NoNodesAvailable,
            ),
            self.nodes@.len() > 0 ==> (r matches Ok(name) && exists|i: int|
                0 <= i < self.nodes@.len() && #[trigger] self.nodes@[i]@.name == name@ && (
                forall|j: int|
                    0 <= j < self.nodes@.len() ==> self.nodes@[i]@.penalties
                        <= #[trigger] self.nodes@[j]@.penalties) && (forall|j: int|
                    0 <= j < i ==> #[trigger] self.nodes@[j]@.penalties
                        > self.nodes@[i]@.penalties)),
    {
        let n = self.nodes.len();
        if n == 0 {
            return Err(AnchorageError::NoNodesAvailable);
        }
        let mut best: usize = 0;
        let mut i: usize = 1;
        while i < n
            invariant
                0 <= best < i <= n,
                n == self.nodes@.len(),
                forall|j: int|
                    0 <= j < i ==> self.nodes@[best as int]@.penalties
                        <= #[trigger] self.nodes@[j]@.penalties,
                forall|j: int|
                    0 <= j < best ==> #[trigger] self.nodes@[j]@.penalties
                        > self.nodes@[best as int]@.penalties,
            decreases n - i,
        {
            if self.nodes[i].penalties < self.nodes[best].penalties {
                best = i;
            }
            i = i + 1;
        }
        let name = self.nodes[best].name.clone();
        proof {
            assert(self.nodes@[best as int]@.name == name@);
        }
        Ok(name)
    }

    /// Index of the first node holding a subscription for this tenant.
    pub fn get_node_for_player(&self, guild_id: u64) -> (r: Option<usize>)
        ensures
            match r {
                Some(i) => i < self.nodes@.len() && self.nodes@[i as int].has_sub(guild_id) && (
                forall|j: int| 0 <= j < i ==> !#[trigger] self.nodes@[j].has_sub(guild_id)),
                None => forall|j: int|
                    0 <= j < self.nodes@.len() ==> !#[trigger] self.nodes@[j].has_sub(guild_id),
            },
    {
        let n = self.nodes.len();
        let mut i: usize = 0;
        while i < n
            invariant
                0 <= i <= n,
                n == self.nodes@.len(),
                forall|j: int| 0 <= j < i ==> !#[trigger] self.nodes@[j].has_sub(guild_id),
            decreases n - i,
        {
            if self.nodes[i].has_subscription(guild_id) {
                return Some(i);
            }
            i = i + 1;
        }
        None
    }

    /// Creates a player for a tenant on the named node: refused with
    /// `CreateExistingPlayer` when any node already holds the tenant,
    /// otherwise the tenant's subscription is registered on that node — and
    /// on it alone — and the player plus the receiving end of its event
    /// channel are returned.
    pub fn create_player(&mut self, guild_id: u64, node: &String) -> (r: Result<
        (Player, flume::Receiver<EventType>),
        AnchorageError,
    >)
        requires
            old(self).wf(),
            old(self).spec_has_node(node@),
        ensures
            final(self).wf(),
            final(self).user_agent == old(self).user_agent,
            final(self).reconnect_tries == old(self).reconnect_tries,
            old(self).spec_has_player(guild_id) ==> (r matches Err(e) && e
                == AnchorageError::CreateExistingPlayer && final(self).nodes@ == old(
                self,
            ).nodes@),
            !old(self).spec_has_player(guild_id) ==> (r matches Ok(pr) && pr.0.guild_id == guild_id
                && pr.0.node == *node && final(self).nodes@.len() == old(self).nodes@.len() && (
            exists|i: int|
                0 <= i < old(self).nodes@.len() && #[trigger] old(self).nodes@[i]@.name == node@
                    && final(self).nodes@[i]@ == (ManagerView {
                    subs: old(self).nodes@[i]@.subs.push(guild_id),
                    ..old(self).nodes@[i]@
                }) && (forall|j: int|
                    0 <= j < old(self).nodes@.len() && j != i ==> final(self).nodes@[j] == old(
                        self,
                    ).nodes@[j]))),
    {
        match self.get_node_for_player(guild_id) {
            Some(_) => Err(AnchorageError::CreateExistingPlayer),
            None => {
                let idx = match self.find_node(node) {
                    Some(i) => i,
                    None => {
                        // unreachable: a caller must hand a registered name
                        proof {
                            let w = choose|i: int|
                                0 <= i < self.nodes@.len() && #[trigger] self.nodes@[i]@.name
                                    == node@;
                            assert(false);
                        }
                        return Err(AnchorageError::NoNodesAvailable);
                    },
                };
                let (sender, receiver) = flume::unbounded::<EventType>();
                self.nodes[idx].subscribe(guild_id, sender);
                proof {
                    assert forall|a: int, b: int, g: u64|
                        0 <= a < self.nodes@.len() && 0 <= b < self.nodes@.len() && a != b
                            implies !(#[trigger] self.nodes@[a].has_sub(g)
                        && #[trigger] self.nodes@[b].has_sub(g)) by {
                        if self.nodes@[a].has_sub(g) && self.nodes@[b].has_sub(g) {
                            if a != idx && b != idx {
                                assert(old(self).nodes@[a].has_sub(g));
                                assert(old(self).nodes@[b].has_sub(g));
                            } else {
                                let other = if a == idx {
                                    b
                                } else {
                                    a
                                };
                                assert(old(self).nodes@[other].has_sub(g));
                                assert(self.nodes@[idx as int]@.subs == old(
                                    self,
                                ).nodes@[idx as int]@.subs.push(guild_id));
                                if g == guild_id {
                                    assert(!old(self).spec_has_player(guild_id));
                                } else {
                                    assert(old(self).nodes@[idx as int].has_sub(g));
                                }
                            }
                        }
                    }
                    assert(self.wf());
                }
                Ok((Player::new(guild_id, node.clone()), receiver))
            },
        }
    }

    /// First step of destroying a player: the request that must be issued
    /// against the owning node, or nothing when no node owns the tenant
    /// (destroying an unknown player is a no-op), or `NoSessionId` when the
    /// owning node has no session yet. The registry itself does not change;
    /// `destroy_player_finish` completes the removal once the request went
    /// through.
    pub fn destroy_player_begin(&self, guild_id: u64) -> (r: Result<
        Option<HttpRequest>,
        AnchorageError,
    >)
        requires
            self.wf(),
        ensures
            !self.spec_has_player(guild_id) <==> r == Result::<
                Option<HttpRequest>,
                AnchorageError,
            >::Ok(None),
            self.spec_has_player(guild_id) ==> exists|i: int|
                0 <= i < self.nodes@.len() && #[trigger] self.nodes@[i].has_sub(guild_id) && (
                match self.nodes@[i]@.session_id {
                    None => r == Result::<Option<HttpRequest>, AnchorageError>::Err(
                        AnchorageError::LavalinkRest(LavalinkRestError::NoSessionId),
                    ),
                    Some(sid) => r matches Ok(Some(req)) && req.method is Delete && req.url@
                        == self.nodes@[i]@.rest_url + "/sessions/"@ + sid + "/players/"@
                        + spec_u64_digits(guild_id as int) && req.query@.len() == 0
                        && spec_base_headers(
                        req.headers@,
                        self.nodes@[i]@.auth,
                        self.nodes@[i]@.user_agent,
                    ) && req.body is None,
                }),
    {
        let idx = match self.get_node_for_player(guild_id) {
            Some(i) => i,
            None => {
                return Ok(None);
            },
        };
        proof {
            assert(self.nodes@[idx as int].wf());
        }
        let node = &self.nodes[idx];
        let r: Result<Option<HttpRequest>, AnchorageError> = match node.rest.destroy_player(
            &node.session_id,
            guild_id,
        ) {
            Ok(req) => Ok(Some(req)),
            Err(e) => Err(AnchorageError::LavalinkRest(e)),
        };
        proof {
            assert(self.nodes@[idx as int].has_sub(guild_id));
        }
        r
    }

    /// Second step of destroying a player: sends the terminal `Destroyed`
    /// marker on the tenant's subscription and removes it. Without an
    /// owning node nothing changes — destroying twice is a no-op.
    pub fn destroy_player_finish(&mut self, guild_id: u64) -> (removed: bool)
        requires
            old(self).wf(),
        ensures
            final(self).wf(),
            final(self).user_agent == old(self).user_agent,
            final(self).reconnect_tries == old(self).reconnect_tries,
            removed == old(self).spec_has_player(guild_id),
            !removed ==> final(self).nodes@ == old(self).nodes@,
            final(self).nodes@.len() == old(self).nodes@.len(),
            forall|g: u64|
                #[trigger] final(self).spec_has_player(g) == (old(self).spec_has_player(g) && g
                    != guild_id),
            removed ==> exists|i: int|
                0 <= i < old(self).nodes@.len() && #[trigger] old(self).nodes@[i].has_sub(
                    guild_id,
                ) && final(self).nodes@[i]@ == (ManagerView {
                    subs: final(self).nodes@[i]@.subs,
                    ..old(self).nodes@[i]@
                }) && (forall|x: u64|
                    #[trigger] final(self).nodes@[i].has_sub(x) == (old(self).nodes@[i].has_sub(x)
                        && x != guild_id)) && (forall|j: int|
                    0 <= j < old(self).nodes@.len() && j != i ==> final(self).nodes@[j] == old(
                        self,
                    ).nodes@[j]),
    {
        let idx = match self.get_node_for_player(guild_id) {
            Some(i) => i,
            None => {
                proof {
                    assert forall|g: u64|
                        #[trigger] self.spec_has_player(g) == (self.spec_has_player(g) && g
                            != guild_id) by {
                        if self.spec_has_player(g) && g == guild_id {
                            assert(false);
                        }
                    }
                }
                return false;
            },
        };
        let removed = self.nodes[idx].close_subscription(guild_id);
        proof {
            assert(removed);
            assert forall|a: int, b: int, g: u64|
                0 <= a < self.nodes@.len() && 0 <= b < self.nodes@.len() && a != b implies !(
            #[trigger] self.nodes@[a].has_sub(g) && #[trigger] self.nodes@[b].has_sub(g)) by {
                if self.nodes@[a].has_sub(g) && self.nodes@[b].has_sub(g) {
                    assert(old(self).nodes@[a].has_sub(g));
                    assert(old(self).nodes@[b].has_sub(g));
                }
            }
            assert(self.wf());
            assert forall|g: u64|
                #[trigger] self.spec_has_player(g) == (old(self).spec_has_player(g) && g
                    != guild_id) by {
                if self.spec_has_player(g) {
                    let a = choose|a: int|
                        0 <= a < self.nodes@.len() && #[trigger] self.nodes@[a].has_sub(g);
                    assert(old(self).nodes@[a].has_sub(g));
                }
                if old(self).spec_has_player(g) && g != guild_id {
                    let a = choose|a: int|
                        0 <= a < old(self).nodes@.len() && #[trigger] old(self).nodes@[a].has_sub(
                            g,
                        );
                    assert(self.nodes@[a].has_sub(g));
                }
            }
        }
        removed
    }

    /// Disconnects the named node: every one of its subscriptions receives
    /// the terminal marker and is removed, and its reconnect counter resets.
    /// With `destroy` the node is additionally marked destroyed and removed
    /// from the registry. Returns the tenants that were signalled, or
    /// nothing when no node has this name.
    pub fn disconnect(&mut self, name: &String, destroy: bool) -> (r: Option<Vec<u64>>)
        requires
            old(self).wf(),
        ensures
            final(self).wf(),
            final(self).user_agent == old(self).user_agent,
            final(self).reconnect_tries == old(self).reconnect_tries,
            !old(self).spec_has_node(name@) ==> r is None && final(self).nodes@ == old(
                self,
            ).nodes@,
            old(self).spec_has_node(name@) ==> (r matches Some(delivered) && exists|i: int|
                0 <= i < old(self).nodes@.len() && #[trigger] old(self).nodes@[i]@.name == name@
                    && delivered@ == old(self).nodes@[i]@.subs && (if destroy {
                    final(self).nodes@ == old(self).nodes@.remove(i)
                } else {
                    final(self).nodes@.len() == old(self).nodes@.len() && final(self).nodes@[i]@
                        == (ManagerView {
                        subs: Seq::empty(),
                        reconnects: 0,
                        ..old(self).nodes@[i]@
                    }) && (forall|j: int|
                        0 <= j < old(self).nodes@.len() && j != i ==> final(self).nodes@[j]
                            == old(self).nodes@[j])
                })),
    {
        let idx = match self.find_node(name) {
            Some(i) => i,
            None => {
                proof {
                    if self.spec_has_node(name@) {
                        let w = choose|i: int|
                            0 <= i < self.nodes@.len() && #[trigger] self.nodes@[i]@.name
                                == name@;
                        assert(false);
                    }
                }
                return None;
            },
        };
        let delivered = self.nodes[idx].disconnect();
        if destroy {
            let _ = self.nodes[idx].destroy();
            let _ = self.nodes.remove(idx);
            proof {
                let before = old(self).nodes@;
                let after = self.nodes@;
                assert(after =~= before.remove(idx as int));
                assert(forall|a: int|
                    0 <= a < after.len() ==> after[a] == (if a < idx {
                        before[a]
                    } else {
                        before[a + 1]
                    }));
                assert(self.wf());
            }
        } else {
            proof {
                assert forall|a: int, b: int, g: u64|
                    0 <= a < self.nodes@.len() && 0 <= b < self.nodes@.len() && a != b implies !(
                #[trigger] self.nodes@[a].has_sub(g) && #[trigger] self.nodes@[b].has_sub(g)) by {
                    if self.nodes@[a].has_sub(g) && self.nodes@[b].has_sub(g) {
                        assert(a != idx && b != idx);
                        assert(old(self).nodes@[a].has_sub(g));
                        assert(old(self).nodes@[b].has_sub(g));
                    }
                }
                assert(self.wf());
            }
        }
        Some(delivered)
    }
}

} // verus!

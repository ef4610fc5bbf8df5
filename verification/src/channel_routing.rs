//! Per-channel tool routing.
//!
//! Decides which tools, of MCP servers and built-in, are shown and permitted
//! on the channel that a message comes from. Each channel is mapped to a
//! group; a group allows the tools of the servers that it lists, and the
//! built-in tools unless it has a whitelist of them.
use vstd::prelude::*;
use vstd::string::StrSliceExecFns;
use vstd::utf8::{encode_utf8, encode_utf8_first_scalar};

use crate::json::{Json, JsonValue};
use crate::names::{copied, distinct, lists, mapping, names_in, texts, NameSet, StringMap};
use crate::text::{begins_with, joined, joined3, same_text, starts_with};

verus! {

/// The bit in a message's metadata by which a trusted channel adapter says
/// that the message is a direct one.
pub const TRUSTED_DM_METADATA_KEY: &'static str = "channel_routing_dm";

/// A tool as it is described to a model.
#[derive(Debug)]
pub struct ToolDefinition {
    pub name: String,
    pub description: String,
    pub parameters: Json,
}

/// Which channel belongs to which group, and what a group allows.
#[derive(Debug)]
pub struct ChannelRoutingConfig {
    /// The servers that each group allows. A tool named `Server_tool` belongs
    /// to the server `Server`.
    pub groups: StringMap<Vec<String>>,
    /// The built-in tools that a group allows. A group that is not in this
    /// map allows all of them.
    pub builtin_whitelist: StringMap<Vec<String>>,
    /// The group of each channel.
    pub channels: StringMap<String>,
    /// The group of the channels that are not in `channels`.
    pub default_group: String,
    /// What is computed ahead of the groups and the whitelists.
    pub index: RoutingIndex,
}

/// What is computed ahead of a configuration's groups and whitelists.
#[derive(Debug)]
pub struct RoutingIndex {
    /// All servers that any group lists, longest first.
    sorted_prefixes: Vec<String>,
    /// The servers that each group lists, as sets.
    allowed_servers_sets: StringMap<NameSet>,
    /// The whitelists, as sets.
    builtin_whitelist_sets: StringMap<NameSet>,
}

impl RoutingIndex {
    /// The servers that tools are matched against, in that order.
    pub closed spec fn servers(self) -> Seq<Seq<char>> {
        texts(self.sorted_prefixes@)
    }

    /// The servers that each group allows.
    pub closed spec fn allowed(self) -> Map<Seq<char>, Set<Seq<char>>> {
        mapped_sets(self.allowed_servers_sets@)
    }

    /// The built-in tools that each group with a whitelist allows.
    pub closed spec fn whitelisted(self) -> Map<Seq<char>, Set<Seq<char>>> {
        mapped_sets(self.builtin_whitelist_sets@)
    }
}

/// What a configuration says.
#[verifier::ext_equal]
pub struct Routing {
    pub groups: Map<Seq<char>, Seq<Seq<char>>>,
    pub builtin_whitelist: Map<Seq<char>, Seq<Seq<char>>>,
    pub channels: Map<Seq<char>, Seq<char>>,
    pub default_group: Seq<char>,
}

/// The lists that names are mapped to, as texts.
pub open spec fn listed_texts(m: Map<Seq<char>, Vec<String>>) -> Map<Seq<char>, Seq<Seq<char>>> {
    Map::new(|k: Seq<char>| m.contains_key(k), |k: Seq<char>| texts(m[k]@))
}

/// The lists that names are mapped to, as sets.
pub open spec fn as_sets(m: Map<Seq<char>, Seq<Seq<char>>>) -> Map<Seq<char>, Set<Seq<char>>> {
    Map::new(|k: Seq<char>| m.contains_key(k), |k: Seq<char>| m[k].to_set())
}

/// The texts that names are mapped to.
pub open spec fn mapped_texts(m: Map<Seq<char>, String>) -> Map<Seq<char>, Seq<char>> {
    Map::new(|k: Seq<char>| m.contains_key(k), |k: Seq<char>| m[k]@)
}

/// The sets that names are mapped to.
pub open spec fn mapped_sets(m: Map<Seq<char>, NameSet>) -> Map<Seq<char>, Set<Seq<char>>> {
    Map::new(|k: Seq<char>| m.contains_key(k), |k: Seq<char>| m[k]@)
}

impl View for ChannelRoutingConfig {
    type V = Routing;

    open spec fn view(&self) -> Routing {
        Routing {
            groups: listed_texts(self.groups@),
            builtin_whitelist: listed_texts(self.builtin_whitelist@),
            channels: mapped_texts(self.channels@),
            default_group: self.default_group@,
        }
    }
}

impl Routing {
    /// The group that a channel belongs to.
    pub open spec fn group_of(self, channel: Seq<char>) -> Seq<char> {
        if self.channels.contains_key(channel) {
            self.channels[channel]
        } else {
            self.default_group
        }
    }

    /// Whether a channel is mapped to a group that does not exist.
    pub open spec fn lost_channel(self, channel: Seq<char>) -> bool {
        self.channels.contains_key(channel) && !self.groups.contains_key(self.channels[channel])
    }

    /// Whether a whitelist is kept for a group that does not exist.
    pub open spec fn lost_whitelist(self, group: Seq<char>) -> bool {
        self.builtin_whitelist.contains_key(group) && !self.groups.contains_key(group)
    }

    /// Whether every group that is spoken of exists.
    pub open spec fn valid(self) -> bool {
        &&& self.groups.contains_key(self.default_group)
        &&& forall|channel: Seq<char>| !#[trigger] self.lost_channel(channel)
        &&& forall|group: Seq<char>| !#[trigger] self.lost_whitelist(group)
    }

    /// Whether any group lists a server.
    pub open spec fn knows(self, server: Seq<char>) -> bool {
        exists|group: Seq<char>| #[trigger]
            self.groups.contains_key(group) && self.groups[group].contains(server)
    }
}

/// Whether a tool belongs to a server: its name is the server's, an
/// underscore, and more or nothing.
pub open spec fn belongs(tool: Seq<char>, server: Seq<char>) -> bool {
    begins_with(tool, server + "_"@)
}

/// The first of `servers` that a tool belongs to.
pub open spec fn first_server(servers: Seq<Seq<char>>, tool: Seq<char>) -> Option<Seq<char>>
    decreases servers.len(),
{
    if servers.len() == 0 {
        None
    } else if belongs(tool, servers[0]) {
        Some(servers[0])
    } else {
        first_server(servers.drop_first(), tool)
    }
}

/// The number of bytes of a name.
pub open spec fn byte_len(name: Seq<char>) -> nat {
    encode_utf8(name).len()
}

/// Whether the longer of two names, in bytes, stands before the shorter, and
/// no name stands twice.
pub open spec fn longest_first(names: Seq<Seq<char>>) -> bool {
    &&& names.no_duplicates()
    &&& forall|i: int, j: int|
        0 <= i < j < names.len() ==> byte_len(#[trigger] names[i]) >= byte_len(
            #[trigger] names[j],
        )
}

/// The channels whose messages are always direct.
pub open spec fn always_direct(channel: Seq<char>) -> bool {
    ||| channel == "gateway"@
    ||| channel == "cli"@
    ||| channel == "repl"@
    ||| channel == "tui"@
    ||| channel == "http"@
}

/// Whether a message is direct, by its channel and its metadata.
pub open spec fn direct(channel: Seq<char>, metadata: JsonValue) -> bool {
    ||| always_direct(channel)
    ||| metadata.bool_member(TRUSTED_DM_METADATA_KEY@) == Some(true)
    ||| channel == "slack"@ && (metadata.text_member("channel"@) matches Some(id) && begins_with(
        id,
        "D"@,
    ))
    ||| channel == "slack"@ && metadata.text_member("event_type"@) == Some("direct_message"@)
    ||| channel == "telegram"@ && metadata.text_member("chat_type"@) == Some("private"@)
}

impl ChannelRoutingConfig {
    /// The servers that tools are matched against, in that order.
    pub open spec fn servers(self) -> Seq<Seq<char>> {
        self.index.servers()
    }

    /// The servers that each group allows.
    pub open spec fn allowed(self) -> Map<Seq<char>, Set<Seq<char>>> {
        self.index.allowed()
    }

    /// The built-in tools that each group with a whitelist allows.
    pub open spec fn whitelisted(self) -> Map<Seq<char>, Set<Seq<char>>> {
        self.index.whitelisted()
    }

    /// Whether what was computed ahead is what the configuration says now. It
    /// is so from when a configuration is made until its groups or its
    /// whitelists are changed.
    pub open spec fn current(self) -> bool {
        &&& longest_first(self.servers())
        &&& forall|server: Seq<char>| #[trigger]
            self.servers().contains(server) <==> self@.knows(server)
        &&& self.allowed() == as_sets(self@.groups)
        &&& self.whitelisted() == as_sets(self@.builtin_whitelist)
    }

    /// The server that a tool belongs to.
    pub open spec fn server_of(self, tool: Seq<char>) -> Option<Seq<char>> {
        first_server(self.servers(), tool)
    }

    /// The group whose whitelist counts for a group: itself, or the default
    /// group where it does not exist.
    pub open spec fn policy_of(self, group: Seq<char>) -> Seq<char> {
        if self.allowed().contains_key(group) {
            group
        } else {
            self.default_group@
        }
    }

    /// Whether a group permits a tool. A tool of a server is permitted where
    /// the group exists and allows the server; another only if it is built in
    /// and no whitelist is against it.
    pub open spec fn group_permits(
        self,
        group: Seq<char>,
        tool: Seq<char>,
        builtins: Set<Seq<char>>,
    ) -> bool {
        match self.server_of(tool) {
            Some(server) => self.allowed().contains_key(group) && self.allowed()[group].contains(
                server,
            ),
            None => {
                let policy = self.policy_of(group);
                &&& builtins.contains(tool)
                &&& self.whitelisted().contains_key(policy) ==> self.whitelisted()[policy].contains(
                    tool,
                )
            },
        }
    }

    /// Whether a tool may be executed on a channel.
    pub open spec fn permits(
        self,
        channel: Seq<char>,
        tool: Seq<char>,
        builtins: Set<Seq<char>>,
    ) -> bool {
        always_direct(channel) || self.group_permits(self@.group_of(channel), tool, builtins)
    }

    /// Whether a tool is shown to the model for a message.
    pub open spec fn shows(
        self,
        channel: Seq<char>,
        metadata: JsonValue,
        tool: Seq<char>,
        builtins: Set<Seq<char>>,
    ) -> bool {
        direct(channel, metadata) || self.group_permits(
            self@.group_of(channel),
            tool,
            builtins,
        )
    }

    /// Which tool definitions are kept for a message.
    pub open spec fn keeps(
        self,
        channel: Seq<char>,
        metadata: JsonValue,
        builtins: Set<Seq<char>>,
    ) -> spec_fn(ToolDefinition) -> bool {
        |t: ToolDefinition| self.shows(channel, metadata, t.name@, builtins)
    }

    /// A configuration of its parts, with what is computed ahead.
    pub fn from_parts(
        groups: StringMap<Vec<String>>,
        builtin_whitelist: StringMap<Vec<String>>,
        channels: StringMap<String>,
        default_group: String,
    ) -> (r: Self)
        ensures
            r.groups == groups,
            r.builtin_whitelist == builtin_whitelist,
            r.channels == channels,
            r.default_group == default_group,
            r.current(),
    {
        let index = RoutingIndex {
            sorted_prefixes: Vec::new(),
            allowed_servers_sets: StringMap::new(),
            builtin_whitelist_sets: StringMap::new(),
        };
        let mut r = ChannelRoutingConfig {
            groups,
            builtin_whitelist,
            channels,
            default_group,
            index,
        };
        r.precompute_prefixes();
        r
    }

    /// Computes ahead the servers to match against, longest first, and the
    /// lists as sets.
    fn precompute_prefixes(&mut self)
        ensures
            final(self).groups == old(self).groups,
            final(self).builtin_whitelist == old(self).builtin_whitelist,
            final(self).channels == old(self).channels,
            final(self).default_group == old(self).default_group,
            final(self).current(),
    {
        self.index = RoutingIndex {
            sorted_prefixes: servers_of(&self.groups),
            allowed_servers_sets: sets_of(&self.groups),
            builtin_whitelist_sets: sets_of(&self.builtin_whitelist),
        };
        proof {
            let servers = texts(self.index.sorted_prefixes@);
            assert forall|server: Seq<char>| #[trigger]
                self.servers().contains(server) <==> self@.knows(server) by {
                if servers.contains(server) {
                    let group = choose|group: Seq<char>| #[trigger]
                        listed_texts(self.groups@).contains_key(group) && listed_texts(
                            self.groups@,
                        )[group].contains(server);
                    assert(self@.groups.contains_key(group));
                }
            }
        }
    }
}

/// Puts `name` into a list that has the longest first, unless it is there.
fn put_in_order(names: &mut Vec<String>, name: &String)
    requires
        longest_first(texts(old(names)@)),
    ensures
        longest_first(texts(final(names)@)),
        texts(final(names)@).to_set() == texts(old(names)@).to_set().insert(name@),
{
    let ghost before = texts(names@);
    if lists(names, name.as_str()) {
        assert(before.to_set() =~= before.to_set().insert(name@));
        return;
    }
    let size: usize = name.as_str().as_bytes().len();
    let mut at: usize = 0;
    while at < names.len() && names[at].as_str().as_bytes().len() >= size
        invariant
            at <= names.len(),
            size == byte_len(name@),
            before == texts(names@),
            forall|j: int| 0 <= j < at ==> byte_len(#[trigger] before[j]) >= size,
        decreases names.len() - at,
    {
        assert(byte_len(before[at as int]) >= size);
        at = at + 1;
    }
    names.insert(at, name.clone());
    proof {
        let after = texts(names@);
        assert(at < before.len() ==> byte_len(before[at as int]) < size);
        assert(after =~= before.insert(at as int, name@));
        assert(!before.contains(name@));
        assert forall|i: int, j: int| 0 <= i < j < after.len() implies byte_len(
            #[trigger] after[i],
        ) >= byte_len(#[trigger] after[j]) by {
            if i < at {
                assert(after[i] == before[i]);
                if j > at {
                    assert(after[j] == before[j - 1]);
                }
            } else {
                assert(after[j] == before[j - 1]);
                if i > at {
                    assert(after[i] == before[i - 1]);
                } else {
                    assert(byte_len(before[at as int]) < size);
                }
            }
        }
        assert(after.no_duplicates()) by {
            assert forall|i: int, j: int| 0 <= i < j < after.len() implies after[i] != after[j] by {
                if i < at {
                    assert(after[i] == before[i]);
                    if j > at {
                        assert(after[j] == before[j - 1]);
                    }
                } else {
                    assert(after[j] == before[j - 1]);
                    if i > at {
                        assert(after[i] == before[i - 1]);
                    }
                }
            }
        }
        assert(after.to_set() =~= before.to_set().insert(name@)) by {
            assert(after[at as int] == name@);
            assert forall|n: Seq<char>| before.to_set().contains(n) implies after.to_set().contains(
                n,
            ) by {
                let i = choose|i: int| 0 <= i < before.len() && before[i] == n;
                if i < at {
                    assert(after[i] == n);
                } else {
                    assert(after[i + 1] == n);
                }
            }
            assert forall|n: Seq<char>| after.to_set().contains(n) && n
                != name@ implies before.to_set().contains(n) by {
                let i = choose|i: int| 0 <= i < after.len() && after[i] == n;
                if i < at {
                    assert(before[i] == n);
                } else {
                    assert(before[i - 1] == n);
                }
            }
        }
    }
}

/// Whether any of the entries lists a server.
spec fn listed_by(entries: Seq<(String, Vec<String>)>, server: Seq<char>) -> bool {
    exists|i: int|
        0 <= i < entries.len() && names_in((#[trigger] entries[i]).1@).contains(server)
}

/// All servers that any group lists, longest first, each once.
fn servers_of(groups: &StringMap<Vec<String>>) -> (r: Vec<String>)
    ensures
        longest_first(texts(r@)),
        forall|server: Seq<char>| #[trigger]
            texts(r@).contains(server) <==> exists|group: Seq<char>| #[trigger]
                listed_texts(groups@).contains_key(group) && listed_texts(
                    groups@,
                )[group].contains(server),
{
    let mut r: Vec<String> = Vec::new();
    let count: usize = groups.len();
    let ghost entries = groups.listed();
    for i in 0..count
        invariant
            entries == groups.listed(),
            count == entries.len(),
            longest_first(texts(r@)),
            forall|server: Seq<char>| #[trigger]
                texts(r@).to_set().contains(server) <==> listed_by(entries.take(i as int), server),
    {
        let (_, servers) = groups.entry(i);
        let ghost before = texts(r@).to_set();
        for k in 0..servers.len()
            invariant
                longest_first(texts(r@)),
                forall|server: Seq<char>| #[trigger]
                    texts(r@).to_set().contains(server) <==> before.contains(server) || names_in(
                        servers@.take(k as int),
                    ).contains(server),
        {
            let ghost had = texts(r@).to_set();
            put_in_order(&mut r, &servers[k]);
            proof {
                let shorter = texts(servers@.take(k as int));
                let longer = texts(servers@.take(k as int + 1));
                assert(longer =~= shorter.push(servers@[k as int]@));
                assert forall|server: Seq<char>| #[trigger]
                    texts(r@).to_set().contains(server) <==> before.contains(server) || names_in(
                        servers@.take(k as int + 1),
                    ).contains(server) by {
                    assert(texts(r@).to_set().contains(server) <==> had.contains(server) || server
                        == servers@[k as int]@);
                    assert(longer.contains(server) <==> shorter.contains(server) || server
                        == servers@[k as int]@) by {
                        assert(longer[k as int] == servers@[k as int]@);
                        if shorter.contains(server) {
                            let j = choose|j: int| 0 <= j < shorter.len() && shorter[j] == server;
                            assert(longer[j] == server);
                        }
                    }
                }
            }
        }
        proof {
            assert(servers@.take(servers@.len() as int) =~= servers@);
            let longer = entries.take(i as int + 1);
            let shorter = entries.take(i as int);
            assert forall|server: Seq<char>| #[trigger]
                texts(r@).to_set().contains(server) <==> listed_by(longer, server) by {
                if listed_by(shorter, server) {
                    let j = choose|j: int|
                        0 <= j < shorter.len() && names_in((#[trigger] shorter[j]).1@).contains(
                            server,
                        );
                    assert(names_in(longer[j].1@).contains(server));
                }
                if names_in(servers@).contains(server) {
                    assert(names_in(longer[i as int].1@).contains(server));
                }
                if listed_by(longer, server) {
                    let j = choose|j: int|
                        0 <= j < longer.len() && names_in((#[trigger] longer[j]).1@).contains(
                            server,
                        );
                    if j < i {
                        assert(names_in(shorter[j].1@).contains(server));
                    }
                }
            }
        }
    }
    proof {
        groups.lemma_listed();
        assert(entries.take(entries.len() as int) =~= entries);
        assert forall|server: Seq<char>| #[trigger]
            texts(r@).contains(server) <==> exists|group: Seq<char>| #[trigger]
                listed_texts(groups@).contains_key(group) && listed_texts(
                    groups@,
                )[group].contains(server) by {
            assert(texts(r@).contains(server) <==> texts(r@).to_set().contains(server));
            if listed_by(entries, server) {
                let j = choose|j: int|
                    0 <= j < entries.len() && names_in((#[trigger] entries[j]).1@).contains(server);
                assert(listed_texts(groups@).contains_key(entries[j].0@));
                assert(listed_texts(groups@)[entries[j].0@].contains(server));
            }
            if exists|group: Seq<char>| #[trigger]
                listed_texts(groups@).contains_key(group) && listed_texts(
                    groups@,
                )[group].contains(server) {
                let group = choose|group: Seq<char>| #[trigger]
                    listed_texts(groups@).contains_key(group) && listed_texts(
                        groups@,
                    )[group].contains(server);
                assert(groups@.contains_key(group));
                let j = choose|j: int|
                    0 <= j < entries.len() && (#[trigger] entries[j]).0@ == group;
                assert(names_in(entries[j].1@).contains(server));
            }
        }
    }
    r
}

/// The lists that names are mapped to, as sets.
fn sets_of(m: &StringMap<Vec<String>>) -> (r: StringMap<NameSet>)
    ensures
        mapped_sets(r@) == as_sets(listed_texts(m@)),
{
    let mut r: StringMap<NameSet> = StringMap::new();
    let count: usize = m.len();
    let ghost entries = m.listed();
    for i in 0..count
        invariant
            entries == m.listed(),
            count == entries.len(),
            mapped_sets(r@) == as_sets(listed_texts(mapping(entries.take(i as int)))),
    {
        let (name, names) = m.entry(i);
        let ghost before = r@;
        r.insert(name.clone(), NameSet::of(names));
        proof {
            let shorter = entries.take(i as int);
            let longer = entries.take(i as int + 1);
            assert(longer.drop_last() =~= shorter);
            assert(mapping(longer) == mapping(shorter).insert(name@, *names));
            assert(mapped_sets(r@) =~= mapped_sets(before).insert(name@, names_in(names@)));
            assert(as_sets(listed_texts(mapping(longer))) =~= as_sets(
                listed_texts(mapping(shorter)),
            ).insert(name@, names_in(names@)));
        }
    }
    proof {
        m.lemma_listed();
        assert(entries.take(entries.len() as int) =~= entries);
    }
    assert(mapped_sets(r@) =~= as_sets(listed_texts(m@)));
    r
}

/// Whether a channel is one whose messages are always direct.
fn is_always_direct(channel: &str) -> (r: bool)
    ensures
        r == always_direct(channel@),
{
    same_text(channel, "gateway") || same_text(channel, "cli") || same_text(channel, "repl")
        || same_text(channel, "tui") || same_text(channel, "http")
}

impl ChannelRoutingConfig {
    /// Refuses a configuration that speaks of a group that does not exist.
    pub fn validate(&self) -> (r: Result<(), String>)
        ensures
            match r {
                Ok(_) => self@.valid(),
                Err(e) => if !self@.groups.contains_key(self@.default_group) {
                    e@ == "default_group '"@ + self@.default_group + "' not found in groups"@
                } else if exists|channel: Seq<char>| #[trigger] self@.lost_channel(channel) {
                    exists|channel: Seq<char>| #[trigger]
                        self@.lost_channel(channel) && e@ == "channel '"@ + channel
                            + "' maps to group '"@ + self@.channels[channel]
                            + "' which does not exist"@
                } else {
                    exists|group: Seq<char>| #[trigger]
                        self@.lost_whitelist(group) && e@
                            == "builtin_whitelist references group '"@ + group
                            + "' which does not exist"@
                },
            },
    {
        if !self.groups.contains_key(self.default_group.as_str()) {
            return Err(
                joined3("default_group '", self.default_group.as_str(), "' not found in groups"),
            );
        }
        let count: usize = self.channels.len();
        let ghost entries = self.channels.listed();
        proof {
            self.channels.lemma_listed();
        }
        for i in 0..count
            invariant
                self@.groups.contains_key(self@.default_group),
                entries == self.channels.listed(),
                distinct(entries),
                count == entries.len(),
                forall|j: int|
                    0 <= j < entries.len() ==> {
                        &&& self.channels@.contains_key((#[trigger] entries[j]).0@)
                        &&& self.channels@[entries[j].0@] == entries[j].1
                    },
                forall|j: int|
                    0 <= j < i ==> self@.groups.contains_key((#[trigger] entries[j]).1@),
        {
            let (channel, group) = self.channels.entry(i);
            if !self.groups.contains_key(group.as_str()) {
                let head = joined3("channel '", channel.as_str(), "' maps to group '");
                assert(self@.lost_channel(channel@)) by {
                    assert(entries[i as int].0@ == channel@);
                }
                return Err(joined3(head.as_str(), group.as_str(), "' which does not exist"));
            }
        }
        assert forall|channel: Seq<char>| !#[trigger] self@.lost_channel(channel) by {
            if self@.channels.contains_key(channel) {
                let j = choose|j: int|
                    0 <= j < entries.len() && (#[trigger] entries[j]).0@ == channel;
                assert(self@.groups.contains_key(entries[j].1@));
            }
        }
        let count: usize = self.builtin_whitelist.len();
        let ghost entries = self.builtin_whitelist.listed();
        proof {
            self.builtin_whitelist.lemma_listed();
        }
        for i in 0..count
            invariant
                self@.groups.contains_key(self@.default_group),
                forall|channel: Seq<char>| !#[trigger] self@.lost_channel(channel),
                entries == self.builtin_whitelist.listed(),
                count == entries.len(),
                forall|j: int|
                    0 <= j < entries.len() ==> self.builtin_whitelist@.contains_key(
                        (#[trigger] entries[j]).0@,
                    ),
                forall|j: int|
                    0 <= j < i ==> self@.groups.contains_key((#[trigger] entries[j]).0@),
        {
            let (group, _) = self.builtin_whitelist.entry(i);
            if !self.groups.contains_key(group.as_str()) {
                assert(self@.lost_whitelist(group@)) by {
                    assert(entries[i as int].0@ == group@);
                }
                return Err(
                    joined3(
                        "builtin_whitelist references group '",
                        group.as_str(),
                        "' which does not exist",
                    ),
                );
            }
        }
        assert forall|group: Seq<char>| !#[trigger] self@.lost_whitelist(group) by {
            if self@.builtin_whitelist.contains_key(group) {
                let j = choose|j: int|
                    0 <= j < entries.len() && (#[trigger] entries[j]).0@ == group;
                assert(self@.groups.contains_key(entries[j].0@));
            }
        }
        Ok(())
    }

    /// The configuration, if it is valid.
    pub fn accept(self) -> (r: Option<Self>)
        ensures
            r == (if self@.valid() {
                Some(self)
            } else {
                None
            }),
    {
        match self.validate() {
            Ok(_) => Some(self),
            Err(_) => {
                assert(!self@.valid()) by {
                    if self@.groups.contains_key(self@.default_group) {
                        if exists|channel: Seq<char>| #[trigger] self@.lost_channel(channel) {
                        } else {
                            let group = choose|group: Seq<char>| #[trigger]
                                self@.lost_whitelist(group);
                        }
                    }
                }
                None
            },
        }
    }

    /// The group that a channel belongs to.
    pub fn resolve_group(&self, channel: &str) -> (r: &str)
        ensures
            r@ == self@.group_of(channel@),
    {
        match self.channels.get(channel) {
            Some(group) => group.as_str(),
            None => self.default_group.as_str(),
        }
    }

    /// Whether a message is direct, so that no routing applies to it.
    pub fn is_dm(channel: &str, metadata: &Json) -> (r: bool)
        ensures
            r == direct(channel@, metadata@),
    {
        if is_always_direct(channel) {
            return true;
        }
        if let Some(trusted) = metadata.bool_at(TRUSTED_DM_METADATA_KEY) {
            if trusted {
                return true;
            }
        }
        if same_text(channel, "slack") {
            if let Some(id) = metadata.text_at("channel") {
                if starts_with(id, "D") {
                    return true;
                }
            }
            if let Some(kind) = metadata.text_at("event_type") {
                if same_text(kind, "direct_message") {
                    return true;
                }
            }
        }
        if same_text(channel, "telegram") {
            if let Some(kind) = metadata.text_at("chat_type") {
                if same_text(kind, "private") {
                    return true;
                }
            }
        }
        false
    }

    /// The server that a tool belongs to: the first of the known servers,
    /// longest first, whose name and an underscore begin the tool's name.
    pub fn extract_mcp_server<'a>(&self, tool_name: &'a str) -> (r: Option<&'a str>)
        ensures
            match r {
                Some(server) => self.server_of(tool_name@) == Some(server@),
                None => self.server_of(tool_name@) is None,
            },
    {
        let ghost all = texts(self.index.sorted_prefixes@);
        assert(all.skip(0) =~= all);
        for i in 0..self.index.sorted_prefixes.len()
            invariant
                all == texts(self.index.sorted_prefixes@),
                first_server(all, tool_name@) == first_server(all.skip(i as int), tool_name@),
        {
            let server = self.index.sorted_prefixes[i].as_str();
            let prefix = joined(server, "_");
            assert(all.skip(i as int)[0] == server@);
            if starts_with(tool_name, prefix.as_str()) {
                assert(tool_name@.take((server@ + "_"@).len() as int).take(server@.len() as int)
                    =~= server@);
                assert(tool_name@.subrange(0, server@.len() as int) =~= server@);
                return Some(tool_name.substring_char(0, server.unicode_len()));
            }
            assert(all.skip(i as int).drop_first() =~= all.skip(i as int + 1));
        }
        None
    }

    /// Whether a group permits a tool.
    fn permitted_in(&self, group: &str, tool_name: &str, builtin_names: &NameSet) -> (r: bool)
        ensures
            r == self.group_permits(group@, tool_name@, builtin_names@),
    {
        let allowed = self.index.allowed_servers_sets.get(group);
        match self.extract_mcp_server(tool_name) {
            Some(server) => match allowed {
                Some(servers) => servers.contains(server),
                None => false,
            },
            None => {
                if !builtin_names.contains(tool_name) {
                    return false;
                }
                let policy = if allowed.is_some() {
                    group
                } else {
                    self.default_group.as_str()
                };
                match self.index.builtin_whitelist_sets.get(policy) {
                    Some(tools) => tools.contains(tool_name),
                    None => true,
                }
            },
        }
    }

    /// Keeps the tools that are shown to the model for a message, in their
    /// order: all of them for a direct message, and otherwise those that the
    /// channel's group permits.
    pub fn filter_tool_defs(
        &self,
        channel: &str,
        metadata: &Json,
        tools: Vec<ToolDefinition>,
        builtin_names: &NameSet,
    ) -> (r: Vec<ToolDefinition>)
        ensures
            r@ == tools@.filter(self.keeps(channel@, metadata@, builtin_names@)),
            direct(channel@, metadata@) ==> r == tools,
    {
        let ghost keeps = self.keeps(channel@, metadata@, builtin_names@);
        if Self::is_dm(channel, metadata) {
            proof {
                lemma_all_kept(tools@, keeps);
            }
            return tools;
        }
        let group = self.resolve_group(channel);
        let mut kept: Vec<ToolDefinition> = Vec::new();
        proof {
            reveal(Seq::filter);
        }
        for tool in it: tools.into_iter()
            invariant
                it.seq() == tools@,
                keeps == self.keeps(channel@, metadata@, builtin_names@),
                !direct(channel@, metadata@),
                group@ == self@.group_of(channel@),
                kept@ == tools@.take(it.index() as int).filter(keeps),
        {
            proof {
                reveal(Seq::filter);
                let longer = tools@.take(it.index() as int + 1);
                assert(longer.drop_last() =~= tools@.take(it.index() as int));
                assert(longer.last() == tool);
                assert(keeps(tool) == self.group_permits(group@, tool.name@, builtin_names@));
            }
            if self.permitted_in(group, tool.name.as_str(), builtin_names) {
                kept.push(tool);
            }
        }
        assert(tools@.take(tools@.len() as int) =~= tools@);
        kept
    }

    /// Whether a tool may be executed on a channel. There is no metadata to go
    /// by here: only the channels whose messages are always direct go free.
    pub fn is_tool_permitted(
        &self,
        channel: &str,
        tool_name: &str,
        builtin_names: &NameSet,
    ) -> (r: bool)
        ensures
            r == self.permits(channel@, tool_name@, builtin_names@),
    {
        if is_always_direct(channel) {
            return true;
        }
        self.permitted_in(self.resolve_group(channel), tool_name, builtin_names)
    }
}

/// Where all items are kept, filtering changes nothing.
proof fn lemma_all_kept<A>(s: Seq<A>, keeps: spec_fn(A) -> bool)
    requires
        forall|i: int| 0 <= i < s.len() ==> keeps(#[trigger] s[i]),
    ensures
        s.filter(keeps) == s,
    decreases s.len(),
{
    reveal(Seq::filter);
    if s.len() > 0 {
        let before = s.drop_last();
        assert forall|i: int| 0 <= i < before.len() implies keeps(#[trigger] before[i]) by {
            assert(before[i] == s[i]);
        }
        lemma_all_kept(before, keeps);
        assert(keeps(s[s.len() - 1]));
        assert(before.push(s.last()) =~= s);
    }
}

/// Whether two lists hold the same texts in the same order.
fn same_lists(a: &Vec<String>, b: &Vec<String>) -> (r: bool)
    ensures
        r == (texts(a@) == texts(b@)),
{
    if a.len() != b.len() {
        assert(texts(a@).len() != texts(b@).len());
        return false;
    }
    for i in 0..a.len()
        invariant
            a@.len() == b@.len(),
            forall|j: int| 0 <= j < i ==> (#[trigger] a@[j])@ == b@[j]@,
    {
        if !same_text(a[i].as_str(), b[i].as_str()) {
            assert(texts(a@)[i as int] != texts(b@)[i as int]);
            return false;
        }
    }
    assert(texts(a@) =~= texts(b@));
    true
}

/// Whether `b` maps every name of `a` to the same list as `a` does.
fn lists_included(a: &StringMap<Vec<String>>, b: &StringMap<Vec<String>>) -> (r: bool)
    ensures
        r == (forall|k: Seq<char>| #[trigger]
            listed_texts(a@).contains_key(k) ==> listed_texts(b@).contains_key(k) && listed_texts(
                b@,
            )[k] == listed_texts(a@)[k]),
{
    let count: usize = a.len();
    let ghost entries = a.listed();
    proof {
        a.lemma_listed();
    }
    for i in 0..count
        invariant
            entries == a.listed(),
            count == entries.len(),
            forall|j: int|
                0 <= j < entries.len() ==> {
                    &&& a@.contains_key((#[trigger] entries[j]).0@)
                    &&& a@[entries[j].0@] == entries[j].1
                },
            forall|j: int|
                0 <= j < i ==> b@.contains_key((#[trigger] entries[j]).0@) && texts(
                    b@[entries[j].0@]@,
                ) == texts(entries[j].1@),
    {
        let (name, names) = a.entry(i);
        assert(entries[i as int].0@ == name@);
        assert(listed_texts(a@).contains_key(name@));
        match b.get(name.as_str()) {
            Some(others) => {
                if !same_lists(names, others) {
                    assert(listed_texts(b@)[name@] != listed_texts(a@)[name@]);
                    return false;
                }
            },
            None => {
                assert(!listed_texts(b@).contains_key(name@));
                return false;
            },
        }
    }
    assert forall|k: Seq<char>| #[trigger] listed_texts(a@).contains_key(k) implies listed_texts(
        b@,
    ).contains_key(k) && listed_texts(b@)[k] == listed_texts(a@)[k] by {
        let j = choose|j: int| 0 <= j < entries.len() && (#[trigger] entries[j]).0@ == k;
        assert(b@.contains_key(entries[j].0@));
    }
    true
}

/// Whether `b` maps every name of `a` to the same text as `a` does.
fn texts_included(a: &StringMap<String>, b: &StringMap<String>) -> (r: bool)
    ensures
        r == (forall|k: Seq<char>| #[trigger]
            mapped_texts(a@).contains_key(k) ==> mapped_texts(b@).contains_key(k) && mapped_texts(
                b@,
            )[k] == mapped_texts(a@)[k]),
{
    let count: usize = a.len();
    let ghost entries = a.listed();
    proof {
        a.lemma_listed();
    }
    for i in 0..count
        invariant
            entries == a.listed(),
            count == entries.len(),
            forall|j: int|
                0 <= j < entries.len() ==> {
                    &&& a@.contains_key((#[trigger] entries[j]).0@)
                    &&& a@[entries[j].0@] == entries[j].1
                },
            forall|j: int|
                0 <= j < i ==> b@.contains_key((#[trigger] entries[j]).0@) && b@[entries[j].0@]@
                    == entries[j].1@,
    {
        let (name, text) = a.entry(i);
        assert(entries[i as int].0@ == name@);
        assert(mapped_texts(a@).contains_key(name@));
        match b.get(name.as_str()) {
            Some(other) => {
                if !same_text(text.as_str(), other.as_str()) {
                    assert(mapped_texts(b@)[name@] != mapped_texts(a@)[name@]);
                    return false;
                }
            },
            None => {
                assert(!mapped_texts(b@).contains_key(name@));
                return false;
            },
        }
    }
    assert forall|k: Seq<char>| #[trigger] mapped_texts(a@).contains_key(k) implies mapped_texts(
        b@,
    ).contains_key(k) && mapped_texts(b@)[k] == mapped_texts(a@)[k] by {
        let j = choose|j: int| 0 <= j < entries.len() && (#[trigger] entries[j]).0@ == k;
        assert(b@.contains_key(entries[j].0@));
    }
    true
}

/// Configurations are equal if they say the same; what is computed ahead does
/// not count.
impl PartialEq for ChannelRoutingConfig {
    fn eq(&self, other: &Self) -> (r: bool) {
        let r = lists_included(&self.groups, &other.groups) && lists_included(
            &other.groups,
            &self.groups,
        ) && lists_included(&self.builtin_whitelist, &other.builtin_whitelist) && lists_included(
            &other.builtin_whitelist,
            &self.builtin_whitelist,
        ) && texts_included(&self.channels, &other.channels) && texts_included(
            &other.channels,
            &self.channels,
        ) && same_text(self.default_group.as_str(), other.default_group.as_str());
        proof {
            if r {
                assert(self@.groups =~= other@.groups);
                assert(self@.builtin_whitelist =~= other@.builtin_whitelist);
                assert(self@.channels =~= other@.channels);
            }
        }
        r
    }
}

impl vstd::std_specs::cmp::PartialEqSpecImpl for ChannelRoutingConfig {
    open spec fn obeys_eq_spec() -> bool {
        true
    }

    open spec fn eq_spec(&self, other: &Self) -> bool {
        self@ == other@
    }
}

impl Eq for ChannelRoutingConfig {

}

/// Whether the routing that is in force and the one that was loaded say
/// something else, or only one of them is there.
pub open spec fn differs(
    loaded: Option<ChannelRoutingConfig>,
    in_force: Option<ChannelRoutingConfig>,
) -> bool {
    match (loaded, in_force) {
        (Some(a), Some(b)) => a@ != b@,
        (None, None) => false,
        _ => true,
    }
}

impl ChannelRoutingConfig {
    /// Puts the loaded routing into force, and tells whether that changes
    /// anything.
    pub fn reload(in_force: &mut Option<Self>, loaded: Option<Self>) -> (r: bool)
        ensures
            *final(in_force) == loaded,
            r == differs(loaded, *old(in_force)),
    {
        let changed = match (&loaded, &*in_force) {
            (Some(a), Some(b)) => !(a == b),
            (None, None) => false,
            _ => true,
        };
        *in_force = loaded;
        changed
    }
}

/// Reloading what is in force already changes nothing.
pub proof fn law_reload_is_idempotent(config: Option<ChannelRoutingConfig>)
    ensures
        !differs(config, config),
{
}

/// A message that a trusted adapter marked is direct whatever its channel, and
/// on a channel that has no rule of its own nothing else makes it direct.
pub proof fn law_trusted_mark_decides(channel: Seq<char>, metadata: JsonValue)
    ensures
        metadata.bool_member(TRUSTED_DM_METADATA_KEY@) == Some(true) ==> direct(channel, metadata),
        !always_direct(channel) && channel != "slack"@ && channel != "telegram"@ ==> direct(
            channel,
            metadata,
        ) == (metadata.bool_member(TRUSTED_DM_METADATA_KEY@) == Some(true)),
{
}

/// A valid configuration sends every channel to a group that exists.
pub proof fn law_every_channel_has_a_group(routing: Routing, channel: Seq<char>)
    requires
        routing.valid(),
    ensures
        routing.groups.contains_key(routing.group_of(channel)),
{
    assert(!routing.lost_channel(channel));
}

/// For a message that is not direct, a tool is shown exactly if it may be
/// executed; and a tool that may be executed is shown for every message.
pub proof fn law_shown_tools_are_the_permitted_ones(
    config: ChannelRoutingConfig,
    channel: Seq<char>,
    metadata: JsonValue,
    tool: Seq<char>,
    builtins: Set<Seq<char>>,
)
    ensures
        !direct(channel, metadata) ==> config.shows(channel, metadata, tool, builtins)
            == config.permits(channel, tool, builtins),
        config.permits(channel, tool, builtins) ==> config.shows(
            channel,
            metadata,
            tool,
            builtins,
        ),
{
}

/// A tool that belongs to no known server and is not built in is neither shown
/// nor permitted, unless the message is direct.
pub proof fn law_unknown_tools_are_blocked(
    config: ChannelRoutingConfig,
    channel: Seq<char>,
    metadata: JsonValue,
    tool: Seq<char>,
    builtins: Set<Seq<char>>,
)
    requires
        config.current(),
        forall|server: Seq<char>| config@.knows(server) ==> !#[trigger] belongs(tool, server),
        !builtins.contains(tool),
    ensures
        !direct(channel, metadata) ==> !config.shows(channel, metadata, tool, builtins),
        !always_direct(channel) ==> !config.permits(channel, tool, builtins),
{
    lemma_first_server(config.servers(), tool);
}

/// In a group that does not exist no tool of a server is permitted, and
/// built-in tools are subject to the default group's whitelist.
pub proof fn law_unknown_groups_block_servers(
    config: ChannelRoutingConfig,
    group: Seq<char>,
    tool: Seq<char>,
    builtins: Set<Seq<char>>,
)
    requires
        config.current(),
        !config@.groups.contains_key(group),
    ensures
        config.server_of(tool) is Some ==> !config.group_permits(group, tool, builtins),
        config.server_of(tool) is None ==> config.group_permits(group, tool, builtins) == (
        builtins.contains(tool) && (config@.builtin_whitelist.contains_key(
            config@.default_group,
        ) ==> config@.builtin_whitelist[config@.default_group].contains(tool))),
{
}

/// In a group that exists, a tool of a server is permitted exactly if the
/// group lists the server.
pub proof fn law_groups_permit_the_servers_they_list(
    config: ChannelRoutingConfig,
    group: Seq<char>,
    tool: Seq<char>,
    builtins: Set<Seq<char>>,
)
    requires
        config.current(),
        config@.groups.contains_key(group),
    ensures
        config.server_of(tool) matches Some(server) ==> config.group_permits(group, tool, builtins)
            == config@.groups[group].contains(server),
{
}

/// In a group that exists, a built-in tool is permitted exactly if the group
/// has no whitelist or its whitelist lists the tool.
pub proof fn law_whitelists_restrict_builtins(
    config: ChannelRoutingConfig,
    group: Seq<char>,
    tool: Seq<char>,
    builtins: Set<Seq<char>>,
)
    requires
        config.current(),
        config@.groups.contains_key(group),
        config.server_of(tool) is None,
        builtins.contains(tool),
    ensures
        config.group_permits(group, tool, builtins) == (config@.builtin_whitelist.contains_key(
            group,
        ) ==> config@.builtin_whitelist[group].contains(tool)),
{
}

/// What the first matching server of a list is.
proof fn lemma_first_server(servers: Seq<Seq<char>>, tool: Seq<char>)
    ensures
        match first_server(servers, tool) {
            Some(server) => exists|i: int|
                0 <= i < servers.len() && #[trigger] servers[i] == server && belongs(tool, server)
                    && forall|j: int| 0 <= j < i ==> !belongs(tool, #[trigger] servers[j]),
            None => forall|j: int| 0 <= j < servers.len() ==> !belongs(tool, #[trigger] servers[j]),
        },
    decreases servers.len(),
{
    if servers.len() > 0 && !belongs(tool, servers[0]) {
        let rest = servers.drop_first();
        lemma_first_server(rest, tool);
        match first_server(rest, tool) {
            Some(server) => {
                let i = choose|i: int|
                    0 <= i < rest.len() && #[trigger] rest[i] == server && belongs(tool, server)
                        && forall|j: int| 0 <= j < i ==> !belongs(tool, #[trigger] rest[j]);
                assert(servers[i + 1] == server);
                assert forall|j: int| 0 <= j < i + 1 implies !belongs(
                    tool,
                    #[trigger] servers[j],
                ) by {
                    if j > 0 {
                        assert(rest[j - 1] == servers[j]);
                    }
                }
            },
            None => {
                assert forall|j: int| 0 <= j < servers.len() implies !belongs(
                    tool,
                    #[trigger] servers[j],
                ) by {
                    if j > 0 {
                        assert(rest[j - 1] == servers[j]);
                    }
                }
            },
        }
    }
}

/// A tool belongs to the longest known server whose name and an underscore
/// begin its name, and to none if there is no such server.
pub proof fn law_longest_server_wins(config: ChannelRoutingConfig, tool: Seq<char>)
    requires
        config.current(),
    ensures
        match config.server_of(tool) {
            Some(server) => {
                &&& config@.knows(server)
                &&& belongs(tool, server)
                &&& forall|other: Seq<char>|
                    config@.knows(other) && #[trigger] belongs(tool, other) && other != server
                        ==> other.len() < server.len()
            },
            None => forall|other: Seq<char>|
                config@.knows(other) ==> !#[trigger] belongs(tool, other),
        },
{
    let servers = config.servers();
    lemma_first_server(servers, tool);
    match config.server_of(tool) {
        Some(server) => {
            let i = choose|i: int|
                0 <= i < servers.len() && #[trigger] servers[i] == server && belongs(tool, server)
                    && forall|j: int| 0 <= j < i ==> !belongs(tool, #[trigger] servers[j]);
            assert(servers.contains(server));
            assert forall|other: Seq<char>|
                config@.knows(other) && #[trigger] belongs(tool, other) && other
                    != server implies other.len() < server.len() by {
                assert(servers.contains(other));
                let j = choose|j: int| 0 <= j < servers.len() && servers[j] == other;
                assert(j > i);
                if other.len() >= server.len() {
                    lemma_longer_in_bytes(tool, server, other);
                }
            }
        },
        None => {
            assert forall|other: Seq<char>| config@.knows(other) implies !#[trigger] belongs(
                tool,
                other,
            ) by {
                assert(servers.contains(other));
                let j = choose|j: int| 0 <= j < servers.len() && servers[j] == other;
                assert(!belongs(tool, servers[j]));
            }
        },
    }
}

/// Of two servers to which a tool belongs, the one with more characters has
/// more bytes, and with as many they are the same.
proof fn lemma_longer_in_bytes(tool: Seq<char>, a: Seq<char>, b: Seq<char>)
    requires
        belongs(tool, a),
        belongs(tool, b),
        a.len() <= b.len(),
    ensures
        a.len() == b.len() ==> a == b,
        a.len() < b.len() ==> byte_len(a) < byte_len(b),
{
    assert((a + "_"@).take(a.len() as int) =~= a);
    assert((b + "_"@).take(b.len() as int) =~= b);
    assert(tool.take(b.len() as int) =~= b);
    assert(tool.take(b.len() as int).take(a.len() as int) =~= a);
    lemma_prefix_bytes(b, a.len() as int);
}

/// A part of a name that is shorter has fewer bytes.
proof fn lemma_prefix_bytes(name: Seq<char>, n: int)
    requires
        0 <= n <= name.len(),
    ensures
        n < name.len() ==> byte_len(name.take(n)) < byte_len(name),
    decreases name.len(),
{
    if n < name.len() {
        encode_utf8_first_scalar(name);
        if n > 0 {
            assert(name.take(n).drop_first() =~= name.drop_first().take(n - 1));
            lemma_prefix_bytes(name.drop_first(), n - 1);
        }
    }
}

/// Configurations that say the same route alike.
pub proof fn law_equal_configurations_route_alike(
    first: ChannelRoutingConfig,
    second: ChannelRoutingConfig,
    channel: Seq<char>,
    metadata: JsonValue,
    tool: Seq<char>,
    builtins: Set<Seq<char>>,
)
    requires
        first.current(),
        second.current(),
        first@ == second@,
    ensures
        first.server_of(tool) == second.server_of(tool),
        first.permits(channel, tool, builtins) == second.permits(channel, tool, builtins),
        first.shows(channel, metadata, tool, builtins) == second.shows(
            channel,
            metadata,
            tool,
            builtins,
        ),
{
    law_longest_server_wins(first, tool);
    law_longest_server_wins(second, tool);
}

/// Filtering twice is filtering once.
pub proof fn law_filtering_is_idempotent(
    config: ChannelRoutingConfig,
    channel: Seq<char>,
    metadata: JsonValue,
    tools: Seq<ToolDefinition>,
    builtins: Set<Seq<char>>,
)
    ensures
        ({
            let keeps = config.keeps(channel, metadata, builtins);
            tools.filter(keeps).filter(keeps) == tools.filter(keeps)
        }),
{
    let keeps = config.keeps(channel, metadata, builtins);
    assert forall|i: int| 0 <= i < tools.filter(keeps).len() implies keeps(
        #[trigger] tools.filter(keeps)[i],
    ) by {
        tools.lemma_filter_pred(keeps, i);
    }
    lemma_all_kept(tools.filter(keeps), keeps);
}

/// Lists that were cloned hold the same texts.
proof fn lemma_cloned_lists(a: Map<Seq<char>, Vec<String>>, b: Map<Seq<char>, Vec<String>>)
    requires
        a.dom() == b.dom(),
        forall|k: Seq<char>| #[trigger] b.contains_key(k) ==> cloned::<Vec<String>>(a[k], b[k]),
    ensures
        listed_texts(b) == listed_texts(a),
{
    assert forall|k: Seq<char>| #[trigger] listed_texts(b).contains_key(k) implies listed_texts(
        b,
    )[k] == listed_texts(a)[k] by {
        assert(b.contains_key(k));
        assert(texts(b[k]@) =~= texts(a[k]@));
    }
    assert(listed_texts(b) =~= listed_texts(a));
}

/// Sets that were cloned hold the same names.
proof fn lemma_cloned_sets(a: Map<Seq<char>, NameSet>, b: Map<Seq<char>, NameSet>)
    requires
        a.dom() == b.dom(),
        forall|k: Seq<char>| #[trigger] b.contains_key(k) ==> cloned::<NameSet>(a[k], b[k]),
    ensures
        mapped_sets(b) == mapped_sets(a),
{
    assert forall|k: Seq<char>| #[trigger] mapped_sets(b).contains_key(k) implies mapped_sets(
        b,
    )[k] == mapped_sets(a)[k] by {
        assert(b.contains_key(k));
    }
    assert(mapped_sets(b) =~= mapped_sets(a));
}

impl Clone for RoutingIndex {
    fn clone(&self) -> (r: Self)
        ensures
            r.servers() == self.servers(),
            r.allowed() == self.allowed(),
            r.whitelisted() == self.whitelisted(),
    {
        let r = RoutingIndex {
            sorted_prefixes: copied(&self.sorted_prefixes),
            allowed_servers_sets: self.allowed_servers_sets.clone(),
            builtin_whitelist_sets: self.builtin_whitelist_sets.clone(),
        };
        proof {
            lemma_cloned_sets(self.allowed_servers_sets@, r.allowed_servers_sets@);
            lemma_cloned_sets(self.builtin_whitelist_sets@, r.builtin_whitelist_sets@);
        }
        r
    }
}

impl Clone for ChannelRoutingConfig {
    fn clone(&self) -> (r: Self)
        ensures
            r@ == self@,
            r.servers() == self.servers(),
            r.allowed() == self.allowed(),
            r.whitelisted() == self.whitelisted(),
            r.current() == self.current(),
    {
        let r = ChannelRoutingConfig {
            groups: self.groups.clone(),
            builtin_whitelist: self.builtin_whitelist.clone(),
            channels: self.channels.clone(),
            default_group: self.default_group.clone(),
            index: self.index.clone(),
        };
        proof {
            lemma_cloned_lists(self.groups@, r.groups@);
            lemma_cloned_lists(self.builtin_whitelist@, r.builtin_whitelist@);
            assert(mapped_texts(r.channels@) =~= mapped_texts(self.channels@));
        }
        r
    }
}

impl Clone for ToolDefinition {
    fn clone(&self) -> (r: Self)
        ensures
            r.name@ == self.name@,
            r.description@ == self.description@,
            r.parameters@ == self.parameters@,
    {
        ToolDefinition {
            name: self.name.clone(),
            description: self.description.clone(),
            parameters: self.parameters.clone(),
        }
    }
}

/// What it is to belong to a server, character by character.
proof fn lemma_belongs(tool: Seq<char>, server: Seq<char>)
    ensures
        belongs(tool, server) <==> {
            &&& tool.len() > server.len()
            &&& tool.take(server.len() as int) == server
            &&& tool[server.len() as int] == '_'
        },
{
    reveal_strlit("_");
    let n = server.len() as int;
    let whole = server + "_"@;
    assert(whole.len() == n + 1);
    assert(whole[n] == '_');
    if belongs(tool, server) {
        assert(tool.take(n + 1) == whole);
        assert(tool.take(n + 1)[n] == tool[n]);
        assert(tool.take(n) =~= tool.take(n + 1).take(n));
        assert(whole.take(n) =~= server);
    }
    if tool.len() > n && tool.take(n) == server && tool[n] == '_' {
        assert forall|i: int| 0 <= i < n + 1 implies tool.take(n + 1)[i] == whole[i] by {
            if i < n {
                assert(tool.take(n)[i] == server[i]);
            }
        }
        assert(tool.take(n + 1) =~= whole);
    }
}

/// The server that a tool belongs to is one that some group lists. The tool's
/// name has the server's name in front and an underscore behind that.
pub proof fn law_tools_carry_the_name_of_their_server(
    config: ChannelRoutingConfig,
    tool: Seq<char>,
)
    requires
        config.current(),
    ensures
        config.server_of(tool) matches Some(server) ==> {
            &&& tool.len() > server.len()
            &&& tool.take(server.len() as int) == server
            &&& tool[server.len() as int] == '_'
            &&& exists|group: Seq<char>, k: int|
                config.groups@.contains_key(group) && 0 <= k < config.groups@[group]@.len()
                    && #[trigger] config.groups@[group]@[k]@ == server
        },
{
    law_longest_server_wins(config, tool);
    if let Some(server) = config.server_of(tool) {
        lemma_belongs(tool, server);
        let group = choose|group: Seq<char>| #[trigger]
            config@.groups.contains_key(group) && config@.groups[group].contains(server);
        let listed = config@.groups[group];
        let k = choose|k: int| 0 <= k < listed.len() && listed[k] == server;
        assert(listed == texts(config.groups@[group]@));
        assert(config.groups@[group]@[k]@ == server);
    }
}

/// Where a group lists a server whose name stands in front of the tool's, with
/// an underscore behind it, the tool belongs to a server: that one, or one with
/// a longer name.
pub proof fn law_names_in_front_are_recognised(
    config: ChannelRoutingConfig,
    group: Seq<char>,
    k: int,
    tool: Seq<char>,
)
    requires
        config.current(),
        config.groups@.contains_key(group),
        0 <= k < config.groups@[group]@.len(),
    ensures
        ({
            let server = config.groups@[group]@[k]@;
            tool.len() > server.len() && tool.take(server.len() as int) == server
                && tool[server.len() as int] == '_' ==> (config.server_of(tool) matches Some(found)
                && (found == server || found.len() > server.len()))
        }),
{
    let server = config.groups@[group]@[k]@;
    law_longest_server_wins(config, tool);
    lemma_belongs(tool, server);
    assert(config@.groups.contains_key(group));
    assert(config@.groups[group][k] == server);
    assert(config@.knows(server));
}

/// What a configuration says is what its maps hold, list by list and text by
/// text.
pub proof fn law_configurations_say_what_they_hold(
    config: ChannelRoutingConfig,
    name: Seq<char>,
    k: int,
)
    ensures
        config@.groups.contains_key(name) <==> config.groups@.contains_key(name),
        config.groups@.contains_key(name) ==> config@.groups[name].len()
            == config.groups@[name]@.len(),
        config.groups@.contains_key(name) && 0 <= k < config.groups@[name]@.len()
            ==> config@.groups[name][k] == config.groups@[name]@[k]@,
        config@.builtin_whitelist.contains_key(name) <==> config.builtin_whitelist@.contains_key(
            name,
        ),
        config.builtin_whitelist@.contains_key(name) ==> config@.builtin_whitelist[name].len()
            == config.builtin_whitelist@[name]@.len(),
        config.builtin_whitelist@.contains_key(name) && 0 <= k
            < config.builtin_whitelist@[name]@.len() ==> config@.builtin_whitelist[name][k]
            == config.builtin_whitelist@[name]@[k]@,
        config@.channels.contains_key(name) <==> config.channels@.contains_key(name),
        config.channels@.contains_key(name) ==> config@.channels[name] == config.channels@[name]@,
        config@.default_group == config.default_group@,
{
}

/// A channel that is mapped belongs to the group that it is mapped to, any
/// other to the default group.
pub proof fn law_channels_belong_where_they_are_mapped(routing: Routing, channel: Seq<char>)
    ensures
        routing.channels.contains_key(channel) ==> routing.group_of(channel)
            == routing.channels[channel],
        !routing.channels.contains_key(channel) ==> routing.group_of(channel)
            == routing.default_group,
{
}

/// A configuration is valid exactly if the default group exists, every channel
/// is mapped to a group that does, and every whitelist is for one that does.
pub proof fn law_validity_is_that_groups_exist(routing: Routing)
    ensures
        routing.valid() <==> {
            &&& routing.groups.contains_key(routing.default_group)
            &&& forall|channel: Seq<char>| #[trigger]
                routing.channels.contains_key(channel) ==> routing.groups.contains_key(
                    routing.channels[channel],
                )
            &&& forall|group: Seq<char>| #[trigger]
                routing.builtin_whitelist.contains_key(group) ==> routing.groups.contains_key(group)
        },
{
    if routing.valid() {
        assert forall|channel: Seq<char>| #[trigger]
            routing.channels.contains_key(channel) implies routing.groups.contains_key(
            routing.channels[channel],
        ) by {
            assert(!routing.lost_channel(channel));
        }
        assert forall|group: Seq<char>| #[trigger]
            routing.builtin_whitelist.contains_key(group) implies routing.groups.contains_key(
            group,
        ) by {
            assert(!routing.lost_whitelist(group));
        }
    }
}

/// The channels of the operator are these five, and on them every tool may be
/// executed.
pub proof fn law_operators_may_execute_everything(
    config: ChannelRoutingConfig,
    channel: Seq<char>,
    tool: Seq<char>,
    builtins: Set<Seq<char>>,
)
    ensures
        always_direct(channel) <==> channel == "gateway"@ || channel == "cli"@ || channel == "repl"@ || channel == "tui"@ || channel == "http"@,
        always_direct(channel) ==> config.permits(channel, tool, builtins),
{
}

/// On a channel that is not the operator's, a tool of a server may be executed
/// exactly if the channel's group exists and lists the server.
pub proof fn law_servers_are_permitted_by_listing(
    config: ChannelRoutingConfig,
    channel: Seq<char>,
    tool: Seq<char>,
    server: Seq<char>,
    builtins: Set<Seq<char>>,
)
    requires
        config.current(),
        !always_direct(channel),
        config.server_of(tool) == Some(server),
    ensures
        ({
            let group = if config.channels@.contains_key(channel) {
                config.channels@[channel]@
            } else {
                config.default_group@
            };
            config.permits(channel, tool, builtins) <==> {
                &&& config.groups@.contains_key(group)
                &&& texts(config.groups@[group]@).contains(server)
            }
        }),
{
    let group = config@.group_of(channel);
    assert(config.allowed().contains_key(group) <==> config.groups@.contains_key(group));
    if config.groups@.contains_key(group) {
        assert(config.allowed()[group] == texts(config.groups@[group]@).to_set());
    }
}

/// On a channel that is not the operator's, a tool of no server may be executed
/// exactly if it is built in and, where there is a whitelist for the channel's
/// group, or for the default group where that group does not exist, the
/// whitelist lists it.
pub proof fn law_builtins_are_permitted_by_whitelists(
    config: ChannelRoutingConfig,
    channel: Seq<char>,
    tool: Seq<char>,
    builtins: Set<Seq<char>>,
)
    requires
        config.current(),
        !always_direct(channel),
        config.server_of(tool) is None,
    ensures
        ({
            let group = if config.channels@.contains_key(channel) {
                config.channels@[channel]@
            } else {
                config.default_group@
            };
            let policy = if config.groups@.contains_key(group) {
                group
            } else {
                config.default_group@
            };
            config.permits(channel, tool, builtins) <==> {
                &&& builtins.contains(tool)
                &&& config.builtin_whitelist@.contains_key(policy) ==> texts(
                    config.builtin_whitelist@[policy]@,
                ).contains(tool)
            }
        }),
{
    let group = config@.group_of(channel);
    let policy = config.policy_of(group);
    assert(config.allowed().contains_key(group) <==> config.groups@.contains_key(group));
    assert(config.whitelisted().contains_key(policy) <==> config.builtin_whitelist@.contains_key(
        policy,
    ));
    if config.builtin_whitelist@.contains_key(policy) {
        assert(config.whitelisted()[policy] == texts(
            config.builtin_whitelist@[policy]@,
        ).to_set());
    }
}

/// A message is direct exactly if it comes over a channel of the operator, is
/// marked by a trusted adapter, or is one by the rule of its channel: on Slack
/// an id that begins with `D` or the event of a direct message, on Telegram a
/// private chat.
pub proof fn law_direct_messages_are_told_by_their_marks(channel: Seq<char>, metadata: JsonValue)
    ensures
        direct(channel, metadata) <==> {
            ||| channel == "gateway"@ || channel == "cli"@ || channel == "repl"@ || channel == "tui"@ || channel == "http"@
            ||| metadata.member("channel_routing_dm"@) == Some(JsonValue::Bool(true))
            ||| channel == "slack"@ && (metadata.member("channel"@) matches Some(
                JsonValue::Text(id),
            ) && id.len() > 0 && id[0] == 'D')
            ||| channel == "slack"@ && metadata.member("event_type"@) == Some(
                JsonValue::Text("direct_message"@),
            )
            ||| channel == "telegram"@ && metadata.member("chat_type"@) == Some(
                JsonValue::Text("private"@),
            )
        },
{
    reveal_strlit("D");
    if let Some(JsonValue::Text(id)) = metadata.member("channel"@) {
        if id.len() > 0 {
            assert(id.take(1)[0] == id[0]);
            assert(id[0] == 'D' ==> id.take(1) =~= "D"@);
        }
    }
}

/// For a direct message every tool is shown, and for any other those that may
/// be executed on its channel. A definition is kept exactly if its tool is
/// shown.
pub proof fn law_direct_messages_see_every_tool(
    config: ChannelRoutingConfig,
    channel: Seq<char>,
    metadata: JsonValue,
    definition: ToolDefinition,
    builtins: Set<Seq<char>>,
)
    ensures
        ({
            let kept = (config.keeps(channel, metadata, builtins))(definition);
            &&& direct(channel, metadata) ==> kept
            &&& !direct(channel, metadata) ==> (kept <==> config.permits(
                channel,
                definition.name@,
                builtins,
            ))
        }),
{
}

/// A reload changes something exactly if routing is put in or taken out of
/// force, or if the groups, the whitelists, the channels or the default group
/// are others.
pub proof fn law_reloads_change_what_differs(a: ChannelRoutingConfig, b: ChannelRoutingConfig)
    ensures
        differs(Some(a), None),
        differs(None, Some(b)),
        !differs(None, None),
        differs(Some(a), Some(b)) <==> a@.groups != b@.groups || a@.builtin_whitelist
            != b@.builtin_whitelist || a@.channels != b@.channels || a.default_group@
            != b.default_group@,
{
}

/// The servers are matched longest first, and each once: of two that stand in
/// the list, the earlier has no fewer bytes.
pub proof fn law_servers_stand_longest_first(config: ChannelRoutingConfig, i: int, j: int)
    requires
        config.current(),
        0 <= i < j < config.servers().len(),
    ensures
        encode_utf8(config.servers()[i]).len() >= encode_utf8(config.servers()[j]).len(),
        config.servers()[i] != config.servers()[j],
{
    assert(byte_len(config.servers()[i]) >= byte_len(config.servers()[j]));
}

}

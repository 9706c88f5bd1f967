//! The tool-server registry: discovery results from every configured tool
//! server are merged into one published catalog, with every tool name
//! namespaced as `<server-id>__<local-name>` so the catalog is unique
//! registry-wide, and `resolve` recovers the owning server and the local
//! name from a namespaced name.
//!
//! Connecting to servers and querying them is network work done outside the
//! crate; [`ToolManager::install`] receives the per-server results and
//! replaces the connection list and the tool list in one step, so readers
//! never see a partially updated catalog.

use vstd::prelude::*;

use crate::models::Tool;
use crate::text::{find_first, has_substr, is_first_occ, occurs_at};

verus! {

/// The namespacing separator between a server id and a local tool name.
pub open spec fn sep() -> Seq<char> {
    seq!['_', '_']
}

/// The namespaced form of a local tool name.
pub open spec fn namespaced(server: Seq<char>, local: Seq<char>) -> Seq<char> {
    server + sep() + local
}

/// A server id is safe for namespacing when the separator cannot leak into
/// or out of it: it holds no `__` and does not end in `_`.
pub open spec fn valid_server_id(server: Seq<char>) -> bool {
    &&& !has_substr(server, sep())
    &&& (server.len() == 0 || server.last() != '_')
}

/// The mathematical model of a [`Tool`].
#[verifier::ext_equal]
pub struct ToolView {
    pub name: Seq<char>,
    pub description: Seq<char>,
    pub parameters: Seq<char>,
}

impl View for Tool {
    type V = ToolView;

    open spec fn view(&self) -> ToolView {
        ToolView {
            name: self.name@,
            description: self.description@,
            parameters: self.parameters@,
        }
    }
}

/// What one tool server reported at discovery time: its id and its tools
/// under their local names.
#[derive(Debug)]
pub struct ServerCatalog {
    pub server_id: String,
    pub tools: Vec<Tool>,
}

/// The models of a sequence of tools.
pub open spec fn tool_views(ts: Seq<Tool>) -> Seq<ToolView> {
    ts.map_values(|t: Tool| t@)
}

/// One server's tools with their names namespaced by the server's id.
pub open spec fn namespaced_views(server: Seq<char>, ts: Seq<ToolView>) -> Seq<ToolView> {
    ts.map_values(|t: ToolView| ToolView { name: namespaced(server, t.name), ..t })
}

/// The published catalog that a sequence of server reports produces: every
/// server's tools, namespaced, in server order.
pub open spec fn spec_catalog(catalogs: Seq<ServerCatalog>) -> Seq<ToolView>
    decreases catalogs.len(),
{
    if catalogs.len() == 0 {
        Seq::empty()
    } else {
        namespaced_views(catalogs[0].server_id@, tool_views(catalogs[0].tools@)) + spec_catalog(
            catalogs.skip(1),
        )
    }
}

/// The registry: the published namespaced tool catalog and the ids of the
/// servers whose connections it was built from. The two are only ever
/// replaced together, so a resolved server is never stale with respect to
/// the advertised tools.
#[derive(Debug)]
pub struct ToolManager {
    tools: Vec<Tool>,
    servers: Vec<String>,
}

impl ToolManager {
    /// The published catalog.
    pub closed spec fn spec_tools(&self) -> Seq<Tool> {
        self.tools@
    }

    /// The ids of the servers the catalog was built from.
    pub closed spec fn spec_servers(&self) -> Seq<String> {
        self.servers@
    }

    /// An empty registry: no servers, no tools.
    pub fn new() -> (r: Self)
        ensures
            r.spec_tools() == Seq::<Tool>::empty(),
            r.spec_servers() == Seq::<String>::empty(),
    {
        ToolManager { tools: Vec::new(), servers: Vec::new() }
    }

    /// Replace the registry's state with the outcome of one discovery round:
    /// the catalog becomes every reported tool under its namespaced name, and
    /// the server list becomes exactly the reporting servers. A server that
    /// failed to connect is simply absent from `catalogs` and contributes
    /// nothing.
    pub fn install(&mut self, catalogs: Vec<ServerCatalog>)
        ensures
            tool_views(final(self).spec_tools()) == spec_catalog(catalogs@),
            final(self).spec_servers().len() == catalogs@.len(),
            forall|k: int|
                0 <= k < catalogs@.len() ==> final(self).spec_servers()[k]
                    == catalogs@[k].server_id,
    {
        let mut tools: Vec<Tool> = Vec::new();
        let mut servers: Vec<String> = Vec::new();
        let mut i: usize = 0;
        proof {
            assert(catalogs@.take(0int) =~= Seq::<ServerCatalog>::empty());
            assert(tool_views(tools@) =~= spec_catalog(catalogs@.take(0int)));
        }
        while i < catalogs.len()
            invariant
                i <= catalogs@.len(),
                tool_views(tools@) == spec_catalog(catalogs@.take(i as int)),
                servers@.len() == i,
                forall|k: int| 0 <= k < i ==> servers@[k] == catalogs@[k].server_id,
            decreases catalogs@.len() - i,
        {
            let cat = &catalogs[i];
            servers.push(cat.server_id.clone());
            let mut j: usize = 0;
            proof {
                assert(tool_views(cat.tools@).take(0int) =~= Seq::<ToolView>::empty());
                assert(namespaced_views(cat.server_id@, tool_views(cat.tools@).take(0int)) =~= Seq::<
                    ToolView,
                >::empty());
            }
            while j < cat.tools.len()
                invariant
                    j <= cat.tools@.len(),
                    cat == catalogs@[i as int],
                    0 <= i < catalogs@.len(),
                    tool_views(tools@) == spec_catalog(catalogs@.take(i as int)) + namespaced_views(
                        cat.server_id@,
                        tool_views(cat.tools@).take(j as int),
                    ),
                decreases cat.tools@.len() - j,
            {
                let ghost tools0 = tools@;
                let t = &cat.tools[j];
                let named = namespace_name(&cat.server_id, &t.name);
                tools.push(
                    Tool {
                        name: named,
                        description: t.description.clone(),
                        parameters: t.parameters.clone(),
                    },
                );
                proof {
                    let prev = tool_views(cat.tools@).take(j as int);
                    let next = tool_views(cat.tools@).take(j + 1);
                    let newt = tools@.last();
                    assert(tools@ == tools0.push(newt));
                    assert(newt@.name == namespaced(cat.server_id@, cat.tools@[j as int]@.name));
                    assert(newt@ =~= ToolView {
                        name: namespaced(cat.server_id@, cat.tools@[j as int]@.name),
                        ..cat.tools@[j as int]@
                    });
                    assert(next =~= prev.push(cat.tools@[j as int]@));
                    assert(namespaced_views(cat.server_id@, next) =~= namespaced_views(
                        cat.server_id@,
                        prev,
                    ).push(newt@));
                    assert(tool_views(tools@) =~= tool_views(tools0).push(newt@));
                    assert(tool_views(tools@) =~= spec_catalog(catalogs@.take(i as int))
                        + namespaced_views(cat.server_id@, next));
                }
                j += 1;
            }
            proof {
                assert(tool_views(cat.tools@).take(cat.tools@.len() as int) =~= tool_views(
                    cat.tools@,
                ));
                lemma_spec_catalog_snoc(catalogs@.take(i as int), catalogs@[i as int]);
                assert(catalogs@.take(i as int).push(catalogs@[i as int]) =~= catalogs@.take(
                    i + 1,
                ));
            }
            i += 1;
        }
        proof {
            assert(catalogs@.take(catalogs@.len() as int) =~= catalogs@);
        }
        self.tools = tools;
        self.servers = servers;
    }

    /// The published catalog, as a fresh vector.
    pub fn get_tools(&self) -> (r: Vec<Tool>)
        ensures
            r@ == self.spec_tools(),
    {
        let mut r: Vec<Tool> = Vec::new();
        let mut i: usize = 0;
        while i < self.tools.len()
            invariant
                i <= self.tools@.len(),
                r@ == self.tools@.take(i as int),
            decreases self.tools@.len() - i,
        {
            r.push(self.tools[i].clone());
            proof {
                assert(self.tools@.take(i + 1) =~= self.tools@.take(i as int).push(
                    self.tools@[i as int],
                ));
            }
            i += 1;
        }
        proof {
            assert(self.tools@.take(self.tools@.len() as int) =~= self.tools@);
        }
        r
    }

    /// Split a namespaced name at the first `__` and hand back the owning
    /// server's id and the server-local tool name. `None` when the name does
    /// not contain the separator, or when the prefix names no server of the
    /// current catalog: a malformed or stale name is never guessed at.
    pub fn resolve(&self, name: &str) -> (r: Option<(String, String)>)
        ensures
            match r {
                Some((server, local)) => {
                    &&& name@ == namespaced(server@, local@)
                    &&& is_first_occ(name@, sep(), server@.len() as int)
                    &&& exists|k: int|
                        0 <= k < self.spec_servers().len() && self.spec_servers()[k]@ == server@
                },
                None => {
                    ||| !has_substr(name@, sep())
                    ||| exists|i: int|
                        #[trigger] is_first_occ(name@, sep(), i) && (forall|k: int|
                            0 <= k < self.spec_servers().len()
                                ==> self.spec_servers()[k]@ != name@.take(i))
                },
            },
    {
        let seps = "__";
        proof {
            reveal_strlit("__");
            assert(seps@ =~= sep());
        }
        match find_first(name, seps) {
            None => None,
            Some(i) => {
                let len = name.unicode_len();
                let server = name.substring_char(0, i).to_owned();
                let local = name.substring_char(i + 2, len).to_owned();
                proof {
                    assert(sep().len() == 2);
                    assert(name@.subrange(i as int, i + 2) =~= sep());
                    assert(name@ =~= server@ + sep() + local@);
                    assert(server@.len() == i as int);
                    assert(is_first_occ(name@, sep(), server@.len() as int));
                }
                if contains_string(&self.servers, &server) {
                    proof {
                        let k = choose|k: int|
                            0 <= k < self.servers@.len() && self.servers@[k]@ == server@;
                        assert(0 <= k < self.spec_servers().len() && self.spec_servers()[k]@
                            == server@);
                    }
                    Some((server, local))
                } else {
                    proof {
                        assert(server@ == name@.take(i as int));
                    }
                    None
                }
            },
        }
    }
}

/// Whether some element of `v` has the same characters as `s`.
fn contains_string(v: &Vec<String>, s: &String) -> (r: bool)
    ensures
        r == exists|k: int| 0 <= k < v@.len() && v@[k]@ == s@,
{
    let mut i: usize = 0;
    while i < v.len()
        invariant
            i <= v@.len(),
            forall|k: int| 0 <= k < i ==> v@[k]@ != s@,
        decreases v@.len() - i,
    {
        if v[i].eq(s) {
            return true;
        }
        i += 1;
    }
    false
}

/// The namespaced name `<server>__<local>`.
pub fn namespace_name(server: &String, local: &String) -> (r: String)
    ensures
        r@ == namespaced(server@, local@),
{
    let seps = "__";
    proof {
        reveal_strlit("__");
        assert(seps@ =~= sep());
    }
    let base = server.clone().concat(seps);
    base.concat(local.as_str())
}

/// In `<server>__<local>` with a namespacing-safe server id, the first
/// occurrence of the separator is exactly where the server id ends.
pub proof fn lemma_first_sep(server: Seq<char>, local: Seq<char>)
    requires
        valid_server_id(server),
    ensures
        is_first_occ(namespaced(server, local), sep(), server.len() as int),
{
    let full = namespaced(server, local);
    assert(full.subrange(server.len() as int, server.len() as int + 2) =~= sep());
    assert(occurs_at(full, sep(), server.len() as int));
    assert forall|j: int| 0 <= j < server.len() implies !occurs_at(full, sep(), j) by {
        if occurs_at(full, sep(), j) {
            assert(full.subrange(j, j + 2)[0] == full[j]);
            assert(full.subrange(j, j + 2)[1] == full[j + 1]);
            assert(full[j] == '_' && full[j + 1] == '_');
            if j + 1 < server.len() {
                assert(server.subrange(j, j + 2) =~= sep());
                assert(occurs_at(server, sep(), j));
                assert(false);
            } else {
                assert(full[j] == server[j]);
                assert(server.last() == '_');
                assert(false);
            }
        }
    }
}

/// Namespacing is injective on pairs with namespacing-safe server ids.
pub proof fn lemma_namespaced_injective(
    s1: Seq<char>,
    l1: Seq<char>,
    s2: Seq<char>,
    l2: Seq<char>,
)
    requires
        valid_server_id(s1),
        valid_server_id(s2),
        namespaced(s1, l1) == namespaced(s2, l2),
    ensures
        s1 == s2,
        l1 == l2,
{
    lemma_first_sep(s1, l1);
    lemma_first_sep(s2, l2);
    let full = namespaced(s1, l1);
    if s1.len() < s2.len() {
        assert(occurs_at(full, sep(), s1.len() as int));
        assert(false);
    }
    if s2.len() < s1.len() {
        assert(occurs_at(full, sep(), s2.len() as int));
        assert(false);
    }
    assert(s1 =~= full.subrange(0, s1.len() as int));
    assert(s2 =~= full.subrange(0, s2.len() as int));
    assert(l1 =~= full.subrange(s1.len() as int + 2, full.len() as int));
    assert(l2 =~= full.subrange(s2.len() as int + 2, full.len() as int));
}

/// Law: resolving a published namespaced name recovers exactly the server id
/// and local name that produced it. The split that `resolve` guarantees
/// (`is_first_occ` at the returned server's length) pins the pair down.
pub proof fn lemma_resolve_recovers(
    server: Seq<char>,
    local: Seq<char>,
    rs: Seq<char>,
    rl: Seq<char>,
)
    requires
        valid_server_id(server),
        namespaced(rs, rl) == namespaced(server, local),
        is_first_occ(namespaced(rs, rl), sep(), rs.len() as int),
    ensures
        rs == server,
        rl == local,
{
    lemma_first_sep(server, local);
    let full = namespaced(server, local);
    if rs.len() < server.len() {
        assert(occurs_at(full, sep(), rs.len() as int));
        assert(false);
    }
    if server.len() < rs.len() {
        assert(occurs_at(full, sep(), server.len() as int));
        assert(false);
    }
    assert(rs =~= full.subrange(0, rs.len() as int));
    assert(server =~= full.subrange(0, server.len() as int));
    assert(rl =~= full.subrange(rs.len() as int + 2, full.len() as int));
    assert(local =~= full.subrange(server.len() as int + 2, full.len() as int));
}

/// `v` is the catalog entry produced by tool `t` of server `k`.
pub open spec fn entry_from(catalogs: Seq<ServerCatalog>, k: int, t: int, v: ToolView) -> bool {
    &&& 0 <= k < catalogs.len()
    &&& 0 <= t < catalogs[k].tools@.len()
    &&& v == ToolView {
        name: namespaced(catalogs[k].server_id@, catalogs[k].tools@[t]@.name),
        ..catalogs[k].tools@[t]@
    }
}

/// Every position of the published catalog decomposes uniquely into the
/// server and the tool that produced it: position `i` holds tool `t` of
/// server `k`, at offset `t` past the entries of the servers before `k`.
proof fn lemma_catalog_entry_at(catalogs: Seq<ServerCatalog>, i: int) -> (kt: (int, int))
    requires
        0 <= i < spec_catalog(catalogs).len(),
    ensures
        ({
            let (k, t) = kt;
            &&& entry_from(catalogs, k, t, spec_catalog(catalogs)[i])
            &&& i == spec_catalog(catalogs.take(k)).len() + t
        }),
    decreases catalogs.len(),
{
    let head = namespaced_views(catalogs[0].server_id@, tool_views(catalogs[0].tools@));
    if i < head.len() {
        assert(catalogs.take(0int) =~= Seq::<ServerCatalog>::empty());
        assert(spec_catalog(Seq::<ServerCatalog>::empty()) =~= Seq::<ToolView>::empty());
        assert(entry_from(catalogs, 0, i, spec_catalog(catalogs)[i]));
        (0, i)
    } else {
        let rest = catalogs.skip(1);
        let (k, t) = lemma_catalog_entry_at(rest, i - head.len());
        assert(rest[k] == catalogs[k + 1]);
        assert(entry_from(catalogs, k + 1, t, spec_catalog(catalogs)[i]));
        assert(catalogs.take(k + 1)[0] == catalogs[0]);
        assert(catalogs.take(k + 1).skip(1) =~= rest.take(k));
        assert(spec_catalog(catalogs.take(k + 1)) == namespaced_views(
            catalogs[0].server_id@,
            tool_views(catalogs[0].tools@),
        ) + spec_catalog(rest.take(k)));
        (k + 1, t)
    }
}

/// Law: when every server individually reports unique local tool names, the
/// server ids are pairwise distinct and each is namespacing-safe, the
/// published catalog's namespaced names are globally unique.
pub proof fn lemma_catalog_names_unique(catalogs: Seq<ServerCatalog>)
    requires
        forall|k: int|
            0 <= k < catalogs.len() ==> valid_server_id(#[trigger] catalogs[k].server_id@),
        forall|k1: int, k2: int|
            0 <= k1 < k2 < catalogs.len() ==> catalogs[k1].server_id@ != catalogs[k2].server_id@,
        forall|k: int, t1: int, t2: int|
            0 <= k < catalogs.len() && 0 <= t1 < t2 < catalogs[k].tools@.len()
                ==> #[trigger] catalogs[k].tools@[t1]@.name != #[trigger] catalogs[k].tools@[t2]@.name,
    ensures
        forall|i: int, j: int|
            0 <= i < j < spec_catalog(catalogs).len() ==> #[trigger] spec_catalog(catalogs)[i].name
                != #[trigger] spec_catalog(catalogs)[j].name,
{
    let cat = spec_catalog(catalogs);
    assert forall|i: int, j: int| 0 <= i < j < cat.len() implies cat[i].name != cat[j].name by {
        let (k1, t1) = lemma_catalog_entry_at(catalogs, i);
        let (k2, t2) = lemma_catalog_entry_at(catalogs, j);
        if cat[i].name == cat[j].name {
            lemma_namespaced_injective(
                catalogs[k1].server_id@,
                catalogs[k1].tools@[t1]@.name,
                catalogs[k2].server_id@,
                catalogs[k2].tools@[t2]@.name,
            );
            assert(catalogs[k1].server_id@ == catalogs[k2].server_id@);
            assert(k1 == k2);
            assert(t1 != t2 ==> catalogs[k1].tools@[t1]@.name != catalogs[k1].tools@[t2]@.name);
            assert(t1 == t2);
            assert(i == j);
            assert(false);
        }
    }
}

/// Appending one server report extends the published catalog at the end.
proof fn lemma_spec_catalog_snoc(catalogs: Seq<ServerCatalog>, cat: ServerCatalog)
    ensures
        spec_catalog(catalogs.push(cat)) == spec_catalog(catalogs) + namespaced_views(
            cat.server_id@,
            tool_views(cat.tools@),
        ),
    decreases catalogs.len(),
{
    if catalogs.len() == 0 {
        assert(catalogs.push(cat).skip(1) =~= Seq::<ServerCatalog>::empty());
        assert(spec_catalog(Seq::<ServerCatalog>::empty()) =~= Seq::<ToolView>::empty());
        assert(catalogs.push(cat)[0] == cat);
        assert(spec_catalog(catalogs.push(cat)) =~= namespaced_views(
            cat.server_id@,
            tool_views(cat.tools@),
        ));
        assert(spec_catalog(catalogs) + namespaced_views(cat.server_id@, tool_views(cat.tools@))
            =~= namespaced_views(cat.server_id@, tool_views(cat.tools@)));
    } else {
        assert(catalogs.push(cat).skip(1) =~= catalogs.skip(1).push(cat));
        lemma_spec_catalog_snoc(catalogs.skip(1), cat);
        assert(spec_catalog(catalogs.push(cat)) =~= spec_catalog(catalogs) + namespaced_views(
            cat.server_id@,
            tool_views(cat.tools@),
        ));
    }
}

} // verus!

//! The server catalog and the operations that install, update, uninstall
//! and list its servers against the configuration document.
use crate::config::{lemma_entries_map_at, ClientConfig, ClientServerConfig, ServerConfigView};
use crate::error::CoreError;
use crate::resolve::{resolve_command, resolved_command};
use crate::runtime::{Os, RuntimeRecords};
use crate::text::{copy_pairs, pairs_view, same_text, strings_view};
use vstd::prelude::*;

verus! {

/// The descriptive fields that every catalog entry has.
#[derive(Debug)]
pub struct BaseServer {
    pub id: String,
    pub title: String,
    pub description: String,
    pub creator: String,
    pub tags: Vec<String>,
    pub logo_url: String,
    pub rating: u8,
    pub publish_date: String,
}

/// The command template that a catalog entry declares.
#[derive(Debug)]
pub struct CommandInfo {
    pub command: String,
    pub args: Vec<String>,
    /// The default environment as key/value pairs.
    pub env: Vec<(String, String)>,
}

/// A catalog entry as the reconciler reads it.
#[derive(Debug)]
pub struct BackendServer {
    pub base: BaseServer,
    pub command_info: CommandInfo,
}

/// A catalog entry as it is shown, with whether it is installed and the
/// environment it runs with.
#[derive(Debug)]
pub struct FrontendServer {
    pub base: BaseServer,
    pub guide: String,
    pub is_installed: bool,
    pub env: Vec<(String, String)>,
}

/// Whether `i` is the first catalog position with id `id`.
pub open spec fn is_first_match(catalog: Seq<BackendServer>, id: Seq<char>, i: int) -> bool {
    &&& 0 <= i < catalog.len()
    &&& catalog[i].base.id@ == id
    &&& forall|j: int| 0 <= j < i ==> #[trigger] catalog[j].base.id@ != id
}

/// Whether the catalog lists id `id`.
pub open spec fn catalog_has(catalog: Seq<BackendServer>, id: Seq<char>) -> bool {
    exists|i: int| 0 <= i < catalog.len() && #[trigger] catalog[i].base.id@ == id
}

/// The first catalog entry with id `id`.
pub open spec fn catalog_entry(catalog: Seq<BackendServer>, id: Seq<char>) -> BackendServer {
    catalog[choose|i: int| is_first_match(catalog, id, i)]
}

/// The configuration that installing `id` stores: the resolved command of
/// its catalog entry, with `env` if given and else the declared default.
pub open spec fn installed_config(
    catalog: Seq<BackendServer>,
    records: RuntimeRecords,
    os: Os,
    id: Seq<char>,
    env: Option<Seq<(Seq<char>, Seq<char>)>>,
) -> ServerConfigView {
    let info = catalog_entry(catalog, id).command_info;
    let (command, args) = resolved_command(info.command@, strings_view(info.args@), records, os);
    ServerConfigView {
        command,
        args,
        env: match env {
            Some(e) => e,
            None => pairs_view(info.env@),
        },
    }
}

/// The view of an optional environment.
pub open spec fn env_option_view(env: Option<Vec<(String, String)>>) -> Option<
    Seq<(Seq<char>, Seq<char>)>,
> {
    match env {
        Some(e) => Some(pairs_view(e@)),
        None => None,
    }
}

/// The first catalog position with id `id`.
fn find_in_catalog(catalog: &Vec<BackendServer>, id: &str) -> (r: Option<usize>)
    ensures
        match r {
            Some(i) => is_first_match(catalog@, id@, i as int),
            None => !catalog_has(catalog@, id@),
        },
{
    let mut i: usize = 0;
    while i < catalog.len()
        invariant
            i <= catalog@.len(),
            forall|j: int| 0 <= j < i ==> #[trigger] catalog@[j].base.id@ != id@,
        decreases catalog@.len() - i,
    {
        if same_text(catalog[i].base.id.as_str(), id) {
            return Some(i);
        }
        i = i + 1;
    }
    None
}

/// Installs catalog server `server_id` into `config`, resolving its command
/// afresh and overwriting an earlier entry; fails with `NotFound` when the
/// catalog does not list it.
pub fn install_server_function(
    catalog: &Vec<BackendServer>,
    config: &mut ClientConfig,
    records: &RuntimeRecords,
    os: Os,
    server_id: &str,
    env: Option<Vec<(String, String)>>,
) -> (r: Result<bool, CoreError>)
    ensures
        r is Ok <==> catalog_has(catalog@, server_id@),
        r is Ok ==> r == Ok::<bool, CoreError>(true) && final(config)@.servers == old(config)@.servers.insert(
            server_id@,
            installed_config(catalog@, *records, os, server_id@, env_option_view(env)),
        ),
        r is Err ==> (r matches Err(CoreError::NotFound(m)) && m@ == server_id@) && final(config)@
            == old(config)@,
        final(config)@.other_fields == old(config)@.other_fields,
{
    let i = match find_in_catalog(catalog, server_id) {
        Some(i) => i,
        None => {
            return Err(CoreError::NotFound(server_id.to_owned()));
        },
    };
    proof {
        let c = choose|c: int| is_first_match(catalog@, server_id@, c);
        assert(c == i as int);
        assert(catalog_has(catalog@, server_id@)) by {
            assert(catalog@[i as int].base.id@ == server_id@);
        }
    }
    let info = &catalog[i].command_info;
    let (command, args) = resolve_command(&info.command, &info.args, records, os);
    let env = match env {
        Some(e) => e,
        None => copy_pairs(&info.env),
    };
    let entry = ClientServerConfig { command, args, env };
    config.set_server(server_id.to_owned(), entry);
    Ok(true)
}

/// Removes server `server_id` from `config`; removing a server that is not
/// installed changes nothing. Always returns true.
pub fn uninstall_server_function(config: &mut ClientConfig, server_id: &str) -> (r: bool)
    ensures
        r,
        final(config)@.servers == old(config)@.servers.remove(server_id@),
        final(config)@.other_fields == old(config)@.other_fields,
{
    config.remove_server(server_id);
    true
}

/// Sets the environment of server `server_id`: an installed server keeps its
/// command and arguments and gets `env`; one that is not installed is
/// installed with `env`.
pub fn update_server_function(
    catalog: &Vec<BackendServer>,
    config: &mut ClientConfig,
    records: &RuntimeRecords,
    os: Os,
    server_id: &str,
    env: Vec<(String, String)>,
) -> (r: Result<bool, CoreError>)
    ensures
        old(config)@.servers.contains_key(server_id@) ==> r == Ok::<bool, CoreError>(true)
            && final(config)@.servers == old(config)@.servers.insert(
            server_id@,
            ServerConfigView { env: pairs_view(env@), ..old(config)@.servers[server_id@] },
        ),
        !old(config)@.servers.contains_key(server_id@) ==> {
            &&& r is Ok <==> catalog_has(catalog@, server_id@)
            &&& r is Ok ==> r == Ok::<bool, CoreError>(true) && final(config)@.servers
                == old(config)@.servers.insert(
                server_id@,
                installed_config(catalog@, *records, os, server_id@, Some(pairs_view(env@))),
            )
            &&& r is Err ==> (r matches Err(CoreError::NotFound(m)) && m@ == server_id@)
                && final(config)@ == old(config)@
        },
        final(config)@.other_fields == old(config)@.other_fields,
{
    if config.contains_server(server_id) {
        config.set_server_env(server_id, env);
        Ok(true)
    } else {
        install_server_function(catalog, config, records, os, server_id, Some(env))
    }
}

/// Every installed server id with a copy of its environment, each id once.
pub fn get_client_server_config(config: &ClientConfig) -> (r: Vec<(String, Vec<(String, String)>)>)
    ensures
        forall|i: int|
            0 <= i < r@.len() ==> config@.servers.contains_key(#[trigger] r@[i].0@)
                && config@.servers[r@[i].0@].env == pairs_view(r@[i].1@),
        forall|k: Seq<char>|
            #[trigger] config@.servers.contains_key(k) ==> exists|i: int|
                0 <= i < r@.len() && #[trigger] r@[i].0@ == k,
        forall|i: int, j: int|
            0 <= i < r@.len() && 0 <= j < r@.len() && i != j ==> #[trigger] r@[i].0@ != #[trigger] r@[j].0@,
{
    let entries = config.entries();
    let mut r: Vec<(String, Vec<(String, String)>)> = Vec::new();
    let mut i: usize = 0;
    while i < entries.len()
        invariant
            i <= entries@.len(),
            r@.len() == i,
            crate::config::ids_unique(entries@),
            crate::config::entries_map(entries@) == config@.servers,
            forall|j: int|
                0 <= j < i ==> #[trigger] r@[j].0@ == entries@[j].id@ && pairs_view(r@[j].1@)
                    == entries@[j].config.env@.map_values(|p: (String, String)| (p.0@, p.1@)),
        decreases entries@.len() - i,
    {
        let id = entries[i].id.clone();
        let env = copy_pairs(&entries[i].config.env);
        r.push((id, env));
        i = i + 1;
    }
    proof {
        assert forall|i: int| 0 <= i < r@.len() implies config@.servers.contains_key(#[trigger] r@[i].0@)
            && config@.servers[r@[i].0@].env == pairs_view(r@[i].1@) by {
            lemma_entries_map_at(entries@, i);
        }
        assert forall|k: Seq<char>| #[trigger] config@.servers.contains_key(k) implies exists|i: int|
            0 <= i < r@.len() && #[trigger] r@[i].0@ == k by {
            let j = choose|j: int| 0 <= j < entries@.len() && #[trigger] entries@[j].id@ == k;
            assert(r@[j].0@ == k);
        }
    }
    r
}

/// How listing shows catalog entry `c`: as it is, marked installed exactly
/// when `servers` holds its id, and then with the installed environment.
pub open spec fn listed_as(
    c: FrontendServer,
    s: FrontendServer,
    servers: Map<Seq<char>, ServerConfigView>,
) -> bool {
    &&& s.base == c.base
    &&& s.guide == c.guide
    &&& s.is_installed == servers.contains_key(c.base.id@)
    &&& if s.is_installed {
        pairs_view(s.env@) == servers[c.base.id@].env
    } else {
        s.env == c.env
    }
}

/// The catalog with each entry's installed flag and environment taken from
/// the configuration document, in catalog order.
pub fn load_all_frontend_servers(catalog: Vec<FrontendServer>, config: &ClientConfig) -> (r: Vec<
    FrontendServer,
>)
    ensures
        r@.len() == catalog@.len(),
        forall|i: int| 0 <= i < r@.len() ==> listed_as(catalog@[i], #[trigger] r@[i], config@.servers),
{
    let mut servers = catalog;
    let mut i: usize = 0;
    while i < servers.len()
        invariant
            i <= servers@.len(),
            servers@.len() == catalog@.len(),
            forall|j: int| 0 <= j < i ==> listed_as(catalog@[j], #[trigger] servers@[j], config@.servers),
            forall|j: int| i <= j < servers@.len() ==> #[trigger] servers@[j] == catalog@[j],
        decreases servers@.len() - i,
    {
        match config.server_env(servers[i].base.id.as_str()) {
            Some(env) => {
                servers[i].is_installed = true;
                servers[i].env = env;
            },
            None => {
                servers[i].is_installed = false;
            },
        }
        i = i + 1;
    }
    servers
}

/// The entries of `s` that are marked installed, in order.
pub open spec fn installed_only(s: Seq<FrontendServer>) -> Seq<FrontendServer>
    decreases s.len(),
{
    if s.len() == 0 {
        Seq::empty()
    } else if s.last().is_installed {
        installed_only(s.drop_last()).push(s.last())
    } else {
        installed_only(s.drop_last())
    }
}

/// The listed catalog restricted to installed servers.
pub fn load_all_installed_frontend_servers(catalog: Vec<FrontendServer>, config: &ClientConfig) -> (r: Vec<
    FrontendServer,
>)
    ensures
        exists|all: Seq<FrontendServer>|
            {
                &&& all.len() == catalog@.len()
                &&& forall|i: int|
                    0 <= i < all.len() ==> listed_as(catalog@[i], #[trigger] all[i], config@.servers)
                &&& r@ == installed_only(all)
            },
{
    let mut rest = load_all_frontend_servers(catalog, config);
    let ghost all = rest@;
    let mut out: Vec<FrontendServer> = Vec::new();
    while rest.len() > 0
        invariant
            installed_only(rest@) + out@ == installed_only(all),
        decreases rest@.len(),
    {
        let ghost before = rest@;
        let s = rest.pop().unwrap();
        proof {
            assert(before.drop_last() == rest@);
        }
        if s.is_installed {
            proof {
                assert(installed_only(rest@).push(s) + out@ =~= installed_only(rest@) + seq![s].add(out@));
            }
            out.insert(0, s);
            proof {
                assert(out@ =~= seq![s].add(out@.drop_first()));
            }
        }
    }
    assert(installed_only(rest@) + out@ =~= out@);
    out
}

/// After uninstalling a server, listing shows every catalog entry with its
/// id as not installed, and uninstalling it again changes nothing.
pub proof fn law_uninstall_then_list(
    servers: Map<Seq<char>, ServerConfigView>,
    catalog: Seq<FrontendServer>,
    id: Seq<char>,
    listed: Seq<FrontendServer>,
)
    requires
        listed.len() == catalog.len(),
        forall|i: int| 0 <= i < listed.len() ==> listed_as(catalog[i], #[trigger] listed[i], servers.remove(id)),
    ensures
        forall|i: int| 0 <= i < listed.len() && catalog[i].base.id@ == id ==> !(#[trigger] listed[i]).is_installed,
        servers.remove(id).remove(id) == servers.remove(id),
{
    assert(servers.remove(id).remove(id) =~= servers.remove(id));
}

/// Installing a server a second time, after its runtime record changed,
/// leaves the second resolution in the document: installation always
/// resolves the command afresh.
pub proof fn law_reinstall_takes_latest_resolution(
    servers: Map<Seq<char>, ServerConfigView>,
    catalog: Seq<BackendServer>,
    first: RuntimeRecords,
    second: RuntimeRecords,
    os: Os,
    id: Seq<char>,
    env: Option<Seq<(Seq<char>, Seq<char>)>>,
)
    ensures
        servers.insert(id, installed_config(catalog, first, os, id, env)).insert(
            id,
            installed_config(catalog, second, os, id, env),
        ) == servers.insert(id, installed_config(catalog, second, os, id, env)),
{
    assert(servers.insert(id, installed_config(catalog, first, os, id, env)).insert(
        id,
        installed_config(catalog, second, os, id, env),
    ) =~= servers.insert(id, installed_config(catalog, second, os, id, env)));
}

/// Updating an installed server changes its environment and nothing else:
/// its command and arguments, and every other server, stay as they were.
pub proof fn law_update_changes_only_env(
    servers: Map<Seq<char>, ServerConfigView>,
    id: Seq<char>,
    env: Seq<(Seq<char>, Seq<char>)>,
)
    requires
        servers.contains_key(id),
    ensures
        ({
            let after = servers.insert(id, ServerConfigView { env, ..servers[id] });
            &&& after.dom() == servers.dom()
            &&& after[id].command == servers[id].command
            &&& after[id].args == servers[id].args
            &&& after[id].env == env
            &&& forall|k: Seq<char>| k != id && #[trigger] servers.contains_key(k) ==> after[k] == servers[k]
        }),
{
    let after = servers.insert(id, ServerConfigView { env, ..servers[id] });
    assert(after.dom() =~= servers.dom());
}

} // verus!

use mcphub::config::{ClientConfig, ClientServerConfig};
use mcphub::error::CoreError;
use mcphub::resolve::resolve_command;
use mcphub::runtime::{Os, RuntimeRecord, RuntimeRecords, RuntimeSource};
use mcphub::servers::{
    get_client_server_config, install_server_function, load_all_frontend_servers,
    load_all_installed_frontend_servers, uninstall_server_function, update_server_function,
    BackendServer, BaseServer, CommandInfo, FrontendServer,
};

fn s(x: &str) -> String {
    x.to_string()
}

fn base(id: &str) -> BaseServer {
    BaseServer {
        id: s(id),
        title: format!("{} title", id),
        description: s("a server"),
        creator: s("someone"),
        tags: vec![s("tools")],
        logo_url: s("https://example.org/logo.png"),
        rating: 4,
        publish_date: s("2024-12-01"),
    }
}

fn backend(id: &str, command: &str, args: &[&str], env: &[(&str, &str)]) -> BackendServer {
    BackendServer {
        base: base(id),
        command_info: CommandInfo {
            command: s(command),
            args: args.iter().map(|a| s(a)).collect(),
            env: env.iter().map(|(k, v)| (s(k), s(v))).collect(),
        },
    }
}

fn frontend(id: &str) -> FrontendServer {
    FrontendServer { base: base(id), guide: s("read me"), is_installed: false, env: vec![] }
}

fn records(node: (&str, RuntimeSource), uv: (&str, RuntimeSource)) -> RuntimeRecords {
    RuntimeRecords {
        node: RuntimeRecord { path: s(node.0), source: node.1 },
        python_packager: RuntimeRecord { path: s(uv.0), source: uv.1 },
    }
}

fn catalog() -> Vec<BackendServer> {
    vec![
        backend("server-x", "npx", &["server-x-package"], &[("API_KEY", "default")]),
        backend("server-y", "uvx", &["server-y", "--flag"], &[]),
        backend("server-z", "docker", &["run", "image"], &[]),
    ]
}

fn find<'a>(config: &'a ClientConfig, id: &str) -> &'a ClientServerConfig {
    &config.entries().iter().find(|e| e.id == id).expect("installed").config
}

#[test]
fn install_with_managed_node_wraps_npx_in_sh() {
    let recs = records(
        ("/home/u/.node/node-v22.11.0-darwin-arm64", RuntimeSource::Managed),
        ("", RuntimeSource::Unknown),
    );
    let mut config = ClientConfig::empty();
    let r = install_server_function(&catalog(), &mut config, &recs, Os::Posix, "server-x", None);
    assert!(matches!(r, Ok(true)));
    let c = find(&config, "server-x");
    assert_eq!(c.command, "sh");
    assert_eq!(
        c.args,
        vec![
            s("-c"),
            s("PATH=\"/home/u/.node/node-v22.11.0-darwin-arm64:$PATH\" npx server-x-package")
        ]
    );
    assert_eq!(c.env, vec![(s("API_KEY"), s("default"))]);
}

#[test]
fn install_with_system_node_keeps_npx() {
    let recs = records(("/usr/local/bin/node", RuntimeSource::System), ("", RuntimeSource::Unknown));
    let mut config = ClientConfig::empty();
    install_server_function(&catalog(), &mut config, &recs, Os::Posix, "server-x", None).unwrap();
    let c = find(&config, "server-x");
    assert_eq!(c.command, "npx");
    assert_eq!(c.args, vec![s("server-x-package")]);
}

#[test]
fn install_uvx_on_windows_wraps_in_cmd() {
    let recs = records(("", RuntimeSource::Unknown), ("C:\\Users\\u\\AppData\\Local\\uv", RuntimeSource::Managed));
    let mut config = ClientConfig::empty();
    install_server_function(&catalog(), &mut config, &recs, Os::Windows, "server-y", None).unwrap();
    let c = find(&config, "server-y");
    assert_eq!(c.command, "cmd");
    assert_eq!(
        c.args,
        vec![s("/c"), s("set PATH=%PATH%;C:\\Users\\u\\AppData\\Local\\uv && uvx server-y --flag")]
    );
}

#[test]
fn install_with_unknown_node_record_wraps_npx() {
    let recs = records(("", RuntimeSource::Unknown), ("", RuntimeSource::Unknown));
    let mut config = ClientConfig::empty();
    install_server_function(&catalog(), &mut config, &recs, Os::Posix, "server-x", None).unwrap();
    let c = find(&config, "server-x");
    assert_eq!(c.args[1], "PATH=\":$PATH\" npx server-x-package");
}

#[test]
fn other_commands_pass_through() {
    let recs = records(("/n", RuntimeSource::Managed), ("/u", RuntimeSource::Managed));
    let mut config = ClientConfig::empty();
    install_server_function(&catalog(), &mut config, &recs, Os::Posix, "server-z", None).unwrap();
    let c = find(&config, "server-z");
    assert_eq!(c.command, "docker");
    assert_eq!(c.args, vec![s("run"), s("image")]);
}

#[test]
fn resolve_with_no_arguments_keeps_trailing_space() {
    let recs = records(("/n", RuntimeSource::Managed), ("", RuntimeSource::Unknown));
    let (c, a) = resolve_command(&s("npx"), &vec![], &recs, Os::Posix);
    assert_eq!(c, "sh");
    assert_eq!(a, vec![s("-c"), s("PATH=\"/n:$PATH\" npx ")]);
}

#[test]
fn install_override_env_replaces_default() {
    let recs = records(("/n", RuntimeSource::System), ("", RuntimeSource::Unknown));
    let mut config = ClientConfig::empty();
    let env = vec![(s("API_KEY"), s("mine"))];
    install_server_function(&catalog(), &mut config, &recs, Os::Posix, "server-x", Some(env.clone())).unwrap();
    assert_eq!(find(&config, "server-x").env, env);
}

#[test]
fn install_unknown_id_is_not_found() {
    let recs = records(("", RuntimeSource::Unknown), ("", RuntimeSource::Unknown));
    let mut config = ClientConfig::empty();
    let r = install_server_function(&catalog(), &mut config, &recs, Os::Posix, "nope", None);
    match r {
        Err(CoreError::NotFound(id)) => assert_eq!(id, "nope"),
        other => panic!("unexpected {:?}", other),
    }
    assert!(config.entries().is_empty());
}

#[test]
fn reinstall_picks_up_new_runtime_path() {
    let first = records(("/old/node", RuntimeSource::Managed), ("", RuntimeSource::Unknown));
    let second = records(("/new/node", RuntimeSource::Managed), ("", RuntimeSource::Unknown));
    let mut config = ClientConfig::empty();
    install_server_function(&catalog(), &mut config, &first, Os::Posix, "server-x", None).unwrap();
    install_server_function(&catalog(), &mut config, &second, Os::Posix, "server-x", None).unwrap();
    assert_eq!(config.entries().len(), 1);
    assert_eq!(find(&config, "server-x").args[1], "PATH=\"/new/node:$PATH\" npx server-x-package");
}

#[test]
fn update_installed_changes_only_env() {
    let first = records(("/old/node", RuntimeSource::Managed), ("", RuntimeSource::Unknown));
    let second = records(("/new/node", RuntimeSource::Managed), ("", RuntimeSource::Unknown));
    let mut config = ClientConfig::empty();
    install_server_function(&catalog(), &mut config, &first, Os::Posix, "server-x", None).unwrap();
    let before_command = find(&config, "server-x").command.clone();
    let before_args = find(&config, "server-x").args.clone();
    let r = update_server_function(&catalog(), &mut config, &second, Os::Posix, "server-x", vec![(s("TOKEN"), s("abc"))]);
    assert!(matches!(r, Ok(true)));
    let c = find(&config, "server-x");
    assert_eq!(c.command, before_command);
    assert_eq!(c.args, before_args);
    assert_eq!(c.env, vec![(s("TOKEN"), s("abc"))]);
}

#[test]
fn update_not_installed_installs_with_env() {
    let recs = records(("/usr/bin", RuntimeSource::System), ("", RuntimeSource::Unknown));
    let mut config = ClientConfig::empty();
    update_server_function(&catalog(), &mut config, &recs, Os::Posix, "server-y", vec![(s("TOKEN"), s("abc"))]).unwrap();
    let c = find(&config, "server-y");
    assert_eq!(c.command, "sh");
    assert_eq!(c.env, vec![(s("TOKEN"), s("abc"))]);
    let missing = update_server_function(&catalog(), &mut config, &recs, Os::Posix, "nope", vec![]);
    assert!(matches!(missing, Err(CoreError::NotFound(_))));
}

#[test]
fn uninstall_then_list_shows_not_installed() {
    let recs = records(("/n", RuntimeSource::System), ("/u", RuntimeSource::System));
    let mut config = ClientConfig::empty();
    install_server_function(&catalog(), &mut config, &recs, Os::Posix, "server-x", None).unwrap();
    install_server_function(&catalog(), &mut config, &recs, Os::Posix, "server-y", None).unwrap();
    assert!(uninstall_server_function(&mut config, "server-x"));
    let listed = load_all_frontend_servers(vec![frontend("server-x"), frontend("server-y")], &config);
    assert!(!listed[0].is_installed);
    assert!(listed[1].is_installed);
    assert!(uninstall_server_function(&mut config, "server-x"));
    assert_eq!(config.entries().len(), 1);
}

#[test]
fn list_copies_installed_env_and_keeps_catalog_fields() {
    let recs = records(("/n", RuntimeSource::System), ("/u", RuntimeSource::System));
    let mut config = ClientConfig::empty();
    install_server_function(&catalog(), &mut config, &recs, Os::Posix, "server-x", Some(vec![(s("K"), s("V"))])).unwrap();
    let mut shown = frontend("server-z");
    shown.is_installed = true;
    shown.env = vec![(s("A"), s("B"))];
    let listed = load_all_frontend_servers(vec![frontend("server-x"), shown], &config);
    assert_eq!(listed.len(), 2);
    assert!(listed[0].is_installed);
    assert_eq!(listed[0].env, vec![(s("K"), s("V"))]);
    assert_eq!(listed[0].guide, "read me");
    assert_eq!(listed[0].base.title, "server-x title");
    assert!(!listed[1].is_installed);
    assert_eq!(listed[1].env, vec![(s("A"), s("B"))]);
    let installed = load_all_installed_frontend_servers(vec![frontend("server-x"), frontend("server-z")], &config);
    assert_eq!(installed.len(), 1);
    assert_eq!(installed[0].base.id, "server-x");
}

#[test]
fn client_server_config_lists_each_id_with_env() {
    let recs = records(("/n", RuntimeSource::System), ("/u", RuntimeSource::System));
    let mut config = ClientConfig::empty();
    install_server_function(&catalog(), &mut config, &recs, Os::Posix, "server-x", None).unwrap();
    install_server_function(&catalog(), &mut config, &recs, Os::Posix, "server-y", Some(vec![(s("T"), s("1"))])).unwrap();
    let mut pairs = get_client_server_config(&config);
    pairs.sort();
    assert_eq!(
        pairs,
        vec![
            (s("server-x"), vec![(s("API_KEY"), s("default"))]),
            (s("server-y"), vec![(s("T"), s("1"))]),
        ]
    );
}

#[test]
fn operations_keep_unknown_top_level_fields() {
    let other = vec![
        (s("globalShortcut"), serde_json::Value::String(s("Ctrl+Space"))),
        (s("theme"), serde_json::Value::Bool(true)),
    ];
    let recs = records(("/n", RuntimeSource::Managed), ("", RuntimeSource::Unknown));
    let mut config = ClientConfig::new(other.clone());
    install_server_function(&catalog(), &mut config, &recs, Os::Posix, "server-x", None).unwrap();
    update_server_function(&catalog(), &mut config, &recs, Os::Posix, "server-x", vec![]).unwrap();
    uninstall_server_function(&mut config, "server-x");
    assert_eq!(config.other_fields(), &other);
}

#[test]
fn document_parts_round_trip() {
    let other = vec![(s("keep"), serde_json::Value::from(7))];
    let recs = records(("/n", RuntimeSource::Managed), ("/u", RuntimeSource::Managed));
    let mut config = ClientConfig::new(other.clone());
    install_server_function(&catalog(), &mut config, &recs, Os::Posix, "server-x", None).unwrap();
    install_server_function(&catalog(), &mut config, &recs, Os::Posix, "server-y", None).unwrap();
    let before: Vec<(String, String, Vec<String>)> =
        config.entries().iter().map(|e| (e.id.clone(), e.config.command.clone(), e.config.args.clone())).collect();
    let (entries, fields) = config.into_parts();
    let again = ClientConfig::from_parts(entries, fields);
    let after: Vec<(String, String, Vec<String>)> =
        again.entries().iter().map(|e| (e.id.clone(), e.config.command.clone(), e.config.args.clone())).collect();
    assert_eq!(before, after);
    assert_eq!(again.other_fields(), &other);
}

#[test]
fn from_parts_later_entry_wins() {
    let entry = |cmd: &str| mcphub::config::ServerEntry {
        id: s("dup"),
        config: ClientServerConfig { command: s(cmd), args: vec![], env: vec![] },
    };
    let config = ClientConfig::from_parts(vec![entry("first"), entry("second")], vec![]);
    assert_eq!(config.entries().len(), 1);
    assert_eq!(find(&config, "dup").command, "second");
    assert!(config.contains_server("dup"));
    assert!(!config.contains_server("other"));
}

#[test]
fn config_file_locations() {
    assert_eq!(
        mcphub::config::config_file_path(Os::Posix, "/Users/me", "Client", "client_config.json"),
        "/Users/me/Library/Application Support/Client/client_config.json"
    );
    assert_eq!(
        mcphub::config::config_file_path(Os::Windows, "C:\\Users\\me\\AppData\\Roaming", "Client", "client_config.json"),
        "C:\\Users\\me\\AppData\\Roaming\\Client\\client_config.json"
    );
}

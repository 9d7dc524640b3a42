use mcphub::error::CoreError;
use mcphub::shell_env::{ensure_path_entry, proxy_settings, proxy_variable_names, shell_config_file};

const LINE: &str = "export PATH=\"/home/u/.node/node-v22.11.0-darwin-arm64:$PATH\"";

#[test]
fn path_entry_appended_once() {
    let once = ensure_path_entry("alias ll='ls -l'\n", LINE);
    assert_eq!(once, format!("alias ll='ls -l'\n# Added by MCP Hub\n{}\n", LINE));
    let twice = ensure_path_entry(&once, LINE);
    assert_eq!(twice, once);
    assert_eq!(twice.matches(LINE).count(), 1);
}

#[test]
fn path_entry_in_missing_file() {
    assert_eq!(ensure_path_entry("", LINE), format!("# Added by MCP Hub\n{}\n", LINE));
}

#[test]
fn path_entry_after_unterminated_last_line() {
    assert_eq!(ensure_path_entry("export A=1", LINE), format!("export A=1\n# Added by MCP Hub\n{}\n", LINE));
}

#[test]
fn path_entry_found_inside_a_line() {
    let text = format!("# keep\n  {} # mine\n", LINE);
    assert_eq!(ensure_path_entry(&text, LINE), text);
}

#[test]
fn shell_startup_files() {
    assert_eq!(shell_config_file("/bin/zsh", "/home/u").unwrap(), "/home/u/.zshrc");
    assert_eq!(shell_config_file("/usr/local/bin/bash", "/home/u").unwrap(), "/home/u/.bashrc");
    assert_eq!(shell_config_file("zsh", "/Users/me").unwrap(), "/Users/me/.zshrc");
    assert!(matches!(shell_config_file("/usr/bin/fish", "/home/u"), Err(CoreError::Configuration(_))));
    assert!(matches!(shell_config_file("/bin/zsh/", "/home/u"), Err(CoreError::Configuration(_))));
}

#[test]
fn proxy_settings_keep_set_values() {
    assert_eq!(
        proxy_variable_names(),
        vec!["HTTP_PROXY", "HTTPS_PROXY", "ALL_PROXY", "http_proxy", "https_proxy", "all_proxy"]
    );
    let values = vec![
        ("HTTP_PROXY".to_string(), "http://proxy:8080".to_string()),
        ("HTTPS_PROXY".to_string(), String::new()),
        ("all_proxy".to_string(), "socks5://p:1080".to_string()),
    ];
    assert_eq!(
        proxy_settings(&values),
        vec![
            ("HTTP_PROXY".to_string(), "http://proxy:8080".to_string()),
            ("all_proxy".to_string(), "socks5://p:1080".to_string()),
        ]
    );
    assert!(proxy_settings(&vec![]).is_empty());
}

#[test]
fn path_entry_in_file_ending_with_blank_line() {
    let once = ensure_path_entry("a\n\n", LINE);
    assert_eq!(once, format!("a\n\n# Added by MCP Hub\n{}\n", LINE));
    assert_eq!(ensure_path_entry(&once, LINE), once);
}

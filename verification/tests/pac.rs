use symfony_dev_proxy::pac::{create_pac_file, normalize_host, normalize_hosts, render_pac};
use symfony_dev_proxy::pac::{PAC_HEAD, PAC_TAIL};
use symfony_dev_proxy::provider::Mapping;

fn mapping(host: &str, target: &str) -> Mapping {
    Mapping::new(host.to_string(), target.to_string())
}

fn script_around(list: &str) -> String {
    format!(
        "\nfunction FindProxyForURL (url, host) {{ \nlet list = {};\nfor (let i = 0; i < list.length; i++) {{ \n    if (host == list[i]) {{ \n        return 'PROXY localhost:7040';\n    }}\n}}                  \nreturn 'DIRECT';\n}}",
        list
    )
}

#[test]
fn host_on_port_443_is_an_https_origin() {
    assert_eq!(normalize_host("a.test:443"), "https://a.test");
}

#[test]
fn host_on_port_80_is_an_http_origin() {
    assert_eq!(normalize_host("b.test:80"), "http://b.test");
}

#[test]
fn host_without_known_port_is_taken_as_https() {
    assert_eq!(normalize_host("c.test"), "https://c.test");
    assert_eq!(normalize_host("c.test:8080"), "https://c.test:8080");
    assert_eq!(normalize_host("c.test:4430"), "https://c.test:4430");
    assert_eq!(normalize_host("c.test:8"), "https://c.test:8");
}

#[test]
fn only_the_last_port_is_dropped() {
    assert_eq!(normalize_host("a.test:443:80"), "http://a.test:443");
    assert_eq!(normalize_host("a.test:80:443"), "https://a.test:80");
    assert_eq!(normalize_host("a.test:443:443"), "https://a.test:443");
}

#[test]
fn a_bare_port_leaves_an_empty_host() {
    assert_eq!(normalize_host(":443"), "https://");
    assert_eq!(normalize_host(":80"), "http://");
    assert_eq!(normalize_host(""), "https://");
    assert_eq!(normalize_host("443"), "https://443");
}

#[test]
fn hosts_outside_ascii_are_kept() {
    assert_eq!(normalize_host("münchen.test:443"), "https://münchen.test");
    assert_eq!(normalize_host("日本.test:80"), "http://日本.test");
    assert_eq!(normalize_host("日本.test"), "https://日本.test");
}

#[test]
fn hosts_are_normalized_in_table_order() {
    let table = vec![
        mapping("a.test:443", "x"),
        mapping("b.test:80", "y"),
        mapping("c.test", "z"),
        mapping("a.test:443", "w"),
    ];
    assert_eq!(
        normalize_hosts(&table),
        vec!["https://a.test", "http://b.test", "https://c.test", "https://a.test"]
    );
    assert_eq!(normalize_hosts(&Vec::new()), Vec::<String>::new());
}

#[test]
fn the_script_is_the_fixed_text_around_the_list() {
    assert_eq!(render_pac("[]"), script_around("[]"));
    assert_eq!(render_pac("[\"https://a.test\"]"), script_around("[\"https://a.test\"]"));
    assert_eq!(render_pac(""), format!("{}{}", PAC_HEAD, PAC_TAIL));
}

#[test]
fn script_for_an_https_host() {
    let script = create_pac_file(&vec![mapping("a.test:443", "x")]);
    assert!(script.contains("\"https://a.test\""));
    assert_eq!(script, script_around("[\"https://a.test\"]"));
}

#[test]
fn script_for_an_http_host() {
    let script = create_pac_file(&vec![mapping("b.test:80", "y")]);
    assert!(script.contains("\"http://b.test\""));
    assert_eq!(script, script_around("[\"http://b.test\"]"));
}

#[test]
fn script_for_a_host_without_port() {
    let script = create_pac_file(&vec![mapping("c.test", "z")]);
    assert!(script.contains("\"https://c.test\""));
    assert_eq!(script, script_around("[\"https://c.test\"]"));
}

#[test]
fn script_for_an_empty_table_has_an_empty_list() {
    let script = create_pac_file(&Vec::new());
    assert_eq!(script, script_around("[]"));
    assert!(script.contains("let list = [];"));
}

#[test]
fn script_lists_the_hosts_in_table_order() {
    let table = vec![
        mapping("b.test:80", "127.0.0.1:8001"),
        mapping("a.test:443", "127.0.0.1:8000"),
        mapping("c.test", "127.0.0.1:8002"),
    ];
    assert_eq!(
        create_pac_file(&table),
        script_around("[\"http://b.test\",\"https://a.test\",\"https://c.test\"]")
    );
}

#[test]
fn script_is_the_same_on_every_run() {
    let table = vec![mapping("a.test:443", "x"), mapping("b.test:80", "y")];
    let first = create_pac_file(&table);
    let second = create_pac_file(&table);
    assert_eq!(first.as_bytes(), second.as_bytes());
    assert_eq!(first.as_bytes(), create_pac_file(&table.clone()).as_bytes());
}

#[test]
fn script_does_not_depend_on_targets() {
    let left = vec![mapping("a.test:443", "x"), mapping("b.test:80", "y")];
    let right = vec![mapping("a.test:443", "127.0.0.1:1"), mapping("b.test:80", "127.0.0.1:2")];
    assert_eq!(create_pac_file(&left), create_pac_file(&right));
}

#[test]
fn script_sends_routed_hosts_to_the_proxy() {
    let script = create_pac_file(&vec![mapping("a.test:443", "x")]);
    assert!(script.starts_with("\nfunction FindProxyForURL (url, host) { \n"));
    assert!(script.contains("return 'PROXY localhost:7040';"));
    assert!(script.ends_with("return 'DIRECT';\n}"));
}

#[test]
fn hosts_are_written_as_json_strings() {
    let script = create_pac_file(&vec![mapping("a\"b\\c.test:443", "x"), mapping("tab\there", "y")]);
    assert_eq!(
        script,
        script_around("[\"https://a\\\"b\\\\c.test\",\"https://tab\\there\"]")
    );
    let script = create_pac_file(&vec![mapping("münchen.test:80", "x")]);
    assert_eq!(script, script_around("[\"http://münchen.test\"]"));
}

use glossa::popclip::{config_yaml, EXTENSION_DIR_NAME};

#[test]
fn config_yaml_carries_the_configured_port() {
    assert!(config_yaml(9001).contains("127.0.0.1:9001/lookup"));
}

#[test]
fn config_yaml_has_an_identifier_so_reinstall_overwrites() {
    assert!(config_yaml(8765).contains("identifier: com.github.glossa"));
}

#[test]
fn config_yaml_reads_exactly() {
    assert_eq!(
        config_yaml(0),
        "name: Glossa\nidentifier: com.github.glossa\nicon: symbol:character.book.closed\ninterpreter: bash\nshell script: curl -s -X POST http://127.0.0.1:0/lookup --data-urlencode \"q=$POPCLIP_TEXT\" -o /dev/null\n"
    );
    assert!(config_yaml(65535).contains(":65535/lookup"));
    assert_eq!(EXTENSION_DIR_NAME, "Glossa.popclipext");
}

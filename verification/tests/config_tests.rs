use mi7_reverse::config::{Config, ConfigError};

const SAMPLE: &str = "[server]\nclient_addr = \"0.0.0.0:7000\"\nuser_addr = \"0.0.0.0:8080\"\n\n[client]\nserver_addr = \"127.0.0.1:7000\"\ntarget_addr = \"127.0.0.1:9502\"\n";

#[test]
fn loads_a_complete_file() {
    let c = Config::load(SAMPLE).expect("well-formed configuration");
    assert_eq!(c.server.client_addr, "0.0.0.0:7000");
    assert_eq!(c.server.user_addr, "0.0.0.0:8080");
    assert_eq!(c.client.server_addr, "127.0.0.1:7000");
    assert_eq!(c.client.target_addr, "127.0.0.1:9502");
}

#[test]
fn accepts_comments_blanks_and_crlf() {
    let text = "# broker endpoints\r\n\r\n[server]\r\nclient_addr = \"a:1\"\r\nuser_addr = \"b:2\"\r\n[client]\r\nserver_addr = \"c:3\"\r\ntarget_addr = \"d:4\"\r\n";
    let c = Config::load(text).expect("well-formed configuration");
    assert_eq!(c.server.client_addr, "a:1");
    assert_eq!(c.client.target_addr, "d:4");
}

#[test]
fn missing_field_is_reported() {
    let text = "[server]\nclient_addr = \"a:1\"\nuser_addr = \"b:2\"\n[client]\nserver_addr = \"c:3\"\n";
    assert_eq!(Config::load(text).unwrap_err(), ConfigError::MissingField);
}

#[test]
fn empty_text_misses_every_field() {
    assert_eq!(Config::load("").unwrap_err(), ConfigError::MissingField);
}

#[test]
fn malformed_line_is_a_syntax_error() {
    let text = "[server]\nclient_addr = unquoted\n";
    assert_eq!(Config::load(text).unwrap_err(), ConfigError::Syntax);
}

#[test]
fn stray_quote_in_value_is_a_syntax_error() {
    let text = "[server]\nclient_addr = \"a\"b\"\n";
    assert_eq!(Config::load(text).unwrap_err(), ConfigError::Syntax);
}

#[test]
fn unknown_keys_are_ignored() {
    let text = "timeout = \"9\"\n[server]\nclient_addr = \"a:1\"\nuser_addr = \"b:2\"\nextra = \"x\"\n[client]\nserver_addr = \"c:3\"\ntarget_addr = \"d:4\"\n";
    let c = Config::load(text).expect("unknown keys do not hurt");
    assert_eq!(c.server.client_addr, "a:1");
}

#[test]
fn a_key_outside_its_table_does_not_count() {
    // server_addr set under [server] is not the client's server_addr.
    let text = "[server]\nclient_addr = \"a:1\"\nuser_addr = \"b:2\"\nserver_addr = \"c:3\"\ntarget_addr = \"d:4\"\n[client]\n";
    assert_eq!(Config::load(text).unwrap_err(), ConfigError::MissingField);
}

#[test]
fn repeated_key_keeps_the_last_value() {
    let text = "[server]\nclient_addr = \"old:1\"\nclient_addr = \"new:1\"\nuser_addr = \"b:2\"\n[client]\nserver_addr = \"c:3\"\ntarget_addr = \"d:4\"\n";
    let c = Config::load(text).expect("well-formed configuration");
    assert_eq!(c.server.client_addr, "new:1");
}

#[test]
fn value_may_be_empty() {
    let text = "[server]\nclient_addr = \"\"\nuser_addr = \"b:2\"\n[client]\nserver_addr = \"c:3\"\ntarget_addr = \"d:4\"\n";
    let c = Config::load(text).expect("empty value is a value");
    assert_eq!(c.server.client_addr, "");
}

#[test]
fn text_without_final_newline_loads() {
    let text = "[server]\nclient_addr = \"a:1\"\nuser_addr = \"b:2\"\n[client]\nserver_addr = \"c:3\"\ntarget_addr = \"d:4\"";
    let c = Config::load(text).expect("well-formed configuration");
    assert_eq!(c.client.target_addr, "d:4");
}

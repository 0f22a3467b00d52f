use heos::command::raw::RawCommand;

#[test]
fn renders_parameters_in_the_order_they_were_set() {
    let mut command = RawCommand::new("player", "set_volume");
    command.param("pid", "42");
    command.param("level", "50");
    command.param("SEQUENCE", "0");
    assert_eq!(
        command.to_string(),
        "heos://player/set_volume?pid=42&level=50&SEQUENCE=0"
    );
}

#[test]
fn setting_a_key_again_replaces_its_value() {
    let mut command = RawCommand::new("system", "sign_in");
    command.param("username", "a");
    command.param("password", "b");
    command.param("username", "c");
    assert_eq!(command.to_string(), "heos://system/sign_in?username=c&password=b");
}

#[test]
fn parse_reads_back_what_to_string_wrote() {
    let mut command = RawCommand::new("player", "set_volume");
    command.param("pid", "42");
    command.param("level", "50");
    let parsed = RawCommand::parse(&command.to_string()).unwrap();
    assert_eq!(parsed.group(), "player");
    assert_eq!(parsed.name(), "set_volume");
    assert_eq!(parsed.params(), command.params());
}

#[test]
fn parse_rejects_text_without_scheme() {
    assert!(RawCommand::parse("player/get_players").is_none());
    assert!(RawCommand::parse("heos://player").is_none());
}

use heos::command::raw::RawCommand;
use heos::command::ser::{
    bool_to_str, join_player_ids, join_queue_ids, range_to_string, BufferedDisplaySerializer,
    Error,
};
use heos::command::value::{display, to_raw_command, Value};
use heos::data::player::PlayerId;
use heos::data::queue::QueueId;

#[test]
fn new_with_params_sets_one_after_the_other() {
    let command = RawCommand::new_with_params(
        "system",
        "sign_in",
        vec![
            ("username".to_string(), "a".to_string()),
            ("password".to_string(), "b".to_string()),
            ("username".to_string(), "c".to_string()),
        ],
    );
    assert_eq!(command.to_string(), "heos://system/sign_in?username=c&password=b");
    assert_eq!(command.get("username").map(|s| s.as_str()), Some("c"));
    assert_eq!(command.get("missing"), None);
    assert_eq!(command.command(), "system/sign_in");
    assert_eq!(command.params_string(), "username=c&password=b");
    let copy = command.duplicate();
    assert_eq!(copy.to_string(), command.to_string());
}

#[test]
fn parse_reads_groups_names_and_parameters() {
    let c = RawCommand::parse("heos://player/get_players").unwrap();
    assert_eq!((c.group(), c.name(), c.params().len()), ("player", "get_players", 0));
    let c = RawCommand::parse("heos://player/get_players?").unwrap();
    assert_eq!(c.params().len(), 0);
    let c = RawCommand::parse("heos://a/b?x=1&y=&z&=w&x=2").unwrap();
    assert_eq!(
        c.params(),
        &vec![
            ("x".to_string(), "2".to_string()),
            ("y".to_string(), "".to_string()),
            ("z".to_string(), "".to_string()),
            ("".to_string(), "w".to_string()),
        ]
    );
    let c = RawCommand::parse("heos://a/b?k=v=w").unwrap();
    assert_eq!(c.get("k").map(|s| s.as_str()), Some("v=w"));
    let c = RawCommand::parse("heos:///?a=b").unwrap();
    assert_eq!((c.group(), c.name()), ("", ""));
    let c = RawCommand::parse("heos://g/n/more?a=b").unwrap();
    assert_eq!((c.group(), c.name()), ("g", "n/more"));
    assert!(RawCommand::parse("").is_none());
    assert!(RawCommand::parse("heos:/player/x").is_none());
    assert!(RawCommand::parse("HEOS://player/x").is_none());
    assert!(RawCommand::parse("heos://").is_none());
    assert!(RawCommand::parse("heos://player?x=/").is_some());
}

#[test]
fn truth_values_are_on_and_off() {
    assert_eq!(bool_to_str(true), "on");
    assert_eq!(bool_to_str(false), "off");
}

#[test]
fn a_range_is_its_two_ends() {
    assert_eq!(range_to_string((0, 0)), "0,0");
    assert_eq!(range_to_string((10, 19)), "10,19");
}

#[test]
fn lists_of_identifiers_are_joined_with_commas() {
    assert_eq!(join_player_ids(&vec![]), "");
    assert_eq!(join_player_ids(&vec![PlayerId(5)]), "5");
    assert_eq!(join_player_ids(&vec![PlayerId(5), PlayerId(-6)]), "5,-6");
    assert_eq!(join_queue_ids(&vec![QueueId(1), QueueId(2), QueueId(3)]), "1,2,3");
}

#[test]
fn the_list_writer_joins_and_refuses_absent_elements() {
    let mut writer = BufferedDisplaySerializer::new();
    assert!(writer.serialize_element(Some("a")).is_ok());
    assert!(writer.serialize_element(Some("b")).is_ok());
    match writer.serialize_element(None) {
        Err(Error::Message(text)) => assert_eq!(text, "element should not be None"),
        other => panic!("{other:?}"),
    }
    assert_eq!(writer.end(), Some("a,b".to_string()));
    let mut writer = BufferedDisplaySerializer::new();
    assert!(writer.serialize_element(Some("")).is_ok());
    assert!(writer.serialize_element(Some("x")).is_ok());
    assert_eq!(writer.end(), Some("x".to_string()));
    assert_eq!(BufferedDisplaySerializer::new().end(), Some(String::new()));
}

#[test]
fn serialize_errors_in_words() {
    assert_eq!(Error::invalid_top_level("bool").to_string(), "cannot serialize a top-level type of 'bool'");
    assert_eq!(Error::value_not_supported("map").to_string(), "value type 'map' not supported");
    assert_eq!(Error::Message("m".to_string()).to_string(), "m");
    assert_eq!(Error::Internal("i".to_string()).to_string(), "internal error: i");
}

fn shown(value: Value) -> Result<Option<String>, String> {
    display(&value).map_err(|e| e.to_string())
}

#[test]
fn values_at_the_place_of_a_parameter() {
    assert_eq!(shown(Value::Bool(true)), Ok(Some("on".to_string())));
    assert_eq!(shown(Value::Bool(false)), Ok(Some("off".to_string())));
    assert_eq!(shown(Value::Int(-5)), Ok(Some("-5".to_string())));
    assert_eq!(shown(Value::Uint(5)), Ok(Some("5".to_string())));
    assert_eq!(shown(Value::Char('x')), Ok(Some("x".to_string())));
    assert_eq!(shown(Value::Text("t".to_string())), Ok(Some("t".to_string())));
    assert_eq!(shown(Value::Absent), Ok(None));
    assert_eq!(shown(Value::Present(Box::new(Value::Int(1)))), Ok(Some("1".to_string())));
    assert_eq!(shown(Value::Present(Box::new(Value::Absent))), Ok(None));
    assert_eq!(shown(Value::Newtype(Box::new(Value::Uint(2)))), Ok(Some("2".to_string())));
    assert_eq!(shown(Value::NewtypeVariant(Box::new(Value::Uint(3)))), Ok(Some("3".to_string())));
    assert_eq!(
        shown(Value::List(vec![Value::Int(1), Value::Int(2), Value::Int(3)])),
        Ok(Some("1,2,3".to_string()))
    );
    assert_eq!(shown(Value::List(vec![])), Ok(Some(String::new())));
    assert_eq!(
        shown(Value::Tuple(vec![Value::Uint(0), Value::Uint(9)])),
        Ok(Some("0,9".to_string()))
    );
    assert_eq!(
        shown(Value::List(vec![
            Value::List(vec![Value::Int(1), Value::Int(2)]),
            Value::List(vec![Value::Int(3)])
        ])),
        Ok(Some("1,2,3".to_string()))
    );
    assert_eq!(
        shown(Value::List(vec![Value::Int(1), Value::Absent])),
        Err("element should not be None".to_string())
    );
}

#[test]
fn values_without_a_text_form() {
    let unsupported = |kind: &str| Err(format!("value type '{kind}' not supported"));
    assert_eq!(shown(Value::Bytes(vec![1, 2])), unsupported("[u8]"));
    assert_eq!(shown(Value::Unit), unsupported("unit"));
    assert_eq!(shown(Value::UnitStruct), unsupported("unit struct"));
    assert_eq!(shown(Value::UnitVariant), unsupported("unit variant"));
    assert_eq!(shown(Value::TupleStruct(vec![])), unsupported("tuple struct"));
    assert_eq!(shown(Value::TupleVariant(vec![])), unsupported("tuple variant"));
    assert_eq!(shown(Value::Mapping(vec![])), unsupported("map"));
    assert_eq!(shown(Value::Struct(vec![])), unsupported("struct"));
    assert_eq!(shown(Value::StructVariant(vec![])), unsupported("struct variant"));
    assert_eq!(
        shown(Value::List(vec![Value::Int(1), Value::Struct(vec![])])),
        unsupported("struct")
    );
}

fn written(value: Value) -> Result<String, String> {
    to_raw_command("g", "n", &value).map(|c| c.to_string()).map_err(|e| e.to_string())
}

#[test]
fn records_and_maps_make_commands() {
    assert_eq!(written(Value::Struct(vec![])), Ok("heos://g/n".to_string()));
    assert_eq!(
        written(Value::Struct(vec![
            ("pid".to_string(), Value::Int(42)),
            ("step".to_string(), Value::Absent),
            ("enable".to_string(), Value::Bool(true)),
            ("qid".to_string(), Value::List(vec![Value::Uint(1), Value::Uint(2)])),
        ])),
        Ok("heos://g/n?pid=42&enable=on&qid=1,2".to_string())
    );
    assert_eq!(
        written(Value::Mapping(vec![
            (Value::Text("a".to_string()), Value::Int(1)),
            (Value::Int(2), Value::Text("b".to_string())),
            (Value::Text("c".to_string()), Value::Absent),
        ])),
        Ok("heos://g/n?a=1&2=b".to_string())
    );
    assert_eq!(
        written(Value::Newtype(Box::new(Value::Struct(vec![(
            "k".to_string(),
            Value::Char('v')
        )])))),
        Ok("heos://g/n?k=v".to_string())
    );
}

#[test]
fn other_values_are_refused_at_the_top() {
    let refused = |kind: &str| Err(format!("cannot serialize a top-level type of '{kind}'"));
    assert_eq!(written(Value::Bool(true)), refused("bool"));
    assert_eq!(written(Value::Int(1)), refused("i64"));
    assert_eq!(written(Value::Uint(1)), refused("u64"));
    assert_eq!(written(Value::Char('c')), refused("char"));
    assert_eq!(written(Value::Text("t".to_string())), refused("str"));
    assert_eq!(written(Value::Bytes(vec![])), refused("[u8]"));
    assert_eq!(written(Value::Absent), refused("None"));
    assert_eq!(written(Value::Present(Box::new(Value::Struct(vec![])))), refused("Some(T)"));
    assert_eq!(written(Value::Unit), refused("unit"));
    assert_eq!(written(Value::UnitStruct), refused("unit struct"));
    assert_eq!(written(Value::UnitVariant), refused("unit variant"));
    assert_eq!(written(Value::NewtypeVariant(Box::new(Value::Unit))), refused("newtype variant"));
    assert_eq!(written(Value::List(vec![])), refused("sequence"));
    assert_eq!(written(Value::Tuple(vec![])), refused("tuple"));
    assert_eq!(written(Value::TupleStruct(vec![])), refused("tuple struct"));
    assert_eq!(written(Value::TupleVariant(vec![])), refused("tuple variant"));
    assert_eq!(written(Value::StructVariant(vec![])), refused("struct variant"));
}

#[test]
fn nested_records_fail_before_anything_is_written() {
    assert_eq!(
        written(Value::Struct(vec![
            ("a".to_string(), Value::Int(1)),
            ("b".to_string(), Value::Struct(vec![("c".to_string(), Value::Int(2))])),
        ])),
        Err("value type 'struct' not supported".to_string())
    );
    assert_eq!(
        written(Value::Struct(vec![("a".to_string(), Value::Mapping(vec![]))])),
        Err("value type 'map' not supported".to_string())
    );
    assert_eq!(
        written(Value::Mapping(vec![(Value::Absent, Value::Int(1))])),
        Err("internal error: key should not be 'None'".to_string())
    );
    assert_eq!(
        written(Value::Mapping(vec![(Value::Unit, Value::Int(1))])),
        Err("value type 'unit' not supported".to_string())
    );
}

use heos::command::player::GetVolume;
use heos::command::typed::Command;
use heos::data::player::PlayerId;
use heos::data::url::{address_of_location, parse_optional_url, parse_url};
use heos::wire::{find_line_end, frame, next_frame, FrameError};

#[test]
fn commands_go_out_as_lines() {
    let bytes = frame(&GetVolume { player_id: PlayerId(1) }.to_raw());
    assert_eq!(bytes, b"heos://player/get_volume?pid=1\r\n");
}

#[test]
fn the_first_line_end_is_found() {
    assert_eq!(find_line_end(&b"".to_vec()), None);
    assert_eq!(find_line_end(&b"\r".to_vec()), None);
    assert_eq!(find_line_end(&b"\n".to_vec()), None);
    assert_eq!(find_line_end(&b"\r\n".to_vec()), Some(0));
    assert_eq!(find_line_end(&b"ab\r\ncd\r\n".to_vec()), Some(2));
    assert_eq!(find_line_end(&b"a\nb\rc\r\n".to_vec()), Some(5));
    assert_eq!(find_line_end(&b"a\n\r".to_vec()), None);
    assert_eq!(find_line_end(&b"a\r\r\n".to_vec()), Some(2));
}

#[test]
fn frames_come_in_line_by_line() {
    let mut buffer = b"{\"a\":1}\r\n{\"b\":\n2}\r\n{\"c".to_vec();
    assert_eq!(next_frame(&mut buffer), Some(Ok("{\"a\":1}".to_string())));
    assert_eq!(next_frame(&mut buffer), Some(Ok("{\"b\":\n2}".to_string())));
    assert_eq!(next_frame(&mut buffer), None);
    assert_eq!(buffer, b"{\"c");
    buffer.extend_from_slice(b"\":3}\r");
    assert_eq!(next_frame(&mut buffer), None);
    buffer.extend_from_slice(b"\n");
    assert_eq!(next_frame(&mut buffer), Some(Ok("{\"c\":3}".to_string())));
    assert!(buffer.is_empty());
    assert_eq!(next_frame(&mut buffer), None);
}

#[test]
fn a_line_that_is_no_text_is_skipped() {
    let mut buffer = vec![b'a', 0xff, b'b', b'\r', b'\n', b'o', b'k', b'\r', b'\n'];
    assert_eq!(next_frame(&mut buffer), Some(Err(FrameError::InvalidUtf8)));
    assert_eq!(next_frame(&mut buffer), Some(Ok("ok".to_string())));
    let mut buffer = "grüße\r\n".as_bytes().to_vec();
    assert_eq!(next_frame(&mut buffer), Some(Ok("grüße".to_string())));
    let mut buffer = vec![0xc3, b'\r', b'\n'];
    assert_eq!(next_frame(&mut buffer), Some(Err(FrameError::InvalidUtf8)));
    assert!(buffer.is_empty());
}

#[test]
fn a_framed_command_reads_back_as_its_text() {
    let raw = GetVolume { player_id: PlayerId(77) }.to_raw();
    let mut buffer = frame(&raw);
    assert_eq!(next_frame(&mut buffer), Some(Ok(raw.to_string())));
    assert!(buffer.is_empty());
}

#[test]
fn addresses_are_brought_into_their_normal_form() {
    assert_eq!(
        parse_url("https://production.ws.skyegloup.com:443/media/logo.png"),
        Some("https://production.ws.skyegloup.com/media/logo.png".to_string())
    );
    assert_eq!(parse_url("HTTP://Example.COM"), Some("http://example.com/".to_string()));
    assert_eq!(
        parse_url("data:text/NoImageUrlHasBeenSet"),
        Some("data:text/NoImageUrlHasBeenSet".to_string())
    );
    assert_eq!(parse_url("not an address"), None);
    assert_eq!(parse_url(""), None);
    assert_eq!(parse_url("/relative/path"), None);
}

#[test]
fn an_empty_address_field_holds_no_address() {
    assert_eq!(parse_optional_url(""), Ok(None));
    assert_eq!(
        parse_optional_url("http://example.com/a b"),
        Ok(Some("http://example.com/a%20b".to_string()))
    );
    assert_eq!(parse_optional_url("nonsense"), Err(()));
}

#[test]
fn devices_are_found_by_the_number_in_their_location() {
    assert_eq!(
        address_of_location("http://192.168.0.5:60006/upnp/desc/aios_device/aios_device.xml"),
        Some("192.168.0.5".to_string())
    );
    assert_eq!(address_of_location("http://[fe80::1]:60006/x"), Some("fe80::1".to_string()));
    assert_eq!(address_of_location("http://0x7f.1/"), Some("127.0.0.1".to_string()));
    assert_eq!(address_of_location("http://heos.local/desc.xml"), None);
    assert_eq!(address_of_location("data:text/plain,hello"), None);
    assert_eq!(address_of_location("no address"), None);
}

use sensor_api::api::{add, list_authed, send};
use sensor_api::model::{Message, NewXbee};
use sensor_api::reply::{AddOutcome, Reply, SendReply};
use sensor_api::session::AuthedUser;

#[derive(Clone, Debug, PartialEq)]
struct Reading {
    uuid: i32,
    name: String,
    units: String,
    last_update: u64,
    reading: i64,
    min_value: f64,
    max_value: f64,
    min_voltage: f64,
    max_voltage: f64,
}

#[test]
fn send_echoes_the_content() {
    let message = Message { content: "Data to send".to_string(), dest: 1234 };
    let reply = send(&message, AuthedUser);
    assert_eq!(reply, SendReply { content: "Data to send".to_string(), success: true });
    assert_eq!(message.content, "Data to send");
}

#[test]
fn send_echoes_empty_and_non_ascii_content() {
    let empty = send(&Message { content: String::new(), dest: 0 }, AuthedUser);
    assert_eq!(empty, SendReply { content: String::new(), success: true });
    let text = "21.5 \u{b0}C \"quoted\"\n";
    let reply = send(&Message { content: text.to_string(), dest: u32::MAX }, AuthedUser);
    assert!(reply.success);
    assert_eq!(reply.content, text);
}

#[test]
fn add_has_the_node_inserted_as_it_came() {
    let xbee =
        NewXbee { node_id: 1234, name: "Temperature Sensor".to_string(), units: "C".to_string() };
    let out = add(xbee.clone(), AuthedUser);
    assert_eq!(out, AddOutcome { insert: xbee, reply: Reply { error: None, success: true } });
    assert_eq!(out.reply.error_message(), None);
}

#[test]
fn add_does_not_look_for_duplicates() {
    let xbee = NewXbee { node_id: -1, name: String::new(), units: String::new() };
    let first = add(xbee.clone(), AuthedUser);
    let second = add(xbee.clone(), AuthedUser);
    assert!(first.reply.success);
    assert!(second.reply.success);
    assert_eq!(first.insert, xbee);
    assert_eq!(second.insert, xbee);
}

#[test]
fn list_carries_whole_readings() {
    let nodes = vec![
        Reading {
            uuid: 2,
            name: "Test".to_string(),
            units: "C".to_string(),
            last_update: 1523568385,
            reading: 413,
            min_value: 0.0,
            max_value: 150.0,
            min_voltage: 0.0,
            max_voltage: 5.0,
        },
        Reading {
            uuid: 5,
            name: "Hall".to_string(),
            units: "lx".to_string(),
            last_update: 1523568390,
            reading: 12,
            min_value: 0.5,
            max_value: 90000.0,
            min_voltage: 0.1,
            max_voltage: 3.3,
        },
    ];
    let reply = list_authed(nodes.clone(), AuthedUser);
    assert!(reply.success);
    assert_eq!(reply.nodes, Some(nodes));
}

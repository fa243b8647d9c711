use vstd::prelude::*;
use crate::json::{
    items_view, lemma_array_view, lemma_object_view, member, members_view, parse_text,
    parsed_json, render_text, rendered_json, Json, JsonView,
};
use crate::models::{DeviceStatus, MessageView, StatusView, WsMessage};

verus! {

/// A byte string as a JSON array of numbers.
pub open spec fn bytes_json(bytes: Seq<u8>) -> JsonView {
    JsonView::Array(Seq::new(bytes.len(), |i: int| JsonView::Unsigned(bytes[i] as u64)))
}

/// The object that carries a message: the member `type` first, then the
/// message's own fields.
pub open spec fn tagged(tag: Seq<char>, fields: Seq<(Seq<char>, JsonView)>) -> JsonView {
    JsonView::Object(seq![("type"@, JsonView::Text(tag))] + fields)
}

/// The fields of a status, in the order in which they are written.
pub open spec fn status_fields(status: StatusView) -> Seq<(Seq<char>, JsonView)> {
    seq![
        ("device_id"@, JsonView::Text(status.device_id)),
        ("power"@, JsonView::Bool(status.power)),
        ("brightness"@, JsonView::Unsigned(status.brightness as u64)),
        ("color"@, bytes_json(status.color)),
        ("auto_brightness"@, JsonView::Bool(status.auto_brightness)),
        ("pos"@, bytes_json(status.pos)),
        ("auto_pos"@, JsonView::Bool(status.auto_pos)),
    ]
}

/// The JSON document that stands for a message on the wire.
pub open spec fn message_json(message: MessageView) -> JsonView {
    match message {
        MessageView::DeviceRegistration { device_id } => tagged(
            "device_registration"@,
            seq![("device_id"@, JsonView::Text(device_id))],
        ),
        MessageView::DeviceRegistered { device_id } => tagged(
            "device_registered"@,
            seq![("device_id"@, JsonView::Text(device_id))],
        ),
        MessageView::StatusUpdate(status) => tagged("status_update"@, status_fields(status)),
        MessageView::SetPower { device_id, power } => tagged(
            "set_power"@,
            seq![("device_id"@, JsonView::Text(device_id)), ("power"@, JsonView::Bool(power))],
        ),
        MessageView::SetBrightness { device_id, brightness } => tagged(
            "set_brightness"@,
            seq![
                ("device_id"@, JsonView::Text(device_id)),
                ("brightness"@, JsonView::Unsigned(brightness as u64)),
            ],
        ),
        MessageView::SetColor { device_id, color } => tagged(
            "set_color"@,
            seq![("device_id"@, JsonView::Text(device_id)), ("color"@, bytes_json(color))],
        ),
        MessageView::SetAutoBrightness { device_id, auto_brightness } => tagged(
            "set_auto_brightness"@,
            seq![
                ("device_id"@, JsonView::Text(device_id)),
                ("auto_brightness"@, JsonView::Bool(auto_brightness)),
            ],
        ),
        MessageView::SetPosition { device_id, pos } => tagged(
            "set_position"@,
            seq![("device_id"@, JsonView::Text(device_id)), ("pos"@, bytes_json(pos))],
        ),
        MessageView::SetAutoPosition { device_id, auto_pos } => tagged(
            "set_auto_position"@,
            seq![
                ("device_id"@, JsonView::Text(device_id)),
                ("auto_pos"@, JsonView::Bool(auto_pos)),
            ],
        ),
        MessageView::StatusRequest { device_id } => tagged(
            "status_request"@,
            seq![("device_id"@, JsonView::Text(device_id))],
        ),
        MessageView::Error { message, code } => tagged(
            "error"@,
            seq![
                ("message"@, JsonView::Text(message)),
                ("code"@, JsonView::Unsigned(code as u64)),
            ],
        ),
    }
}

pub open spec fn text_field(json: JsonView, name: Seq<char>) -> Option<Seq<char>> {
    match json.get(name) {
        Some(value) => value.as_text(),
        None => None,
    }
}

pub open spec fn bool_field(json: JsonView, name: Seq<char>) -> Option<bool> {
    match json.get(name) {
        Some(value) => value.as_bool(),
        None => None,
    }
}

pub open spec fn byte_field(json: JsonView, name: Seq<char>) -> Option<u8> {
    match json.get(name) {
        Some(value) => value.as_byte(),
        None => None,
    }
}

pub open spec fn code_field(json: JsonView, name: Seq<char>) -> Option<u16> {
    match json.get(name) {
        Some(value) => value.as_code(),
        None => None,
    }
}

pub open spec fn bytes_field(json: JsonView, name: Seq<char>, len: nat) -> Option<Seq<u8>> {
    match json.get(name) {
        Some(value) => value.as_bytes(len),
        None => None,
    }
}

/// The status that an object's members spell out, where all seven are
/// there and each has its type and range.
pub open spec fn json_status(json: JsonView) -> Option<StatusView> {
    if text_field(json, "device_id"@) is Some && bool_field(json, "power"@) is Some && byte_field(
        json,
        "brightness"@,
    ) is Some && bytes_field(json, "color"@, 3) is Some && bool_field(json, "auto_brightness"@)
        is Some && bytes_field(json, "pos"@, 4) is Some && bool_field(json, "auto_pos"@) is Some {
        Some(
            StatusView {
                device_id: text_field(json, "device_id"@).unwrap(),
                power: bool_field(json, "power"@).unwrap(),
                brightness: byte_field(json, "brightness"@).unwrap(),
                color: bytes_field(json, "color"@, 3).unwrap(),
                auto_brightness: bool_field(json, "auto_brightness"@).unwrap(),
                pos: bytes_field(json, "pos"@, 4).unwrap(),
                auto_pos: bool_field(json, "auto_pos"@).unwrap(),
            },
        )
    } else {
        None
    }
}

/// The message that a document stands for.
///
/// The document must be an object whose member `type` is one of the eleven
/// tags, and every field of that message must be there with its type:
/// a string, a boolean, a whole number in the field's range, or an array of
/// exactly as many bytes as the field has. Other members are passed over.
/// Anything else stands for no message.
pub open spec fn json_message(json: JsonView) -> Option<MessageView> {
    let id = text_field(json, "device_id"@);
    match text_field(json, "type"@) {
        None => None,
        Some(tag) => if tag == "device_registration"@ {
            match id {
                Some(device_id) => Some(MessageView::DeviceRegistration { device_id }),
                None => None,
            }
        } else if tag == "device_registered"@ {
            match id {
                Some(device_id) => Some(MessageView::DeviceRegistered { device_id }),
                None => None,
            }
        } else if tag == "status_update"@ {
            match json_status(json) {
                Some(status) => Some(MessageView::StatusUpdate(status)),
                None => None,
            }
        } else if tag == "set_power"@ {
            match (id, bool_field(json, "power"@)) {
                (Some(device_id), Some(power)) => Some(MessageView::SetPower { device_id, power }),
                _ => None,
            }
        } else if tag == "set_brightness"@ {
            match (id, byte_field(json, "brightness"@)) {
                (Some(device_id), Some(brightness)) => Some(
                    MessageView::SetBrightness { device_id, brightness },
                ),
                _ => None,
            }
        } else if tag == "set_color"@ {
            match (id, bytes_field(json, "color"@, 3)) {
                (Some(device_id), Some(color)) => Some(MessageView::SetColor { device_id, color }),
                _ => None,
            }
        } else if tag == "set_auto_brightness"@ {
            match (id, bool_field(json, "auto_brightness"@)) {
                (Some(device_id), Some(auto_brightness)) => Some(
                    MessageView::SetAutoBrightness { device_id, auto_brightness },
                ),
                _ => None,
            }
        } else if tag == "set_position"@ {
            match (id, bytes_field(json, "pos"@, 4)) {
                (Some(device_id), Some(pos)) => Some(MessageView::SetPosition { device_id, pos }),
                _ => None,
            }
        } else if tag == "set_auto_position"@ {
            match (id, bool_field(json, "auto_pos"@)) {
                (Some(device_id), Some(auto_pos)) => Some(
                    MessageView::SetAutoPosition { device_id, auto_pos },
                ),
                _ => None,
            }
        } else if tag == "status_request"@ {
            match id {
                Some(device_id) => Some(MessageView::StatusRequest { device_id }),
                None => None,
            }
        } else if tag == "error"@ {
            match (text_field(json, "message"@), code_field(json, "code"@)) {
                (Some(message), Some(code)) => Some(MessageView::Error { message, code }),
                _ => None,
            }
        } else {
            None
        },
    }
}

pub open spec fn message_view_of(decoded: Option<WsMessage>) -> Option<MessageView> {
    match decoded {
        Some(message) => Some(message@),
        None => None,
    }
}

/// The message that a text stands for: the text must be one JSON value,
/// and that value must stand for a message.
pub open spec fn text_message(text: Seq<char>) -> Option<MessageView> {
    match parsed_json(text) {
        Some(json) => json_message(json),
        None => None,
    }
}

/// The names of the fields and the tags of the messages, letter by letter.
proof fn lemma_words()
    ensures
        "type"@ =~= seq!['t', 'y', 'p', 'e'],
        "device_id"@ =~= seq!['d', 'e', 'v', 'i', 'c', 'e', '_', 'i', 'd'],
        "power"@ =~= seq!['p', 'o', 'w', 'e', 'r'],
        "brightness"@ =~= seq!['b', 'r', 'i', 'g', 'h', 't', 'n', 'e', 's', 's'],
        "color"@ =~= seq!['c', 'o', 'l', 'o', 'r'],
        "auto_brightness"@.len() == 15,
        "pos"@ =~= seq!['p', 'o', 's'],
        "auto_pos"@.len() == 8,
        "message"@.len() == 7,
        "code"@ =~= seq!['c', 'o', 'd', 'e'],
        "device_registration"@.len() == 19,
        "device_registered"@.len() == 17,
        "status_update"@.len() == 13,
        "set_power"@ =~= seq!['s', 'e', 't', '_', 'p', 'o', 'w', 'e', 'r'],
        "set_brightness"@.len() == 14,
        "set_color"@ =~= seq!['s', 'e', 't', '_', 'c', 'o', 'l', 'o', 'r'],
        "set_auto_brightness"@.len() == 19,
        "set_auto_brightness"@[0] == 's',
        "device_registration"@[0] == 'd',
        "set_position"@.len() == 12,
        "set_auto_position"@.len() == 17,
        "set_auto_position"@[0] == 's',
        "device_registered"@[0] == 'd',
        "status_request"@.len() == 14,
        "status_request"@[1] == 't',
        "set_brightness"@[1] == 'e',
        "error"@.len() == 5,
{
    reveal_strlit("type");
    reveal_strlit("device_id");
    reveal_strlit("power");
    reveal_strlit("brightness");
    reveal_strlit("color");
    reveal_strlit("auto_brightness");
    reveal_strlit("pos");
    reveal_strlit("auto_pos");
    reveal_strlit("message");
    reveal_strlit("code");
    reveal_strlit("device_registration");
    reveal_strlit("device_registered");
    reveal_strlit("status_update");
    reveal_strlit("set_power");
    reveal_strlit("set_brightness");
    reveal_strlit("set_color");
    reveal_strlit("set_auto_brightness");
    reveal_strlit("set_position");
    reveal_strlit("set_auto_position");
    reveal_strlit("status_request");
    reveal_strlit("error");
}

/// Reading back the array written for a byte string gives the byte string.
proof fn lemma_bytes_round_trip(bytes: Seq<u8>)
    ensures
        bytes_json(bytes).as_bytes(bytes.len()) == Some(bytes),
{
    let items = bytes_json(bytes)->Array_0;
    assert(forall|i: int| 0 <= i < items.len() ==> (#[trigger] items[i]).as_byte() == Some(bytes[i]));
    assert(Seq::new(bytes.len(), |i: int| items[i].as_byte().unwrap()) =~= bytes);
}

/// Reading the document written for a message gives that message back:
/// for every message whose colors have three channels and whose positions
/// have four, `json_message(message_json(m)) == Some(m)`.
pub proof fn lemma_json_round_trip(message: MessageView)
    requires
        message.wf(),
    ensures
        json_message(message_json(message)) == Some(message),
{
    lemma_words();
    reveal_with_fuel(member, 9);
    match message {
        MessageView::StatusUpdate(status) => {
            lemma_bytes_round_trip(status.color);
            lemma_bytes_round_trip(status.pos);
        },
        MessageView::SetColor { color, .. } => {
            lemma_bytes_round_trip(color);
        },
        MessageView::SetPosition { pos, .. } => {
            lemma_bytes_round_trip(pos);
        },
        _ => {},
    }
}

fn same_text(text: &String, word: &str) -> (same: bool)
    ensures
        same == (text@ == word@),
{
    *text == word.to_owned()
}

fn read_text<'a>(json: &'a Json, name: &str) -> (value: Option<&'a String>)
    ensures
        match value {
            Some(s) => text_field(json@, name@) == Some(s@),
            None => text_field(json@, name@) is None,
        },
{
    match json.get(name) {
        Some(found) => found.as_text(),
        None => None,
    }
}

fn read_bool(json: &Json, name: &str) -> (value: Option<bool>)
    ensures
        value == bool_field(json@, name@),
{
    match json.get(name) {
        Some(found) => found.as_bool(),
        None => None,
    }
}

fn read_byte(json: &Json, name: &str) -> (value: Option<u8>)
    ensures
        value == byte_field(json@, name@),
{
    match json.get(name) {
        Some(found) => found.as_byte(),
        None => None,
    }
}

fn read_code(json: &Json, name: &str) -> (value: Option<u16>)
    ensures
        value == code_field(json@, name@),
{
    match json.get(name) {
        Some(found) => found.as_code(),
        None => None,
    }
}

fn read_color(json: &Json, name: &str) -> (value: Option<[u8; 3]>)
    ensures
        match value {
            Some(color) => bytes_field(json@, name@, 3) == Some(color@),
            None => bytes_field(json@, name@, 3) is None,
        },
{
    match json.get(name) {
        Some(Json::Array(items)) => {
            proof {
                lemma_array_view(*items);
            }
            let ghost views = items_view(items@);
            if items.len() != 3 {
                return None;
            }
            match (items[0].as_byte(), items[1].as_byte(), items[2].as_byte()) {
                (Some(a), Some(b), Some(c)) => {
                    let color = [a, b, c];
                    assert(views[0] == items[0]@ && views[1] == items[1]@ && views[2]
                        == items[2]@);
                    assert(color@ =~= Seq::new(3, |i: int| views[i].as_byte().unwrap()));
                    Some(color)
                },
                _ => {
                    assert(views[0] == items[0]@ && views[1] == items[1]@ && views[2]
                        == items[2]@);
                    None
                },
            }
        },
        _ => None,
    }
}

fn read_pos(json: &Json, name: &str) -> (value: Option<[u8; 4]>)
    ensures
        match value {
            Some(pos) => bytes_field(json@, name@, 4) == Some(pos@),
            None => bytes_field(json@, name@, 4) is None,
        },
{
    match json.get(name) {
        Some(Json::Array(items)) => {
            proof {
                lemma_array_view(*items);
            }
            let ghost views = items_view(items@);
            if items.len() != 4 {
                return None;
            }
            match (
                items[0].as_byte(),
                items[1].as_byte(),
                items[2].as_byte(),
                items[3].as_byte(),
            ) {
                (Some(a), Some(b), Some(c), Some(d)) => {
                    let pos = [a, b, c, d];
                    assert(views[0] == items[0]@ && views[1] == items[1]@ && views[2]
                        == items[2]@ && views[3] == items[3]@);
                    assert(pos@ =~= Seq::new(4, |i: int| views[i].as_byte().unwrap()));
                    Some(pos)
                },
                _ => {
                    assert(views[0] == items[0]@ && views[1] == items[1]@ && views[2]
                        == items[2]@ && views[3] == items[3]@);
                    None
                },
            }
        },
        _ => None,
    }
}

fn read_status(json: &Json) -> (value: Option<DeviceStatus>)
    ensures
        match value {
            Some(status) => json_status(json@) == Some(status@),
            None => json_status(json@) is None,
        },
{
    let device_id = match read_text(json, "device_id") {
        Some(s) => s.clone(),
        None => return None,
    };
    let power = match read_bool(json, "power") {
        Some(b) => b,
        None => return None,
    };
    let brightness = match read_byte(json, "brightness") {
        Some(b) => b,
        None => return None,
    };
    let color = match read_color(json, "color") {
        Some(c) => c,
        None => return None,
    };
    let auto_brightness = match read_bool(json, "auto_brightness") {
        Some(b) => b,
        None => return None,
    };
    let pos = match read_pos(json, "pos") {
        Some(p) => p,
        None => return None,
    };
    let auto_pos = match read_bool(json, "auto_pos") {
        Some(b) => b,
        None => return None,
    };
    Some(DeviceStatus { device_id, power, brightness, color, auto_brightness, pos, auto_pos })
}

fn text_member(name: &str, value: &String) -> (pair: (String, Json))
    ensures
        pair.0@ == name@,
        pair.1@ == JsonView::Text(value@),
{
    (name.to_owned(), Json::Text(value.clone()))
}

fn bool_member(name: &str, value: bool) -> (pair: (String, Json))
    ensures
        pair.0@ == name@,
        pair.1@ == JsonView::Bool(value),
{
    (name.to_owned(), Json::Bool(value))
}

fn number_member(name: &str, value: u64) -> (pair: (String, Json))
    ensures
        pair.0@ == name@,
        pair.1@ == JsonView::Unsigned(value),
{
    (name.to_owned(), Json::Unsigned(value))
}

fn bytes_member(name: &str, bytes: &[u8]) -> (pair: (String, Json))
    ensures
        pair.0@ == name@,
        pair.1@ == bytes_json(bytes@),
{
    let mut items: Vec<Json> = Vec::new();
    let mut i: usize = 0;
    while i < bytes.len()
        invariant
            i <= bytes.len(),
            items.len() == i,
            forall|k: int| 0 <= k < i ==> (#[trigger] items[k])@ == JsonView::Unsigned(bytes[k] as u64),
        decreases bytes.len() - i,
    {
        items.push(Json::Unsigned(bytes[i] as u64));
        i = i + 1;
    }
    proof {
        lemma_array_view(items);
        assert(items_view(items@) =~= Seq::new(
            bytes@.len(),
            |i: int| JsonView::Unsigned(bytes@[i] as u64),
        ));
    }
    (name.to_owned(), Json::Array(items))
}

/// Builds the object that carries a message: `type` first, then `fields`.
fn record(tag: &str, fields: Vec<(String, Json)>) -> (json: Json)
    ensures
        json@ == tagged(tag@, members_view(fields@)),
{
    let mut members: Vec<(String, Json)> = Vec::new();
    members.push(("type".to_owned(), Json::Text(tag.to_owned())));
    let ghost head = members@;
    let mut fields = fields;
    let ghost tail = fields@;
    members.append(&mut fields);
    proof {
        lemma_object_view(members);
        assert(members@ =~= head + tail);
        assert(members_view(members@) =~= seq![("type"@, JsonView::Text(tag@))] + members_view(
            tail,
        ));
    }
    Json::Object(members)
}

/// A document made of booleans, strings, whole numbers and arrays of bytes
/// has kept every digit.
proof fn lemma_message_json_exact(message: MessageView)
    ensures
        message_json(message).exact(),
{
    reveal_with_fuel(JsonView::exact, 3);
}

impl WsMessage {
    /// Reads a message from a JSON document.
    pub fn from_json(json: &Json) -> (decoded: Option<WsMessage>)
        ensures
            message_view_of(decoded) == json_message(json@),
            decoded matches Some(message) ==> message@.wf(),
    {
        let tag = match read_text(json, "type") {
            Some(tag) => tag,
            None => return None,
        };
        let id = read_text(json, "device_id");
        if same_text(tag, "device_registration") {
            match id {
                Some(device_id) => Some(
                    WsMessage::DeviceRegistration { device_id: device_id.clone() },
                ),
                None => None,
            }
        } else if same_text(tag, "device_registered") {
            match id {
                Some(device_id) => Some(
                    WsMessage::DeviceRegistered { device_id: device_id.clone() },
                ),
                None => None,
            }
        } else if same_text(tag, "status_update") {
            match read_status(json) {
                Some(status) => Some(WsMessage::StatusUpdate(status)),
                None => None,
            }
        } else if same_text(tag, "set_power") {
            match (id, read_bool(json, "power")) {
                (Some(device_id), Some(power)) => Some(
                    WsMessage::SetPower { device_id: device_id.clone(), power },
                ),
                _ => None,
            }
        } else if same_text(tag, "set_brightness") {
            match (id, read_byte(json, "brightness")) {
                (Some(device_id), Some(brightness)) => Some(
                    WsMessage::SetBrightness { device_id: device_id.clone(), brightness },
                ),
                _ => None,
            }
        } else if same_text(tag, "set_color") {
            match (id, read_color(json, "color")) {
                (Some(device_id), Some(color)) => Some(
                    WsMessage::SetColor { device_id: device_id.clone(), color },
                ),
                _ => None,
            }
        } else if same_text(tag, "set_auto_brightness") {
            match (id, read_bool(json, "auto_brightness")) {
                (Some(device_id), Some(auto_brightness)) => Some(
                    WsMessage::SetAutoBrightness { device_id: device_id.clone(), auto_brightness },
                ),
                _ => None,
            }
        } else if same_text(tag, "set_position") {
            match (id, read_pos(json, "pos")) {
                (Some(device_id), Some(pos)) => Some(
                    WsMessage::SetPosition { device_id: device_id.clone(), pos },
                ),
                _ => None,
            }
        } else if same_text(tag, "set_auto_position") {
            match (id, read_bool(json, "auto_pos")) {
                (Some(device_id), Some(auto_pos)) => Some(
                    WsMessage::SetAutoPosition { device_id: device_id.clone(), auto_pos },
                ),
                _ => None,
            }
        } else if same_text(tag, "status_request") {
            match id {
                Some(device_id) => Some(WsMessage::StatusRequest { device_id: device_id.clone() }),
                None => None,
            }
        } else if same_text(tag, "error") {
            match (read_text(json, "message"), read_code(json, "code")) {
                (Some(message), Some(code)) => Some(
                    WsMessage::Error { message: message.clone(), code },
                ),
                _ => None,
            }
        } else {
            None
        }
    }

    /// Writes a message as a JSON document.
    pub fn to_json(&self) -> (json: Json)
        ensures
            json@ == message_json(self@),
            json@.exact(),
    {
        proof {
            lemma_message_json_exact(self@);
        }
        match self {
            WsMessage::DeviceRegistration { device_id } => {
                let fields = vec![text_member("device_id", device_id)];
                assert(members_view(fields@) =~= seq![("device_id"@, JsonView::Text(device_id@))]);
                record("device_registration", fields)
            },
            WsMessage::DeviceRegistered { device_id } => {
                let fields = vec![text_member("device_id", device_id)];
                assert(members_view(fields@) =~= seq![("device_id"@, JsonView::Text(device_id@))]);
                record("device_registered", fields)
            },
            WsMessage::StatusUpdate(status) => {
                let fields = vec![
                    text_member("device_id", &status.device_id),
                    bool_member("power", status.power),
                    number_member("brightness", status.brightness as u64),
                    bytes_member("color", status.color.as_slice()),
                    bool_member("auto_brightness", status.auto_brightness),
                    bytes_member("pos", status.pos.as_slice()),
                    bool_member("auto_pos", status.auto_pos),
                ];
                assert(members_view(fields@) =~= status_fields(status@));
                record("status_update", fields)
            },
            WsMessage::SetPower { device_id, power } => {
                let fields = vec![text_member("device_id", device_id), bool_member("power", *power)];
                assert(members_view(fields@) =~= seq![
                    ("device_id"@, JsonView::Text(device_id@)),
                    ("power"@, JsonView::Bool(*power)),
                ]);
                record("set_power", fields)
            },
            WsMessage::SetBrightness { device_id, brightness } => {
                let fields = vec![
                    text_member("device_id", device_id),
                    number_member("brightness", *brightness as u64),
                ];
                assert(members_view(fields@) =~= seq![
                    ("device_id"@, JsonView::Text(device_id@)),
                    ("brightness"@, JsonView::Unsigned(*brightness as u64)),
                ]);
                record("set_brightness", fields)
            },
            WsMessage::SetColor { device_id, color } => {
                let fields = vec![
                    text_member("device_id", device_id),
                    bytes_member("color", color.as_slice()),
                ];
                assert(members_view(fields@) =~= seq![
                    ("device_id"@, JsonView::Text(device_id@)),
                    ("color"@, bytes_json(color@)),
                ]);
                record("set_color", fields)
            },
            WsMessage::SetAutoBrightness { device_id, auto_brightness } => {
                let fields = vec![
                    text_member("device_id", device_id),
                    bool_member("auto_brightness", *auto_brightness),
                ];
                assert(members_view(fields@) =~= seq![
                    ("device_id"@, JsonView::Text(device_id@)),
                    ("auto_brightness"@, JsonView::Bool(*auto_brightness)),
                ]);
                record("set_auto_brightness", fields)
            },
            WsMessage::SetPosition { device_id, pos } => {
                let fields = vec![
                    text_member("device_id", device_id),
                    bytes_member("pos", pos.as_slice()),
                ];
                assert(members_view(fields@) =~= seq![
                    ("device_id"@, JsonView::Text(device_id@)),
                    ("pos"@, bytes_json(pos@)),
                ]);
                record("set_position", fields)
            },
            WsMessage::SetAutoPosition { device_id, auto_pos } => {
                let fields = vec![
                    text_member("device_id", device_id),
                    bool_member("auto_pos", *auto_pos),
                ];
                assert(members_view(fields@) =~= seq![
                    ("device_id"@, JsonView::Text(device_id@)),
                    ("auto_pos"@, JsonView::Bool(*auto_pos)),
                ]);
                record("set_auto_position", fields)
            },
            WsMessage::StatusRequest { device_id } => {
                let fields = vec![text_member("device_id", device_id)];
                assert(members_view(fields@) =~= seq![("device_id"@, JsonView::Text(device_id@))]);
                record("status_request", fields)
            },
            WsMessage::Error { message, code } => {
                let fields = vec![
                    text_member("message", message),
                    number_member("code", *code as u64),
                ];
                assert(members_view(fields@) =~= seq![
                    ("message"@, JsonView::Text(message@)),
                    ("code"@, JsonView::Unsigned(*code as u64)),
                ]);
                record("error", fields)
            },
        }
    }

    /// Writes a message as the text of a frame.
    pub fn encode(&self) -> (text: String)
        ensures
            text@ == rendered_json(message_json(self@)),
    {
        let json = self.to_json();
        render_text(&json)
    }

    /// Reads a message from the text of a frame. `None` where the text is
    /// not JSON or the JSON is no message.
    pub fn decode(text: &str) -> (decoded: Option<WsMessage>)
        ensures
            message_view_of(decoded) == text_message(text@),
            decoded matches Some(message) ==> message@.wf(),
    {
        match parse_text(text) {
            Some(json) => WsMessage::from_json(&json),
            None => None,
        }
    }
}

} // verus!

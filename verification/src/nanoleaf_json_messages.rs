//! The wire shapes of the device's REST API, and the encoding of the
//! request bodies this client sends.
//!
//! Request bodies are framed here as verified functions on the message
//! structs; every body is pinned, character by character, by a spec
//! function. Response bodies are read through the trusted readers in
//! `json`.

use vstd::prelude::*;
use vstd::string::StringExecFns;
use crate::json::{
    escape_str, json_string_lit, json_string_field, lemma_unescape_escape, parse_string_field,
    push_json_string, unescape_str,
};
use crate::strutil::{dec_str, fmt_u64};

verus! {

/// Body of the answer to a pairing request: the newly minted token.
pub struct AddUserResponseBody {
    pub auth_token: String,
}

/// Body of a request to display an effect.
pub struct SelectEffect {
    pub select: String,
}

/// The on/off state of the panels.
pub struct OnOffBody {
    pub value: bool,
}

/// A device-reported state variable with its allowed range.
pub struct PanelStateVariable {
    pub value: u16,
    pub max: u16,
    pub min: u16,
}

/// Body of a request to change the brightness.
pub struct SetBrightnessBody {
    pub brightness: SetBrightnessBodySubArgs,
}

/// Arguments of a brightness change: the value, and an optional transition
/// time in whole seconds.
pub struct SetBrightnessBodySubArgs {
    pub value: u16,
    pub duration: Option<u16>,
}

/// The device metadata envelope answered on the authorized base endpoint.
pub struct GetAllPanelInfoResponseBody {
    pub name: String,
    pub serialNo: String,
    pub manufacturer: String,
    pub firmwareVersion: String,
    pub model: String,
    pub state: AuroraState,
    pub effects: AuroraEffects,
    pub panelLayout: AuroraPanelLayout,
    pub rhythm: RhythmState,
}

/// The mutable panel state nested in the metadata envelope.
pub struct AuroraState {
    pub on: OnOffBody,
    pub brightness: PanelStateVariable,
    pub hue: PanelStateVariable,
    pub sat: PanelStateVariable,
    pub ct: PanelStateVariable,
    pub colorMode: String,
}

/// The effect state nested in the metadata envelope: the selected effect
/// and the programmed set.
pub struct AuroraEffects {
    pub select: String,
    pub effectsList: Vec<String>,
}

/// The panel layout nested in the metadata envelope.
pub struct AuroraPanelLayout {
    pub layout: Layout,
    pub globalOrientation: PanelStateVariable,
}

/// The positions of the physical panels.
pub struct Layout {
    pub numPanels: u8,
    pub sideLength: u16,
    pub positionData: Vec<PanelPositionInfo>,
}

/// One panel's place in the layout.
pub struct PanelPositionInfo {
    pub panelId: u16,
    pub position: Position,
    pub shapeType: u8,
}

/// The state of the rhythm module.
pub struct RhythmState {
    pub rhythmConnected: bool,
    pub rhythmActive: bool,
    pub rhythmId: u32,
    pub hardwareVersion: String,
    pub firmwareVersion: String,
    pub auxAvailable: bool,
    pub rhythmMode: u8,
    pub rhythmPos: Position,
}

/// A planar position with an orientation.
pub struct Position {
    pub x: i16,
    pub y: i16,
    pub o: i16,
}

/// How a bool is written in JSON.
pub open spec fn bool_chars(b: bool) -> Seq<char> {
    if b {
        "true"@
    } else {
        "false"@
    }
}

/// The body of an on/off request.
pub open spec fn on_off_chars(on: bool) -> Seq<char> {
    "{\"on\":{\"value\":"@ + bool_chars(on) + "}}"@
}

/// The body of a brightness request: the value, and the transition time
/// only when one was given.
pub open spec fn set_brightness_chars(value: u16, duration: Option<u16>) -> Seq<char> {
    "{\"brightness\":{\"value\":"@ + dec_str(value as nat) + (match duration {
        Some(d) => ",\"duration\":"@ + dec_str(d as nat),
        None => Seq::<char>::empty(),
    }) + "}}"@
}

/// The body of an effect-selection request.
pub open spec fn select_effect_chars(name: Seq<char>) -> Seq<char> {
    "{\"select\":"@ + json_string_lit(name) + "}"@
}

/// Encodes the body of an on/off request.
pub fn encode_on_off(body: &OnOffBody) -> (r: String)
    ensures
        r@ == on_off_chars(body.value),
{
    let mut r = String::from_str("{\"on\":{\"value\":");
    if body.value {
        r.append("true");
    } else {
        r.append("false");
    }
    r.append("}}");
    assert(r@ =~= on_off_chars(body.value));
    r
}

/// Encodes the body of a brightness request.
pub fn encode_set_brightness(body: &SetBrightnessBody) -> (r: String)
    ensures
        r@ == set_brightness_chars(body.brightness.value, body.brightness.duration),
{
    let mut r = String::from_str("{\"brightness\":{\"value\":");
    let value_text = fmt_u64(body.brightness.value as u64);
    r.append(value_text.as_str());
    match body.brightness.duration {
        Some(d) => {
            r.append(",\"duration\":");
            let duration_text = fmt_u64(d as u64);
            r.append(duration_text.as_str());
        },
        None => {},
    }
    r.append("}}");
    assert(r@ =~= set_brightness_chars(body.brightness.value, body.brightness.duration));
    r
}

/// Encodes the body of an effect-selection request.
pub fn encode_select_effect(body: &SelectEffect) -> (r: String)
    ensures
        r@ == select_effect_chars(body.select@),
{
    let mut r = String::from_str("{\"select\":");
    push_json_string(&mut r, body.select.as_str());
    r.append("}");
    assert(r@ =~= select_effect_chars(body.select@));
    r
}

/// How a device reads the selection out of an effect-selection body: the
/// fixed frame around one JSON string literal, whose content is unescaped.
pub open spec fn read_select_body(s: Seq<char>) -> Option<Seq<char>> {
    let prefix = "{\"select\":"@;
    if s.len() >= prefix.len() + 3 && s.subrange(0, prefix.len() as int) == prefix && s[(
    prefix.len() as int)] == '"' && s[s.len() - 2] == '"' && s.last() == '}' {
        unescape_str(s.subrange(prefix.len() as int + 1, s.len() - 2))
    } else {
        None
    }
}

/// A device that echoes the selection reads it back from the request body:
/// whatever name was set, and whatever else the device lists, the name read
/// out of an encoded selection is that name, letter for letter.
pub proof fn lemma_select_body_echo(name: Seq<char>)
    ensures
        read_select_body(select_effect_chars(name)) == Some(name),
{
    reveal_strlit("{\"select\":");
    reveal_strlit("}");
    let prefix = "{\"select\":"@;
    let body = select_effect_chars(name);
    assert(body.subrange(0, prefix.len() as int) =~= prefix);
    assert(body[prefix.len() as int] == '"');
    assert(body[body.len() - 2] == '"');
    assert(body.last() == '}');
    assert(body.subrange(prefix.len() as int + 1, body.len() - 2) =~= escape_str(name));
    lemma_unescape_escape(name);
}

/// Decodes the body of an effect-selection request, as a device that echoes
/// the selection back would read it.
pub fn decode_select_effect(s: &str) -> (r: Option<SelectEffect>)
    ensures
        match r {
            Some(body) => json_string_field(s@, "select"@) == Some(body.select@),
            None => json_string_field(s@, "select"@) is None,
        },
{
    match parse_string_field(s, "select") {
        Some(name) => Some(SelectEffect { select: name }),
        None => None,
    }
}

} // verus!

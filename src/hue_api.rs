//! The bridge operations: create a user, list the lights, set a light's
//! state. Each builds its request, sends it through a [`HueClient`], and reads
//! and classifies the answer.
use vstd::prelude::*;

use crate::client::{ClientCall, Header, HueClient};
use crate::error::{CoreError, CoreResult, HueBridgeError};
use crate::json::{
    decimal, decimal_text, error_text, json_parse, json_string_text, member, member_views, object_text,
    members_text, parse_json, scalar_text, shape_error, Json,
};
use crate::logger::ILogger;
use crate::models::createuser::{
    create_user_response_from_json, create_user_response_of, user_fields, CreateUserEntry, ErrorDetail,
    User,
};
use crate::models::hueerror::{hue_response_from_json, hue_response_of, HueResponse};
use crate::models::light::{light_state_fields, lights_of, Light, LightId, LightResponse, LightState};

verus! {

broadcast use vstd::std_specs::hash::group_hash_axioms;

/// At most the first 200 characters of a body, for log lines.
pub open spec fn snippet(raw: Seq<char>) -> Seq<char> {
    if raw.len() <= 200 {
        raw
    } else {
        raw.take(200)
    }
}

/// The line logged when a body of the kind `what` cannot be read; `err` is
/// the parser's description of the problem.
pub open spec fn parse_failure_line(what: Seq<char>, err: Seq<char>, raw: Seq<char>) -> Seq<char> {
    "Failed to parse "@ + what + " JSON: "@ + err + ". Raw (truncated): "@ + snippet(raw)
}

/// The log grew by one parse-failure line for a body of the kind `what`.
pub open spec fn logged_parse_failure(
    before: Seq<Seq<char>>,
    after: Seq<Seq<char>>,
    what: Seq<char>,
    raw: Seq<char>,
) -> bool {
    exists|err: Seq<char>| after == before.push(#[trigger] parse_failure_line(what, err, raw))
}

/// An integer in decimal, with a minus sign when negative.
pub open spec fn signed_decimal(i: int) -> Seq<char> {
    if i < 0 {
        seq!['-'] + decimal((-i) as nat)
    } else {
        decimal(i as nat)
    }
}

pub fn signed_decimal_text(i: i32) -> (r: String)
    ensures
        r@ == signed_decimal(i as int),
{
    if i < 0 {
        proof {
            reveal_strlit("-");
            assert("-"@ =~= seq!['-']);
        }
        let mut s = "-".to_owned();
        let digits = decimal_text((-(i as i64)) as u64);
        s.append(digits.as_str());
        s
    } else {
        decimal_text(i as u64)
    }
}

/// The first characters of a body, as [`snippet`] states.
pub fn truncated(raw: &str) -> (r: &str)
    ensures
        r@ == snippet(raw@),
{
    let n = raw.unicode_len();
    if n <= 200 {
        let r = raw.substring_char(0, n);
        assert(r@ =~= raw@);
        r
    } else {
        raw.substring_char(0, 200)
    }
}

fn log_parse_failure<L: ILogger>(logger: &mut L, what: &str, e: &serde_json::Error, raw: &str)
    ensures
        logged_parse_failure(old(logger).logged(), final(logger).logged(), what@, raw@),
{
    let err = error_text(e);
    let mut line = "Failed to parse ".to_owned();
    line.append(what);
    line.append(" JSON: ");
    line.append(err.as_str());
    line.append(". Raw (truncated): ");
    line.append(truncated(raw));
    logger.log(line.as_str());
    assert(final(logger).logged() == old(logger).logged().push(parse_failure_line(what@, err@, raw@)));
}

/// Whether `b` is how the bridge error `e` is classified: type 101 means the
/// link button was not pressed; any other type is passed on with its code
/// and description.
pub open spec fn classifies(e: ErrorDetail, b: HueBridgeError) -> bool {
    if e._type == 101 {
        b is LinkButtonNotPressed
    } else {
        b matches HueBridgeError::Other { code, message } && code@ == signed_decimal(e._type as int)
            && message@ == e.description@
    }
}

pub fn classify_bridge_error(e: &ErrorDetail) -> (r: HueBridgeError)
    ensures
        classifies(*e, r),
{
    if e._type == 101 {
        HueBridgeError::LinkButtonNotPressed
    } else {
        HueBridgeError::Other { code: signed_decimal_text(e._type), message: e.description.clone() }
    }
}

pub open spec fn http_prefix() -> Seq<char> {
    "http://"@
}

pub open spec fn create_user_url(ip: Seq<char>) -> Seq<char> {
    http_prefix() + ip + "/api"@
}

pub open spec fn lights_url(ip: Seq<char>, username: Seq<char>) -> Seq<char> {
    http_prefix() + ip + "/api/"@ + username + "/lights"@
}

pub open spec fn light_state_url(ip: Seq<char>, username: Seq<char>, id: LightId) -> Seq<char> {
    http_prefix() + ip + "/api/"@ + username + "/lights/"@ + decimal(id as nat) + "/state"@
}

/// The resource path that a command entry names for one attribute of a
/// light's state.
pub open spec fn light_state_path(id: LightId, field: Seq<char>) -> Seq<char> {
    "/lights/"@ + decimal(id as nat) + "/state/"@ + field
}

pub open spec fn user_created_line(username: Seq<char>) -> Seq<char> {
    "User created successfully! Username: "@ + username
}

pub open spec fn user_error_line(e: ErrorDetail) -> Seq<char> {
    "Error creating user: "@ + signed_decimal(e._type as int) + " - "@ + e.address@ + " - "@
        + e.description@
}

/// The message for an answer without entries; it carries the start of the
/// body.
pub open spec fn unrecognized_answer_line(raw: Seq<char>) -> Seq<char> {
    "User could not be created. The Hue Bridge returned an unrecognized JSON format. Raw (truncated): "@
        + snippet(raw)
}

/// What a create-user answer yields, given what the parser made of it:
/// text that is not an array of create-user entries is a serialization
/// error; an empty array an unexpected response; otherwise the first entry
/// decides, a success giving the new user and an error entry its
/// classification. Each outcome logs one line.
pub open spec fn create_user_result(
    parsed: Option<Json>,
    raw: Seq<char>,
    before: Seq<Seq<char>>,
    after: Seq<Seq<char>>,
    r: CoreResult<User>,
) -> bool {
    match (match parsed {
        Some(j) => create_user_response_of(j),
        None => None,
    }) {
        None => r matches Err(CoreError::Serialization(_)) && logged_parse_failure(
            before,
            after,
            "CreateUserResponse"@,
            raw,
        ),
        Some(es) => if es.len() == 0 {
            r matches Err(CoreError::UnexpectedResponse(m)) && m@ == unrecognized_answer_line(raw)
                && after == before.push(unrecognized_answer_line(raw))
        } else {
            match es[0] {
                CreateUserEntry::Success { success } => r matches Ok(u) && u.username_spec() matches Some(
                    n,
                ) && n@ == success.username@ && u.devicetype_spec() is None && after == before.push(
                    user_created_line(success.username@),
                ),
                CreateUserEntry::Error { error } => r matches Err(CoreError::Bridge(b)) && classifies(
                    error,
                    b,
                ) && after == before.push(user_error_line(error)),
            }
        },
    }
}

pub open spec fn parsed_view(parsed: Result<Json, serde_json::Error>) -> Option<Json> {
    match parsed {
        Ok(j) => Some(j),
        Err(_) => None,
    }
}

/// Reads the answer to a create-user request, given what the parser made of
/// the body `raw`.
pub fn create_user_from_json<L: ILogger>(
    parsed: Result<Json, serde_json::Error>,
    raw: &str,
    logger: &mut L,
) -> (r: CoreResult<User>)
    ensures
        create_user_result(parsed_view(parsed), raw@, old(logger).logged(), final(logger).logged(), r),
{
    let j = match parsed {
        Ok(j) => j,
        Err(e) => {
            log_parse_failure(logger, "CreateUserResponse", &e, raw);
            return Err(CoreError::Serialization(e));
        },
    };
    let entries = match create_user_response_from_json(&j) {
        Some(v) => v,
        None => {
            let e = shape_error("the answer is not a list of create-user entries");
            log_parse_failure(logger, "CreateUserResponse", &e, raw);
            return Err(CoreError::Serialization(e));
        },
    };
    if entries.len() == 0 {
        let mut message =
            "User could not be created. The Hue Bridge returned an unrecognized JSON format. Raw (truncated): ".to_owned();
        message.append(truncated(raw));
        logger.log(message.as_str());
        return Err(CoreError::UnexpectedResponse(message));
    }
    match &entries[0] {
        CreateUserEntry::Success { success } => {
            let mut line = "User created successfully! Username: ".to_owned();
            line.append(success.username.as_str());
            logger.log(line.as_str());
            Ok(User::with_username(success.username.as_str()))
        },
        CreateUserEntry::Error { error } => {
            let mut line = "Error creating user: ".to_owned();
            let code = signed_decimal_text(error._type);
            line.append(code.as_str());
            line.append(" - ");
            line.append(error.address.as_str());
            line.append(" - ");
            line.append(error.description.as_str());
            logger.log(line.as_str());
            Err(CoreError::Bridge(classify_bridge_error(error)))
        },
    }
}

/// Reads the answer to a create-user request from its body.
pub fn create_user_from_text<L: ILogger>(raw: &str, logger: &mut L) -> (r: CoreResult<User>)
    ensures
        create_user_result(json_parse(raw@), raw@, old(logger).logged(), final(logger).logged(), r),
{
    let parsed = parse_json(raw);
    create_user_from_json(parsed, raw, logger)
}

pub open spec fn create_user_body(device_name: Seq<char>) -> Seq<char> {
    seq!['{'] + json_string_text("devicetype"@) + seq![':'] + json_string_text(device_name) + seq![
        '}',
    ]
}

proof fn lemma_device_body(d: String)
    ensures
        object_text(user_fields(Some(d), None)) == create_user_body(d@),
{
    let ms = user_fields(Some(d), None);
    assert(ms =~= seq![("devicetype"@, Json::Str(d))]);
    assert(ms.drop_last() =~= Seq::<(Seq<char>, Json)>::empty());
    assert(members_text(ms.drop_last()) == Seq::<char>::empty());
    assert(ms.last() == ("devicetype"@, Json::Str(d)));
    assert(ms.len() == 1);
    assert(members_text(ms) =~= json_string_text("devicetype"@) + seq![':'] + scalar_text(
        Json::Str(d),
    ));
    assert(object_text(ms) =~= create_user_body(d@));
}

/// The URL and body of a create-user request.
pub fn create_user_request(ip_address: &str, device_name: &str) -> (r: (String, String))
    ensures
        r.0@ == create_user_url(ip_address@),
        r.1@ == create_user_body(device_name@),
{
    let mut url = "http://".to_owned();
    url.append(ip_address);
    url.append("/api");
    let user = User::with_devicetype(device_name);
    let body = user.to_json_text();
    proof {
        lemma_device_body(user.devicetype_spec()->0);
    }
    (url, body)
}

/// The headers of a request that carries a JSON body: a JSON content type.
pub open spec fn is_json_headers(hs: Seq<Header>) -> bool {
    hs.len() == 1 && hs[0].name@ == "Content-Type"@ && hs[0].value@ == "application/json"@
}

/// The headers of a request that carries a JSON body.
pub fn json_headers() -> (r: Vec<Header>)
    ensures
        is_json_headers(r@),
{
    let mut v: Vec<Header> = Vec::new();
    v.push(Header::new("Content-Type", "application/json"));
    v
}

/// What a create-user call does: it posts the request once, with a JSON
/// content type, to `/api`; a transport error comes back unchanged with
/// nothing logged, and an answer is read as [`create_user_from_text`]
/// states.
pub open spec fn create_user_call(
    ip: Seq<char>,
    device_name: Seq<char>,
    calls_before: Seq<ClientCall>,
    calls_after: Seq<ClientCall>,
    before: Seq<Seq<char>>,
    after: Seq<Seq<char>>,
    r: CoreResult<User>,
) -> bool {
    &&& calls_after.len() == calls_before.len() + 1
    &&& calls_after.drop_last() == calls_before
    &&& match calls_after.last() {
        ClientCall::Post { url, body, headers, result } => {
            &&& url == create_user_url(ip)
            &&& body == create_user_body(device_name)
            &&& is_json_headers(headers)
            &&& match result {
                Err(e) => r == Err::<User, CoreError>(e) && after == before,
                Ok(raw) => create_user_result(json_parse(raw@), raw@, before, after, r),
            }
        },
        _ => false,
    }
}

/// Asks the bridge at `ip_address` to create a user for `device_name`.
/// Unless the transport fails, the answer is read as
/// [`create_user_from_text`] states.
pub fn async_create_user<C: HueClient, L: ILogger>(
    ip_address: &str,
    device_name: &str,
    client: &mut C,
    logger: &mut L,
) -> (r: CoreResult<User>)
    ensures
        create_user_call(
            ip_address@,
            device_name@,
            old(client).calls(),
            final(client).calls(),
            old(logger).logged(),
            final(logger).logged(),
            r,
        ),
{
    let (url, body) = create_user_request(ip_address, device_name);
    let answer = client.post_json(url.as_str(), body.as_str(), json_headers());
    proof {
        assert(client.calls().drop_last() =~= old(client).calls());
    }
    let raw = match answer {
        Ok(raw) => raw,
        Err(e) => {
            return Err(e);
        },
    };
    create_user_from_text(raw.as_str(), logger)
}


/// What a lights-list answer yields: the lights that the parsed body
/// describes, or else a serialization error and one logged line.
pub open spec fn get_all_lights_result(
    parsed: Option<Json>,
    raw: Seq<char>,
    before: Seq<Seq<char>>,
    after: Seq<Seq<char>>,
    r: CoreResult<LightResponse>,
) -> bool {
    match (match parsed {
        Some(j) => lights_of(j),
        None => None,
    }) {
        Some(m) => r matches Ok(lr) && lr.0@ == m && after == before,
        None => r matches Err(CoreError::Serialization(_)) && logged_parse_failure(
            before,
            after,
            "lights"@,
            raw,
        ),
    }
}

/// Reads the lights list, given what the parser made of the body `raw`.
pub fn get_all_lights_from_json<L: ILogger>(
    parsed: Result<Json, serde_json::Error>,
    raw: &str,
    logger: &mut L,
) -> (r: CoreResult<LightResponse>)
    ensures
        get_all_lights_result(parsed_view(parsed), raw@, old(logger).logged(), final(logger).logged(), r),
{
    let j = match parsed {
        Ok(j) => j,
        Err(e) => {
            log_parse_failure(logger, "lights", &e, raw);
            return Err(CoreError::Serialization(e));
        },
    };
    match LightResponse::from_json(&j) {
        Some(lights) => Ok(lights),
        None => {
            let e = shape_error("the answer is not a map from light number to light");
            log_parse_failure(logger, "lights", &e, raw);
            Err(CoreError::Serialization(e))
        },
    }
}

/// Reads the lights list from its body.
pub fn get_all_lights_from_text<L: ILogger>(raw: &str, logger: &mut L) -> (r: CoreResult<LightResponse>)
    ensures
        get_all_lights_result(json_parse(raw@), raw@, old(logger).logged(), final(logger).logged(), r),
{
    let parsed = parse_json(raw);
    get_all_lights_from_json(parsed, raw, logger)
}

/// The URL that lists the lights.
pub fn lights_request(ip_address: &str, username: &str) -> (r: String)
    ensures
        r@ == lights_url(ip_address@, username@),
{
    let mut url = "http://".to_owned();
    url.append(ip_address);
    url.append("/api/");
    url.append(username);
    url.append("/lights");
    url
}

/// What a lights call does: it sends one GET, without headers, to the
/// lights URL; a transport error comes back unchanged with nothing logged,
/// and an answer is read as [`get_all_lights_from_text`] states.
pub open spec fn get_all_lights_call(
    ip: Seq<char>,
    username: Seq<char>,
    calls_before: Seq<ClientCall>,
    calls_after: Seq<ClientCall>,
    before: Seq<Seq<char>>,
    after: Seq<Seq<char>>,
    r: CoreResult<LightResponse>,
) -> bool {
    &&& calls_after.len() == calls_before.len() + 1
    &&& calls_after.drop_last() == calls_before
    &&& match calls_after.last() {
        ClientCall::Get { url, headers, result } => {
            &&& url == lights_url(ip, username)
            &&& headers.len() == 0
            &&& match result {
                Err(e) => r == Err::<LightResponse, CoreError>(e) && after == before,
                Ok(raw) => get_all_lights_result(json_parse(raw@), raw@, before, after, r),
            }
        },
        _ => false,
    }
}

/// Fetches every light the bridge at `ip_address` knows. Unless the
/// transport fails, the answer is read as [`get_all_lights_from_text`]
/// states.
pub fn async_get_all_lights<C: HueClient, L: ILogger>(
    ip_address: &str,
    username: &str,
    client: &mut C,
    logger: &mut L,
) -> (r: CoreResult<LightResponse>)
    ensures
        get_all_lights_call(
            ip_address@,
            username@,
            old(client).calls(),
            final(client).calls(),
            old(logger).logged(),
            final(logger).logged(),
            r,
        ),
{
    let url = lights_request(ip_address, username);
    let answer = client.get(url.as_str(), Vec::new());
    proof {
        assert(client.calls().drop_last() =~= old(client).calls());
    }
    let raw = match answer {
        Ok(raw) => raw,
        Err(e) => {
            return Err(e);
        },
    };
    get_all_lights_from_text(raw.as_str(), logger)
}

/// What a command answer yields: every entry of the parsed body, in order,
/// or else a serialization error and one logged line.
pub open spec fn set_light_state_result(
    parsed: Option<Json>,
    raw: Seq<char>,
    before: Seq<Seq<char>>,
    after: Seq<Seq<char>>,
    r: CoreResult<HueResponse>,
) -> bool {
    match (match parsed {
        Some(j) => hue_response_of(j),
        None => None,
    }) {
        Some(es) => r matches Ok(v) && v@ == es && after == before,
        None => r matches Err(CoreError::Serialization(_)) && logged_parse_failure(
            before,
            after,
            "light state response"@,
            raw,
        ),
    }
}

/// Reads the answer to a state change, given what the parser made of the
/// body `raw`. Success and error entries are both data here.
pub fn set_light_state_from_json<L: ILogger>(
    parsed: Result<Json, serde_json::Error>,
    raw: &str,
    logger: &mut L,
) -> (r: CoreResult<HueResponse>)
    ensures
        set_light_state_result(parsed_view(parsed), raw@, old(logger).logged(), final(logger).logged(), r),
{
    let j = match parsed {
        Ok(j) => j,
        Err(e) => {
            log_parse_failure(logger, "light state response", &e, raw);
            return Err(CoreError::Serialization(e));
        },
    };
    match hue_response_from_json(j) {
        Some(entries) => Ok(entries),
        None => {
            let e = shape_error("the answer is not a list of command entries");
            log_parse_failure(logger, "light state response", &e, raw);
            Err(CoreError::Serialization(e))
        },
    }
}

/// Reads the answer to a state change from its body.
pub fn set_light_state_from_text<L: ILogger>(raw: &str, logger: &mut L) -> (r: CoreResult<HueResponse>)
    ensures
        set_light_state_result(json_parse(raw@), raw@, old(logger).logged(), final(logger).logged(), r),
{
    let parsed = parse_json(raw);
    set_light_state_from_json(parsed, raw, logger)
}

/// The URL and body of a state change: the body holds the set attributes
/// only.
pub fn set_light_state_request(ip_address: &str, username: &str, light_id: LightId, state: &LightState) -> (r: (String, String))
    ensures
        r.0@ == light_state_url(ip_address@, username@, light_id),
        r.1@ == object_text(light_state_fields(*state)),
{
    let mut url = "http://".to_owned();
    url.append(ip_address);
    url.append("/api/");
    url.append(username);
    url.append("/lights/");
    let id = decimal_text(light_id as u64);
    url.append(id.as_str());
    url.append("/state");
    (url, state.to_json_text())
}

/// What a state change does: it sends one PUT, with a JSON content type, to
/// the light's state URL, whose body holds the set attributes only; a
/// transport error comes back unchanged with nothing logged, and an answer
/// is read as [`set_light_state_from_text`] states.
pub open spec fn set_light_state_call(
    ip: Seq<char>,
    username: Seq<char>,
    light_id: LightId,
    state: LightState,
    calls_before: Seq<ClientCall>,
    calls_after: Seq<ClientCall>,
    before: Seq<Seq<char>>,
    after: Seq<Seq<char>>,
    r: CoreResult<HueResponse>,
) -> bool {
    &&& calls_after.len() == calls_before.len() + 1
    &&& calls_after.drop_last() == calls_before
    &&& match calls_after.last() {
        ClientCall::Put { url, body, headers, result } => {
            &&& url == light_state_url(ip, username, light_id)
            &&& body == object_text(light_state_fields(state))
            &&& is_json_headers(headers)
            &&& match result {
                Err(e) => r == Err::<HueResponse, CoreError>(e) && after == before,
                Ok(raw) => set_light_state_result(json_parse(raw@), raw@, before, after, r),
            }
        },
        _ => false,
    }
}

/// Changes the state of one light. Unless the transport fails, the answer
/// is read as [`set_light_state_from_text`] states.
pub fn async_set_light_state<C: HueClient, L: ILogger>(
    ip_address: &str,
    username: &str,
    light_id: LightId,
    state: &LightState,
    client: &mut C,
    logger: &mut L,
) -> (r: CoreResult<HueResponse>)
    ensures
        set_light_state_call(
            ip_address@,
            username@,
            light_id,
            *state,
            old(client).calls(),
            final(client).calls(),
            old(logger).logged(),
            final(logger).logged(),
            r,
        ),
{
    let (url, body) = set_light_state_request(ip_address, username, light_id, state);
    let answer = client.put_json(url.as_str(), body.as_str(), json_headers());
    proof {
        assert(client.calls().drop_last() =~= old(client).calls());
    }
    let raw = match answer {
        Ok(raw) => raw,
        Err(e) => {
            return Err(e);
        },
    };
    set_light_state_from_text(raw.as_str(), logger)
}

/// The resource path of one attribute of a light's state.
pub fn state_path(light_id: LightId, field: &str) -> (r: String)
    ensures
        r@ == light_state_path(light_id, field@),
{
    let mut p = "/lights/".to_owned();
    let id = decimal_text(light_id as u64);
    p.append(id.as_str());
    p.append("/state/");
    p.append(field);
    p
}

/// The state that toggles a light: on when it is not reported on, off when
/// it is. A light missing from the list is an error.
pub fn toggled_state(lights: &LightResponse, light_id: LightId) -> (r: CoreResult<LightState>)
    ensures
        r is Ok <==> lights.0@.contains_key(light_id),
        r matches Ok(s) ==> s == (LightState {
            on: Some(lights.0@[light_id].state.on != Some(true)),
            brightness: None,
            hue: None,
            saturation: None,
        }),
        r matches Err(e) ==> e matches CoreError::Bridge(HueBridgeError::LightNotFound),
{
    match lights.0.get(&light_id) {
        Some(light) => {
            let on = match light.state.on {
                Some(b) => b,
                None => false,
            };
            Ok(LightState::default().with_on(!on))
        },
        None => Err(CoreError::Bridge(HueBridgeError::LightNotFound)),
    }
}

pub open spec fn toggle_line(succeeded: bool, light_id: LightId) -> Seq<char> {
    if succeeded {
        "Successfully toggled the light "@ + decimal(light_id as nat) + "!"@
    } else {
        "Failed to toggle light "@ + decimal(light_id as nat) + "!"@
    }
}

/// The line that reports a toggle: it succeeded when a success entry names
/// the light's `on` attribute.
pub fn toggle_message(response: &HueResponse, light_id: LightId) -> (r: String)
    ensures
        r@ == toggle_line(
            exists|i: int|
                0 <= i < response@.len() && (#[trigger] response@[i] matches crate::models::hueerror::HueResponseEntry::Success {
                    success,
                } && member(member_views(success@), light_state_path(light_id, "on"@)) is Some),
            light_id,
        ),
{
    let path = state_path(light_id, "on");
    let id = decimal_text(light_id as u64);
    let ok = crate::models::hueerror::reports_success(response, path.as_str());
    let mut line = if ok {
        "Successfully toggled the light ".to_owned()
    } else {
        "Failed to toggle light ".to_owned()
    };
    line.append(id.as_str());
    line.append("!");
    line
}

pub open spec fn bool_text(b: bool) -> Seq<char> {
    if b {
        "true"@
    } else {
        "false"@
    }
}

pub open spec fn or_zero<T>(o: Option<T>, as_nat: spec_fn(T) -> nat) -> nat {
    match o {
        Some(v) => as_nat(v),
        None => 0,
    }
}

/// The line that lists one light; an unset attribute reads as off or zero.
pub open spec fn light_line(id: LightId, l: Light) -> Seq<char> {
    "Light ID: "@ + decimal(id as nat) + ", On: "@ + bool_text(l.state.on == Some(true)) + ", Name: "@
        + l.name@ + ", Type: "@ + l._type@ + ", Brightness: "@ + decimal(
        or_zero(l.state.brightness, |v: u8| v as nat),
    ) + ", Hue: "@ + decimal(or_zero(l.state.hue, |v: u16| v as nat)) + ", Saturation: "@
        + decimal(or_zero(l.state.saturation, |v: u8| v as nat))
}

/// Describes one light for a listing.
pub fn describe_light(id: LightId, light: &Light) -> (r: String)
    ensures
        r@ == light_line(id, *light),
{
    let on = match light.state.on {
        Some(b) => b,
        None => false,
    };
    let bri: u64 = match light.state.brightness {
        Some(v) => v as u64,
        None => 0,
    };
    let hue: u64 = match light.state.hue {
        Some(v) => v as u64,
        None => 0,
    };
    let sat: u64 = match light.state.saturation {
        Some(v) => v as u64,
        None => 0,
    };
    let mut line = "Light ID: ".to_owned();
    line.append(decimal_text(id as u64).as_str());
    line.append(", On: ");
    line.append(if on { "true" } else { "false" });
    line.append(", Name: ");
    line.append(light.name.as_str());
    line.append(", Type: ");
    line.append(light._type.as_str());
    line.append(", Brightness: ");
    line.append(decimal_text(bri).as_str());
    line.append(", Hue: ");
    line.append(decimal_text(hue).as_str());
    line.append(", Saturation: ");
    line.append(decimal_text(sat).as_str());
    line
}

/// The bridge operations that read and change lights.
pub trait HueApi {
    /// The requests sent so far.
    spec fn sent(&self) -> Seq<ClientCall>;

    /// The lines logged so far.
    spec fn log_lines(&self) -> Seq<Seq<char>>;

    /// As [`async_get_all_lights`].
    fn async_get_all_lights(&mut self, ip_address: &str, username: &str) -> (r: CoreResult<LightResponse>)
        ensures
            get_all_lights_call(
                ip_address@,
                username@,
                old(self).sent(),
                final(self).sent(),
                old(self).log_lines(),
                final(self).log_lines(),
                r,
            ),
    ;

    /// As [`async_set_light_state`].
    fn async_set_light_state(
        &mut self,
        ip_address: &str,
        username: &str,
        light_id: LightId,
        state: &LightState,
    ) -> (r: CoreResult<HueResponse>)
        ensures
            set_light_state_call(
                ip_address@,
                username@,
                light_id,
                *state,
                old(self).sent(),
                final(self).sent(),
                old(self).log_lines(),
                final(self).log_lines(),
                r,
            ),
    ;
}

/// The bridge operations over one transport and one log.
pub struct HueApiV1<C: HueClient, L: ILogger> {
    pub client: C,
    pub logger: L,
}

impl<C: HueClient, L: ILogger> HueApiV1<C, L> {
    pub fn new(client: C, logger: L) -> (r: Self)
        ensures
            r.client == client,
            r.logger == logger,
    {
        Self { client, logger }
    }
}

impl<C: HueClient, L: ILogger> HueApi for HueApiV1<C, L> {
    open spec fn sent(&self) -> Seq<ClientCall> {
        self.client.calls()
    }

    open spec fn log_lines(&self) -> Seq<Seq<char>> {
        self.logger.logged()
    }

    fn async_get_all_lights(&mut self, ip_address: &str, username: &str) -> (r: CoreResult<LightResponse>) {
        async_get_all_lights(ip_address, username, &mut self.client, &mut self.logger)
    }

    fn async_set_light_state(
        &mut self,
        ip_address: &str,
        username: &str,
        light_id: LightId,
        state: &LightState,
    ) -> (r: CoreResult<HueResponse>) {
        async_set_light_state(ip_address, username, light_id, state, &mut self.client, &mut self.logger)
    }
}

} // verus!

//! Lights and their state.
use std::collections::HashMap;
use vstd::prelude::*;

use crate::json::{
    is_scalar, lemma_member_concat, lemma_member_single, member, member_views, object_text,
    optional_bool, optional_integer, read_optional_bool, read_optional_integer, read_required_text,
    required_text, write_object, Json,
};

verus! {

broadcast use vstd::std_specs::hash::group_hash_axioms;

/// A light's number, as the bridge assigns it.
pub type LightId = u32;

/// Every light the bridge reports, by number.
#[derive(Debug)]
pub struct LightResponse(pub HashMap<LightId, Light>);

/// One light as the bridge reports it.
#[derive(Debug, PartialEq)]
pub struct Light {
    pub state: LightState,
    pub name: String,
    pub _type: String,
}

/// The settable attributes of a light. Each is optional: a request carries
/// only the attributes that are set, and the bridge leaves the others as
/// they are.
#[derive(Debug, Clone, Copy, PartialEq, Eq, Structural)]
pub struct LightState {
    pub on: Option<bool>,
    pub brightness: Option<u8>,
    pub hue: Option<u16>,
    pub saturation: Option<u8>,
}

impl Default for LightState {
    fn default() -> (r: Self)
        ensures
            r.on is None,
            r.brightness is None,
            r.hue is None,
            r.saturation is None,
    {
        LightState { on: None, brightness: None, hue: None, saturation: None }
    }
}

pub open spec fn narrow_u8(o: Option<i128>) -> Option<u8> {
    match o {
        Some(n) => Some(n as u8),
        None => None,
    }
}

pub open spec fn narrow_u16(o: Option<i128>) -> Option<u16> {
    match o {
        Some(n) => Some(n as u16),
        None => None,
    }
}

/// The light state that a JSON value holds: an object whose `on` is a
/// boolean, whose `bri` and `sat` are integers from 0 to 255 and whose `hue`
/// is an integer from 0 to 65535, each of them absent or null when unset.
/// Other members are ignored.
pub open spec fn light_state_of(j: Json) -> Option<LightState> {
    match j {
        Json::Object(ms) => {
            let vs = member_views(ms@);
            let on = optional_bool(vs, "on"@);
            let bri = optional_integer(vs, "bri"@, 0, 255);
            let hue = optional_integer(vs, "hue"@, 0, 65535);
            let sat = optional_integer(vs, "sat"@, 0, 255);
            if on is Some && bri is Some && hue is Some && sat is Some {
                Some(
                    LightState {
                        on: on->0,
                        brightness: narrow_u8(bri->0),
                        hue: narrow_u16(hue->0),
                        saturation: narrow_u8(sat->0),
                    },
                )
            } else {
                None
            }
        },
        _ => None,
    }
}

/// The members that encode a light state: one per set attribute, in the
/// order `on`, `bri`, `hue`, `sat`.
pub open spec fn light_state_fields(s: LightState) -> Seq<(Seq<char>, Json)> {
    let on = match s.on {
        Some(b) => seq![("on"@, Json::Bool(b))],
        None => Seq::empty(),
    };
    let bri = match s.brightness {
        Some(n) => seq![("bri"@, Json::Number(Some(n as i128)))],
        None => Seq::empty(),
    };
    let hue = match s.hue {
        Some(n) => seq![("hue"@, Json::Number(Some(n as i128)))],
        None => Seq::empty(),
    };
    let sat = match s.saturation {
        Some(n) => seq![("sat"@, Json::Number(Some(n as i128)))],
        None => Seq::empty(),
    };
    on + bri + hue + sat
}

proof fn lemma_state_member(s: LightState, key: Seq<char>)
    ensures
        member(light_state_fields(s), key) == if key == "on"@ && s.on is Some {
            Some(Json::Bool(s.on->0))
        } else if key == "bri"@ && s.brightness is Some {
            Some(Json::Number(Some(s.brightness->0 as i128)))
        } else if key == "hue"@ && s.hue is Some {
            Some(Json::Number(Some(s.hue->0 as i128)))
        } else if key == "sat"@ && s.saturation is Some {
            Some(Json::Number(Some(s.saturation->0 as i128)))
        } else {
            None
        },
{
    reveal_strlit("on");
    reveal_strlit("bri");
    reveal_strlit("hue");
    reveal_strlit("sat");
    assert("bri"@ != "hue"@) by {
        assert("bri"@[0] != "hue"@[0]);
    }
    assert("bri"@ != "sat"@) by {
        assert("bri"@[0] != "sat"@[0]);
    }
    assert("hue"@ != "sat"@) by {
        assert("hue"@[0] != "sat"@[0]);
    }
    let on = match s.on {
        Some(b) => seq![("on"@, Json::Bool(b))],
        None => Seq::empty(),
    };
    let bri = match s.brightness {
        Some(n) => seq![("bri"@, Json::Number(Some(n as i128)))],
        None => Seq::empty(),
    };
    let hue = match s.hue {
        Some(n) => seq![("hue"@, Json::Number(Some(n as i128)))],
        None => Seq::empty(),
    };
    let sat = match s.saturation {
        Some(n) => seq![("sat"@, Json::Number(Some(n as i128)))],
        None => Seq::empty(),
    };
    assert(light_state_fields(s) == on + bri + hue + sat);
    assert(member(Seq::<(Seq<char>, Json)>::empty(), key) is None);
    lemma_member_concat(on, bri, key);
    lemma_member_concat(on + bri, hue, key);
    lemma_member_concat(on + bri + hue, sat, key);
    if let Some(b) = s.on {
        lemma_member_single("on"@, Json::Bool(b), key);
    }
    if let Some(n) = s.brightness {
        lemma_member_single("bri"@, Json::Number(Some(n as i128)), key);
    }
    if let Some(n) = s.hue {
        lemma_member_single("hue"@, Json::Number(Some(n as i128)), key);
    }
    if let Some(n) = s.saturation {
        lemma_member_single("sat"@, Json::Number(Some(n as i128)), key);
    }
}

proof fn lemma_state_fields_scalar(s: LightState)
    ensures
        forall|i: int|
            0 <= i < light_state_fields(s).len() ==> is_scalar(#[trigger] light_state_fields(s)[i].1),
{
    let fields = light_state_fields(s);
    assert forall|i: int| 0 <= i < fields.len() implies is_scalar(#[trigger] fields[i].1) by {
        let on = match s.on {
            Some(b) => seq![("on"@, Json::Bool(b))],
            None => Seq::empty(),
        };
        let bri = match s.brightness {
            Some(n) => seq![("bri"@, Json::Number(Some(n as i128)))],
            None => Seq::empty(),
        };
        let hue = match s.hue {
            Some(n) => seq![("hue"@, Json::Number(Some(n as i128)))],
            None => Seq::empty(),
        };
        let sat = match s.saturation {
            Some(n) => seq![("sat"@, Json::Number(Some(n as i128)))],
            None => Seq::empty(),
        };
        assert(fields == on + bri + hue + sat);
        if i < on.len() {
            assert(fields[i] == on[i]);
        } else if i < on.len() + bri.len() {
            assert(fields[i] == bri[i - on.len()]);
        } else if i < on.len() + bri.len() + hue.len() {
            assert(fields[i] == hue[i - on.len() - bri.len()]);
        } else {
            assert(fields[i] == sat[i - on.len() - bri.len() - hue.len()]);
        }
    }
}

/// Decoding what encoding a light state writes gives that state back: any
/// JSON object that holds the encoded members, in whatever order, reads as
/// the same state, field for field. An unset attribute is written as no
/// member at all, never as a null.
pub proof fn lemma_light_state_round_trip(s: LightState, j: Json)
    requires
        j matches Json::Object(ms) && forall|k: Seq<char>|
            #[trigger] member(member_views(ms@), k) == member(light_state_fields(s), k),
    ensures
        light_state_of(j) == Some(s),
        forall|i: int|
            0 <= i < light_state_fields(s).len() ==> !(#[trigger] light_state_fields(s)[i].1 is Null),
        (member(light_state_fields(s), "on"@) is Some) == (s.on is Some),
        (member(light_state_fields(s), "bri"@) is Some) == (s.brightness is Some),
        (member(light_state_fields(s), "hue"@) is Some) == (s.hue is Some),
        (member(light_state_fields(s), "sat"@) is Some) == (s.saturation is Some),
{
    reveal_strlit("on");
    reveal_strlit("bri");
    reveal_strlit("hue");
    reveal_strlit("sat");
    assert("on"@.len() == 2 && "bri"@.len() == 3 && "hue"@.len() == 3 && "sat"@.len() == 3);
    assert("on"@ != "bri"@ && "on"@ != "hue"@ && "on"@ != "sat"@);
    assert("bri"@ != "hue"@) by {
        assert("bri"@[0] != "hue"@[0]);
    }
    assert("bri"@ != "sat"@) by {
        assert("bri"@[0] != "sat"@[0]);
    }
    assert("hue"@ != "sat"@) by {
        assert("hue"@[0] != "sat"@[0]);
    }
    lemma_state_member(s, "on"@);
    lemma_state_member(s, "bri"@);
    lemma_state_member(s, "hue"@);
    lemma_state_member(s, "sat"@);
    lemma_state_fields_scalar(s);
}

/// The light that a JSON value holds: an object with a `state`, a `name`
/// and a `type`.
pub open spec fn light_of(j: Json) -> Option<Light> {
    match j {
        Json::Object(ms) => {
            let vs = member_views(ms@);
            let state = match member(vs, "state"@) {
                Some(s) => light_state_of(s),
                None => None,
            };
            let name = required_text(vs, "name"@);
            let kind = required_text(vs, "type"@);
            if state is Some && name is Some && kind is Some {
                Some(Light { state: state->0, name: name->0, _type: kind->0 })
            } else {
                None
            }
        },
        _ => None,
    }
}

pub open spec fn is_digit(c: char) -> bool {
    '0' <= c <= '9'
}

/// The number that a run of decimal digits denotes.
pub open spec fn digits_value(s: Seq<char>) -> nat
    decreases s.len(),
{
    if s.len() == 0 {
        0
    } else {
        digits_value(s.drop_last()) * 10 + (s.last() as u32 - '0' as u32) as nat
    }
}

/// The light number that a member name denotes: one or more decimal
/// digits, with a value that fits in 32 bits.
pub open spec fn light_id_of(s: Seq<char>) -> Option<LightId> {
    if s.len() > 0 && (forall|i: int| 0 <= i < s.len() ==> is_digit(#[trigger] s[i]))
        && digits_value(s) <= u32::MAX {
        Some(digits_value(s) as u32)
    } else {
        None
    }
}

/// The lights that the members of an object describe, read in order; a
/// later member for the same number replaces an earlier one.
pub open spec fn lights_of_members(ms: Seq<(Seq<char>, Json)>) -> Option<Map<LightId, Light>>
    decreases ms.len(),
{
    if ms.len() == 0 {
        Some(Map::empty())
    } else {
        match lights_of_members(ms.drop_last()) {
            Some(m) => match (light_id_of(ms.last().0), light_of(ms.last().1)) {
                (Some(id), Some(l)) => Some(m.insert(id, l)),
                _ => None,
            },
            None => None,
        }
    }
}

proof fn lemma_lights_prefix_fails(ms: Seq<(Seq<char>, Json)>, k: int)
    requires
        0 <= k <= ms.len(),
        lights_of_members(ms.take(k)) is None,
    ensures
        lights_of_members(ms) is None,
    decreases ms.len() - k,
{
    if k < ms.len() {
        assert(ms.take(k + 1).drop_last() =~= ms.take(k));
        lemma_lights_prefix_fails(ms, k + 1);
    } else {
        assert(ms.take(k) =~= ms);
    }
}

/// The lights that a JSON value describes: an object from light number to
/// light.
pub open spec fn lights_of(j: Json) -> Option<Map<LightId, Light>> {
    match j {
        Json::Object(ms) => lights_of_members(member_views(ms@)),
        _ => None,
    }
}

/// Reads a light number from a member name.
pub fn parse_light_id(s: &str) -> (r: Option<LightId>)
    ensures
        r == light_id_of(s@),
{
    let n = s.unicode_len();
    if n == 0 {
        return None;
    }
    let mut acc: u64 = 0;
    let mut i: usize = 0;
    while i < n
        invariant
            n == s@.len(),
            i <= n,
            forall|k: int| 0 <= k < i ==> is_digit(#[trigger] s@[k]),
            acc == if digits_value(s@.take(i as int)) <= u32::MAX {
                digits_value(s@.take(i as int))
            } else {
                u32::MAX as nat + 1
            },
        decreases n - i,
    {
        let c = s.get_char(i);
        if !('0' <= c && c <= '9') {
            return None;
        }
        assert(s@.take(i as int + 1).drop_last() =~= s@.take(i as int));
        let d = (c as u32 - '0' as u32) as u64;
        if acc <= u32::MAX as u64 {
            acc = acc * 10 + d;
        }
        if acc > u32::MAX as u64 {
            acc = u32::MAX as u64 + 1;
        }
        i = i + 1;
    }
    assert(s@.take(n as int) =~= s@);
    if acc <= u32::MAX as u64 {
        Some(acc as u32)
    } else {
        None
    }
}

impl LightState {
    pub fn with_on(self, on: bool) -> (r: Self)
        ensures
            r == (LightState { on: Some(on), ..self }),
    {
        LightState { on: Some(on), ..self }
    }

    pub fn with_brightness(self, brightness: u8) -> (r: Self)
        ensures
            r == (LightState { brightness: Some(brightness), ..self }),
    {
        LightState { brightness: Some(brightness), ..self }
    }

    pub fn with_hue(self, hue: u16) -> (r: Self)
        ensures
            r == (LightState { hue: Some(hue), ..self }),
    {
        LightState { hue: Some(hue), ..self }
    }

    pub fn with_saturation(self, saturation: u8) -> (r: Self)
        ensures
            r == (LightState { saturation: Some(saturation), ..self }),
    {
        LightState { saturation: Some(saturation), ..self }
    }

    /// Reads a light state from JSON.
    pub fn from_json(j: &Json) -> (r: Option<LightState>)
        ensures
            r == light_state_of(*j),
    {
        match j {
            Json::Object(ms) => {
                let on = read_optional_bool(ms, "on");
                let bri = read_optional_integer(ms, "bri", 0, 255);
                let hue = read_optional_integer(ms, "hue", 0, 65535);
                let sat = read_optional_integer(ms, "sat", 0, 255);
                match (on, bri, hue, sat) {
                    (Some(on), Some(bri), Some(hue), Some(sat)) => Some(
                        LightState {
                            on,
                            brightness: match bri {
                                Some(n) => Some(n as u8),
                                None => None,
                            },
                            hue: match hue {
                                Some(n) => Some(n as u16),
                                None => None,
                            },
                            saturation: match sat {
                                Some(n) => Some(n as u8),
                                None => None,
                            },
                        },
                    ),
                    _ => None,
                }
            },
            _ => None,
        }
    }

    /// The members that encode this state, one per set attribute.
    pub fn json_members(&self) -> (r: Vec<(String, Json)>)
        ensures
            member_views(r@) == light_state_fields(*self),
    {
        let mut r: Vec<(String, Json)> = Vec::new();
        if let Some(b) = self.on {
            r.push(("on".to_owned(), Json::Bool(b)));
        }
        let ghost a = r@;
        if let Some(n) = self.brightness {
            r.push(("bri".to_owned(), Json::Number(Some(n as i128))));
        }
        let ghost b = r@;
        if let Some(n) = self.hue {
            r.push(("hue".to_owned(), Json::Number(Some(n as i128))));
        }
        let ghost c = r@;
        if let Some(n) = self.saturation {
            r.push(("sat".to_owned(), Json::Number(Some(n as i128))));
        }
        assert(member_views(r@) =~= light_state_fields(*self));
        r
    }

    /// The request body for this state: a JSON object with a member for each
    /// set attribute and none for the others.
    pub fn to_json_text(&self) -> (r: String)
        ensures
            r@ == object_text(light_state_fields(*self)),
    {
        let ms = self.json_members();
        proof {
            lemma_state_fields_scalar(*self);
        }
        assert forall|i: int| 0 <= i < ms@.len() implies is_scalar(#[trigger] ms@[i].1) by {
            assert(member_views(ms@)[i].1 == ms@[i].1);
        }
        write_object(&ms)
    }
}

impl Light {
    /// Reads a light from JSON.
    pub fn from_json(j: &Json) -> (r: Option<Light>)
        ensures
            r == light_of(*j),
    {
        match j {
            Json::Object(ms) => {
                let state = match crate::json::find_member(ms, "state") {
                    Some(i) => LightState::from_json(&ms[i].1),
                    None => None,
                };
                let name = read_required_text(ms, "name");
                let kind = read_required_text(ms, "type");
                match (state, name, kind) {
                    (Some(state), Some(name), Some(kind)) => Some(
                        Light { state, name, _type: kind },
                    ),
                    _ => None,
                }
            },
            _ => None,
        }
    }
}

impl LightResponse {
    /// Reads the lights list: a JSON object from light number to light.
    pub fn from_json(j: &Json) -> (r: Option<LightResponse>)
        ensures
            r is Some <==> lights_of(*j) is Some,
            r matches Some(lr) ==> lr.0@ == lights_of(*j)->0,
    {
        match j {
            Json::Object(ms) => {
                let mut map: HashMap<LightId, Light> = HashMap::new();
                let mut i: usize = 0;
                while i < ms.len()
                    invariant
                        i <= ms@.len(),
                        lights_of_members(member_views(ms@.take(i as int))) == Some(map@),
                        lights_of(*j) == lights_of_members(member_views(ms@)),
                    decreases ms@.len() - i,
                {
                    let ghost vs = member_views(ms@.take(i as int + 1));
                    assert(vs.drop_last() =~= member_views(ms@.take(i as int)));
                    assert(vs.last() == (ms@[i as int].0@, ms@[i as int].1));
                    let id = parse_light_id(ms[i].0.as_str());
                    let light = Light::from_json(&ms[i].1);
                    match (id, light) {
                        (Some(id), Some(light)) => {
                            map.insert(id, light);
                        },
                        _ => {
                            proof {
                                assert(lights_of_members(vs) is None);
                                assert(member_views(ms@.take(i as int + 1)) =~= member_views(
                                    ms@,
                                ).take(i as int + 1));
                                lemma_lights_prefix_fails(member_views(ms@), i as int + 1);
                            }
                            return None;
                        },
                    }
                    i = i + 1;
                }
                assert(ms@.take(i as int) =~= ms@);
                Some(LightResponse(map))
            },
            _ => None,
        }
    }
}

} // verus!

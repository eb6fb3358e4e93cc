use vstd::prelude::*;

verus! {

broadcast use vstd::std_specs::vec::group_vec_axioms;

/// A JSON value as the library reads and builds it.
///
/// Scalars that tool arguments are coerced from are held as plain values; a
/// number that is not an integer in range is held as its JSON text, and so is
/// any other value that arrives in argument text (null, a nested array or
/// object).
#[derive(Debug, PartialEq, Eq)]
pub enum JsonValue {
    Bool(bool),
    /// An integer in the range of `i64`.
    Int(i64),
    /// A non-negative integer, possibly above `i64::MAX`.
    UInt(u64),
    Str(String),
    Array(Vec<JsonValue>),
    /// Members in order; lookups take the first member with a key.
    Object(Vec<(String, JsonValue)>),
    /// A number that is not an integer in range, held as its JSON text.
    Fraction(String),
    /// Another JSON value, held as its text.
    Encoded(String),
}

/// The mathematical model of a `JsonValue`.
pub enum JsonView {
    Bool(bool),
    Int(i64),
    UInt(u64),
    Str(Seq<char>),
    Array(Seq<JsonView>),
    Object(Seq<(Seq<char>, JsonView)>),
    Fraction(Seq<char>),
    Encoded(Seq<char>),
}

/// The model of a value: its members and elements modelled in turn.
pub open spec fn view_of(v: JsonValue) -> JsonView
    decreases v,
{
    match v {
        JsonValue::Bool(b) => JsonView::Bool(b),
        JsonValue::Int(i) => JsonView::Int(i),
        JsonValue::UInt(u) => JsonView::UInt(u),
        JsonValue::Str(s) => JsonView::Str(s@),
        JsonValue::Fraction(s) => JsonView::Fraction(s@),
        JsonValue::Encoded(s) => JsonView::Encoded(s@),
        JsonValue::Array(items) => JsonView::Array(
            Seq::new(
                items@.len(),
                |i: int|
                    if 0 <= i < items@.len() {
                        view_of(items@[i])
                    } else {
                        JsonView::Bool(false)
                    },
            ),
        ),
        JsonValue::Object(members) => JsonView::Object(
            Seq::new(
                members@.len(),
                |i: int|
                    if 0 <= i < members@.len() {
                        (members@[i].0@, view_of(members@[i].1))
                    } else {
                        (Seq::empty(), JsonView::Bool(false))
                    },
            ),
        ),
    }
}

impl View for JsonValue {
    type V = JsonView;

    open spec fn view(&self) -> JsonView {
        view_of(*self)
    }
}

/// The members of a JSON object text, one per key in ascending key order (the
/// last where a key repeats), each value as its exact JSON text; `None` where
/// the text is not a JSON object.
pub uninterp spec fn object_members_of(text: Seq<char>) -> Option<Seq<(Seq<char>, Seq<char>)>>;

/// The boolean that a JSON text denotes, if it denotes one.
pub uninterp spec fn bool_of(text: Seq<char>) -> Option<bool>;

/// The `i64` that a JSON text denotes, if it denotes an integer in range.
pub uninterp spec fn i64_of(text: Seq<char>) -> Option<i64>;

/// The `u64` that a JSON text denotes, if it denotes an integer in range.
pub uninterp spec fn u64_of(text: Seq<char>) -> Option<u64>;

/// The string that a JSON text denotes, if it denotes one.
pub uninterp spec fn string_of(text: Seq<char>) -> Option<Seq<char>>;

/// Whether a JSON text denotes a number.
pub uninterp spec fn number_text(text: Seq<char>) -> bool;

/// The views of a sequence of key/text pairs.
pub open spec fn pair_views(m: Seq<(String, String)>) -> Seq<(Seq<char>, Seq<char>)> {
    m.map_values(|p: (String, String)| (p.0@, p.1@))
}

/// Relies on `serde_json::from_str` into a `BTreeMap` of `RawValue`s: it
/// succeeds exactly on JSON object text, and hands out each member's key and
/// the exact text of its value.
#[verifier::external_body]
fn read_object_members(text: &str) -> (r: Result<Vec<(String, String)>, serde_json::Error>)
    ensures
        match r {
            Ok(m) => object_members_of(text@) == Some(pair_views(m@)),
            Err(_) => object_members_of(text@) is None,
        },
{
    serde_json::from_str::<std::collections::BTreeMap<String, Box<serde_json::value::RawValue>>>(text)
        .map(|m| m.into_iter().map(|(k, v)| (k, v.get().to_string())).collect())
}

/// Relies on `serde_json::from_str::<bool>`.
#[verifier::external_body]
fn read_bool(text: &str) -> (r: Option<bool>)
    ensures
        r == bool_of(text@),
{
    serde_json::from_str::<bool>(text).ok()
}

/// Relies on `serde_json::from_str::<i64>`.
#[verifier::external_body]
fn read_i64(text: &str) -> (r: Option<i64>)
    ensures
        r == i64_of(text@),
{
    serde_json::from_str::<i64>(text).ok()
}

/// Relies on `serde_json::from_str::<u64>`.
#[verifier::external_body]
fn read_u64(text: &str) -> (r: Option<u64>)
    ensures
        r == u64_of(text@),
{
    serde_json::from_str::<u64>(text).ok()
}

/// Relies on `serde_json::from_str::<serde_json::Number>`: it succeeds on the
/// text of any JSON number.
#[verifier::external_body]
fn read_number(text: &str) -> (r: bool)
    ensures
        r == number_text(text@),
{
    serde_json::from_str::<serde_json::Number>(text).is_ok()
}

/// Relies on `serde_json::from_str::<String>`: it decodes a JSON string
/// literal, escapes included.
#[verifier::external_body]
fn read_string(text: &str) -> (r: Option<String>)
    ensures
        match r {
            Some(s) => string_of(text@) == Some(s@),
            None => string_of(text@) is None,
        },
{
    serde_json::from_str::<String>(text).ok()
}

/// The model of a member value given as JSON text: a boolean, an integer or a
/// string where the text denotes one (tried in that order), a number held as
/// its text where it denotes another number, else the text itself.
pub open spec fn value_of_text(text: Seq<char>) -> JsonView {
    match bool_of(text) {
        Some(b) => JsonView::Bool(b),
        None => match i64_of(text) {
            Some(i) => JsonView::Int(i),
            None => match u64_of(text) {
                Some(u) => JsonView::UInt(u),
                None => match string_of(text) {
                    Some(s) => JsonView::Str(s),
                    None => if number_text(text) {
                        JsonView::Fraction(text)
                    } else {
                        JsonView::Encoded(text)
                    },
                },
            },
        },
    }
}

/// The model of an object read from member texts.
pub open spec fn object_of_members(members: Seq<(Seq<char>, Seq<char>)>) -> JsonView {
    JsonView::Object(
        members.map_values(|p: (Seq<char>, Seq<char>)| (p.0, value_of_text(p.1))),
    )
}

/// The models of a sequence of members.
pub open spec fn members_view(members: Seq<(String, JsonValue)>) -> Seq<(Seq<char>, JsonView)> {
    members.map_values(|p: (String, JsonValue)| (p.0@, p.1@))
}

/// The keys of a sequence of modelled members.
pub open spec fn member_keys(members: Seq<(Seq<char>, JsonView)>) -> Seq<Seq<char>> {
    members.map_values(|p: (Seq<char>, JsonView)| p.0)
}

/// The value of the first member with key `key`.
pub open spec fn member_of(members: Seq<(Seq<char>, JsonView)>, key: Seq<char>) -> Option<JsonView> {
    match member_keys(members).index_of_first(key) {
        Some(i) => Some(members[i].1),
        None => None,
    }
}

/// The value of the first member with key `key` where `v` is an object.
pub open spec fn field_of(v: JsonView, key: Seq<char>) -> Option<JsonView> {
    match v {
        JsonView::Object(members) => member_of(members, key),
        _ => None,
    }
}

/// The model of an object is the model of its members.
pub proof fn lemma_object_view(members: Vec<(String, JsonValue)>)
    ensures
        JsonValue::Object(members)@ == JsonView::Object(members_view(members@)),
{
    let v = JsonValue::Object(members);
    assert(v@->Object_0 =~= members_view(members@));
}

/// A key found at `i` and at no earlier position is the key's first index.
pub proof fn lemma_first_index(keys: Seq<Seq<char>>, key: Seq<char>, i: int)
    requires
        0 <= i < keys.len(),
        keys[i] == key,
        forall|j: int| 0 <= j < i ==> keys[j] != key,
    ensures
        keys.index_of_first(key) == Some(i),
{
    keys.index_of_first_ensures(key);
    assert(keys.contains(key));
    match keys.index_of_first(key) {
        Some(k) => {
            if k < i {
                assert(keys[k] == key);
            } else if k > i {
                assert(keys[i] == key);
            }
        },
        None => {},
    }
}

/// Finds the first member with key `key`.
pub fn find_member(members: &Vec<(String, JsonValue)>, key: &str) -> (r: Option<usize>)
    ensures
        match r {
            Some(i) => {
                &&& i < members@.len()
                &&& member_keys(members_view(members@)).index_of_first(key@) == Some(i as int)
            },
            None => member_keys(members_view(members@)).index_of_first(key@) is None,
        },
{
    let ghost keys = member_keys(members_view(members@));
    let mut i: usize = 0;
    while i < members.len()
        invariant
            keys == member_keys(members_view(members@)),
            keys.len() == members@.len(),
            i <= members@.len(),
            forall|j: int| 0 <= j < i ==> keys[j] != key@,
        decreases members.len() - i,
    {
        if str_eq(members[i].0.as_str(), key) {
            proof {
                lemma_first_index(keys, key@, i as int);
            }
            return Some(i);
        }
        i = i + 1;
    }
    proof {
        keys.index_of_first_ensures(key@);
        if keys.contains(key@) {
            let k = choose|k: int| 0 <= k < keys.len() && keys[k] == key@;
            assert(keys[k] != key@);
        }
    }
    None
}

/// Compares two texts character by character.
pub fn str_eq(a: &str, b: &str) -> (r: bool)
    ensures
        r == (a@ == b@),
{
    let sa = String::from_str(a);
    let sb = String::from_str(b);
    sa == sb
}

impl Clone for JsonValue {
    fn clone(&self) -> (r: JsonValue)
        ensures
            r@ == self@,
        decreases self,
    {
        match self {
            JsonValue::Bool(b) => JsonValue::Bool(*b),
            JsonValue::Int(i) => JsonValue::Int(*i),
            JsonValue::UInt(u) => JsonValue::UInt(*u),
            JsonValue::Str(s) => JsonValue::Str(s.clone()),
            JsonValue::Fraction(s) => JsonValue::Fraction(s.clone()),
            JsonValue::Encoded(s) => JsonValue::Encoded(s.clone()),
            JsonValue::Array(items) => {
                let mut out: Vec<JsonValue> = Vec::new();
                let mut i: usize = 0;
                while i < items.len()
                    invariant
                        i <= items@.len(),
                        *self == JsonValue::Array(*items),
                        out@.len() == i,
                        forall|j: int| 0 <= j < i ==> (#[trigger] out@[j])@ == items@[j]@,
                    decreases items.len() - i,
                {
                    proof {
                        assert(decreases_to!(*self => self->Array_0));
                        assert(decreases_to!(self->Array_0 => self->Array_0[i as int]));
                    }
                    out.push(items[i].clone());
                    i = i + 1;
                }
                let r = JsonValue::Array(out);
                proof {
                    let sv = (*self)@;
                    assert(sv->Array_0.len() == items@.len());
                    assert forall|j: int| 0 <= j < items@.len() implies r@->Array_0[j] == sv->Array_0[j] by {}
                    assert(r@->Array_0 =~= self@->Array_0);
                }
                r
            },
            JsonValue::Object(members) => {
                let mut out: Vec<(String, JsonValue)> = Vec::new();
                let mut i: usize = 0;
                while i < members.len()
                    invariant
                        i <= members@.len(),
                        *self == JsonValue::Object(*members),
                        out@.len() == i,
                        forall|j: int|
                            0 <= j < i ==> (#[trigger] out@[j]).0 == members@[j].0 && out@[j].1@
                                == members@[j].1@,
                    decreases members.len() - i,
                {
                    proof {
                        assert(decreases_to!(*self => self->Object_0));
                        assert(decreases_to!(self->Object_0 => self->Object_0[i as int]));
                        assert(decreases_to!(self->Object_0[i as int] => self->Object_0[i as int].1));
                    }
                    let v = members[i].1.clone();
                    out.push((members[i].0.clone(), v));
                    i = i + 1;
                }
                let r = JsonValue::Object(out);
                proof {
                    let sv = (*self)@;
                    assert(sv->Object_0.len() == members@.len());
                    assert forall|j: int| 0 <= j < members@.len() implies r@->Object_0[j] == sv->Object_0[j] by {}
                    assert(r@->Object_0 =~= self@->Object_0);
                }
                r
            },
        }
    }
}

impl JsonValue {
    /// Reads a member value from its JSON text.
    pub fn from_value_text(text: String) -> (r: JsonValue)
        ensures
            r@ == value_of_text(text@),
    {
        if let Some(b) = read_bool(text.as_str()) {
            return JsonValue::Bool(b);
        }
        if let Some(i) = read_i64(text.as_str()) {
            return JsonValue::Int(i);
        }
        if let Some(u) = read_u64(text.as_str()) {
            return JsonValue::UInt(u);
        }
        if let Some(s) = read_string(text.as_str()) {
            return JsonValue::Str(s);
        }
        if read_number(text.as_str()) {
            return JsonValue::Fraction(text);
        }
        JsonValue::Encoded(text)
    }

    /// Reads the text of a JSON object into an `Object` whose members keep
    /// the order in which they are read; fails on any text that is not a JSON
    /// object.
    pub fn parse_object(text: &str) -> (r: Result<JsonValue, serde_json::Error>)
        ensures
            match r {
                Ok(v) => object_members_of(text@) matches Some(m) && v@ == object_of_members(m),
                Err(_) => object_members_of(text@) is None,
            },
    {
        let members = read_object_members(text)?;
        let ghost m = pair_views(members@);
        let ghost target = object_of_members(m)->Object_0;
        let mut out: Vec<(String, JsonValue)> = Vec::new();
        let mut i: usize = 0;
        while i < members.len()
            invariant
                m == pair_views(members@),
                target == object_of_members(m)->Object_0,
                target.len() == members@.len(),
                i <= members@.len(),
                members_view(out@) =~= target.subrange(0, i as int),
            decreases members.len() - i,
        {
            let k = members[i].0.clone();
            let t = members[i].1.clone();
            let v = JsonValue::from_value_text(t);
            let ghost prev = out@;
            out.push((k, v));
            proof {
                assert(m[i as int] == (members@[i as int].0@, members@[i as int].1@));
                assert(members_view(out@) =~= members_view(prev).push((k@, v@)));
                assert(target.subrange(0, i + 1) =~= target.subrange(0, i as int).push(target[i as int]));
            }
            i = i + 1;
        }
        proof {
            lemma_object_view(out);
            assert(target.subrange(0, i as int) =~= target);
        }
        Ok(JsonValue::Object(out))
    }

    /// The value of the first member with key `key`, where `self` is an object.
    pub fn get(&self, key: &str) -> (r: Option<&JsonValue>)
        ensures
            match r {
                Some(v) => field_of(self@, key@) == Some(v@),
                None => field_of(self@, key@) is None,
            },
    {
        match self {
            JsonValue::Object(m) => {
                proof {
                    lemma_object_view(*m);
                }
                match find_member(m, key) {
                    Some(i) => Some(&m[i].1),
                    None => None,
                }
            },
            _ => None,
        }
    }
}

} // verus!

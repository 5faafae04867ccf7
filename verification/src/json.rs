use vstd::prelude::*;

verus! {

broadcast use vstd::std_specs::vec::group_vec_axioms;

/// A JSON number as parsed from text.
#[derive(Debug, Clone, PartialEq)]
pub enum JsonNumber {
    /// A number that fits an `i64`.
    Int(i64),
    /// A non-negative integer.
    UInt(u64),
    /// Any other number, by its decimal text.
    Float(String),
}

/// A JSON value.
#[derive(Debug, PartialEq)]
pub enum JsonValue {
    Null,
    Bool(bool),
    Number(JsonNumber),
    Str(String),
    Array(Vec<JsonValue>),
    Object(Vec<(String, JsonValue)>),
}

/// Mathematical model of a JSON number.
pub enum NumberModel {
    Int(i64),
    UInt(u64),
    Float(Seq<char>),
}

/// Mathematical model of a JSON value.
pub enum Json {
    Null,
    Bool(bool),
    Number(NumberModel),
    Str(Seq<char>),
    Array(Seq<Json>),
    Object(Seq<(Seq<char>, Json)>),
}

impl JsonNumber {
    pub open spec fn model(&self) -> NumberModel {
        match self {
            JsonNumber::Int(i) => NumberModel::Int(*i),
            JsonNumber::UInt(u) => NumberModel::UInt(*u),
            JsonNumber::Float(s) => NumberModel::Float(s@),
        }
    }
}

impl JsonValue {
    pub open spec fn model(&self) -> Json
        decreases self,
    {
        match self {
            JsonValue::Null => Json::Null,
            JsonValue::Bool(b) => Json::Bool(*b),
            JsonValue::Number(n) => Json::Number(n.model()),
            JsonValue::Str(s) => Json::Str(s@),
            JsonValue::Array(items) => Json::Array(
                Seq::new(items.len() as nat, |i: int| if 0 <= i < items.len() { items[i].model() } else { Json::Null }),
            ),
            JsonValue::Object(members) => Json::Object(
                Seq::new(members.len() as nat, |i: int| if 0 <= i < members.len() { (members[i].0@, members[i].1.model()) } else { (Seq::empty(), Json::Null) }),
            ),
        }
    }
}


/// The value of the first member of `members` whose key is `key`.
pub open spec fn member_value(members: Seq<(Seq<char>, Json)>, key: Seq<char>) -> Option<Json>
    decreases members.len(),
{
    if members.len() == 0 {
        None
    } else if members[0].0 == key {
        Some(members[0].1)
    } else {
        member_value(members.drop_first(), key)
    }
}

/// The member `key` of `v` when `v` is an object, else nothing.
pub open spec fn field(v: Json, key: Seq<char>) -> Option<Json> {
    match v {
        Json::Object(members) => member_value(members, key),
        _ => None,
    }
}

/// A `String` holding the characters of `s`.
pub fn text(s: &str) -> (r: String)
    ensures
        r@ == s@,
{
    s.to_string()
}

impl JsonNumber {
    /// A copy of this number.
    pub fn duplicate(&self) -> (r: JsonNumber)
        ensures
            r.model() == self.model(),
    {
        match self {
            JsonNumber::Int(i) => JsonNumber::Int(*i),
            JsonNumber::UInt(u) => JsonNumber::UInt(*u),
            JsonNumber::Float(s) => JsonNumber::Float(s.clone()),
        }
    }
}

/// A deep copy of the items of an array.
#[verifier::loop_isolation(false)]
pub fn duplicate_items(items: &Vec<JsonValue>) -> (r: Vec<JsonValue>)
    ensures
        JsonValue::Array(r).model() == JsonValue::Array(*items).model(),
    decreases items, 0nat,
{
    let mut out: Vec<JsonValue> = Vec::new();
    let mut i: usize = 0;
    while i < items.len()
        invariant
            i <= items.len(),
            out.len() == i,
            forall|j: int| 0 <= j < i ==> (#[trigger] out[j]).model() == items[j].model(),
        decreases items.len() - i,
    {
        proof {
            assert(decreases_to!(items => items[i as int]));
        }
        let c = items[i].duplicate();
        out.push(c);
        i = i + 1;
    }
    assert(JsonValue::Array(out).model()->Array_0 =~= JsonValue::Array(*items).model()->Array_0);
    out
}

/// A deep copy of the members of an object.
#[verifier::loop_isolation(false)]
pub fn duplicate_members(members: &Vec<(String, JsonValue)>) -> (r: Vec<(String, JsonValue)>)
    ensures
        JsonValue::Object(r).model() == JsonValue::Object(*members).model(),
    decreases members, 0nat,
{
    let mut out: Vec<(String, JsonValue)> = Vec::new();
    let mut i: usize = 0;
    while i < members.len()
        invariant
            i <= members.len(),
            out.len() == i,
            forall|j: int| 0 <= j < i ==> (#[trigger] out[j]).0@ == members[j].0@ && out[j].1.model() == members[j].1.model(),
        decreases members.len() - i,
    {
        proof {
            assert(decreases_to!(members => members[i as int]));
            assert(decreases_to!(members[i as int] => members[i as int].1));
        }
        let k = members[i].0.clone();
        let v = members[i].1.duplicate();
        out.push((k, v));
        i = i + 1;
    }
    assert(JsonValue::Object(out).model()->Object_0 =~= JsonValue::Object(*members).model()->Object_0);
    out
}

impl Clone for JsonValue {
    fn clone(&self) -> (r: JsonValue)
        ensures
            r.model() == self.model(),
    {
        self.duplicate()
    }
}

impl JsonValue {
    /// A deep copy of this value.
    pub fn duplicate(&self) -> (r: JsonValue)
        ensures
            r.model() == self.model(),
        decreases self, 1nat,
    {
        match self {
            JsonValue::Null => JsonValue::Null,
            JsonValue::Bool(b) => JsonValue::Bool(*b),
            JsonValue::Number(n) => JsonValue::Number(n.duplicate()),
            JsonValue::Str(s) => JsonValue::Str(s.clone()),
            JsonValue::Array(items) => {
                proof {
                    assert(decreases_to!(self => self->Array_0));
                }
                JsonValue::Array(duplicate_items(items))
            },
            JsonValue::Object(members) => {
                proof {
                    assert(decreases_to!(self => self->Object_0));
                }
                JsonValue::Object(duplicate_members(members))
            },
        }
    }

    /// The member `key` of this value when it is an object: the first member with that key.
    #[verifier::loop_isolation(false)]
    pub fn get(&self, key: &String) -> (r: Option<&JsonValue>)
        ensures
            match r {
                None => field(self.model(), key@) is None,
                Some(v) => field(self.model(), key@) == Some(v.model()),
            },
    {
        match self {
            JsonValue::Object(members) => {
                let ghost ms = self.model()->Object_0;
                assert(self.model() == Json::Object(ms));
                let mut i: usize = 0;
                assert(ms.skip(0) =~= ms);
                while i < members.len()
                    invariant
                        i <= members.len(),
                        ms.len() == members.len(),
                        forall|j: int| 0 <= j < members.len() ==> #[trigger] ms[j] == (members[j].0@, members[j].1.model()),
                        member_value(ms, key@) == member_value(ms.skip(i as int), key@),
                    decreases members.len() - i,
                {
                    assert(ms.skip(i as int).drop_first() =~= ms.skip(i + 1));
                    assert(ms.skip(i as int)[0] == ms[i as int]);
                    if members[i].0 == *key {
                        assert(member_value(ms.skip(i as int), key@) == Some(members[i as int].1.model()));
                        return Some(&members[i].1);
                    }
                    i = i + 1;
                }
                None
            },
            _ => None,
        }
    }
}

} // verus!

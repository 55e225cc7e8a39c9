use vstd::prelude::*;
use vstd::string::StringExecFns;

verus! {

/// A JSON value as the remote player's protocol carries it.
///
/// Integers keep their value (`UInt` for those at or above zero, `Int` for
/// negative ones); any other number is held as its decimal text, which the
/// protocol logic never reads.
#[derive(Debug)]
pub enum Json {
    Null,
    Bool(bool),
    UInt(u64),
    Int(i64),
    Decimal(String),
    Str(String),
    Array(Vec<Json>),
    Object(Vec<(String, Json)>),
}

/// The value of the first entry of `fields` whose key is `key`.
pub open spec fn lookup(fields: Seq<(String, Json)>, key: Seq<char>) -> Option<Json>
    decreases fields.len(),
{
    if fields.len() == 0 {
        None
    } else if fields[0].0@ == key {
        Some(fields[0].1)
    } else {
        lookup(fields.drop_first(), key)
    }
}

impl Json {
    /// The member `key` of an object; nothing for any other value.
    pub open spec fn member(self, key: Seq<char>) -> Option<Json> {
        match self {
            Json::Object(fields) => lookup(fields@, key),
            _ => None,
        }
    }

    /// The keys of an object, in order; empty for any other value.
    pub open spec fn keys(self) -> Seq<Seq<char>> {
        match self {
            Json::Object(fields) => fields@.map_values(|p: (String, Json)| p.0@),
            _ => Seq::empty(),
        }
    }

    /// The values of an object, in the order of its keys; empty for any
    /// other value.
    pub open spec fn values(self) -> Seq<Json> {
        match self {
            Json::Object(fields) => fields@.map_values(|p: (String, Json)| p.1),
            _ => Seq::empty(),
        }
    }

    /// Whether this is an array of exactly the strings `texts`.
    pub open spec fn is_text_list(self, texts: Seq<Seq<char>>) -> bool {
        self matches Json::Array(items) && items@.len() == texts.len() && forall|i: int|
            0 <= i < texts.len() ==> #[trigger] items@[i].is_text(texts[i])
    }

    /// Whether this is the string `s`.
    pub open spec fn is_text(self, s: Seq<char>) -> bool {
        self matches Json::Str(t) && t@ == s
    }

    /// Whether this is the unsigned integer `n`.
    pub open spec fn is_uint(self, n: u64) -> bool {
        self matches Json::UInt(m) && m == n
    }

    /// The string `s`.
    pub fn text(s: &str) -> (r: Json)
        ensures
            r.is_text(s@),
    {
        Json::Str(String::from_str(s))
    }

    /// An object of the given entries, in order.
    pub fn object(entries: Vec<(String, Json)>) -> (r: Json)
        ensures
            r == Json::Object(entries),
            r.keys() == entries@.map_values(|p: (String, Json)| p.0@),
            r.values() == entries@.map_values(|p: (String, Json)| p.1),
    {
        Json::Object(entries)
    }

    /// An array of the given strings, in order.
    pub fn text_list(texts: &Vec<&str>) -> (r: Json)
        ensures
            r.is_text_list(texts@.map_values(|t: &str| t@)),
    {
        let mut items: Vec<Json> = Vec::new();
        let mut i: usize = 0;
        while i < texts.len()
            invariant
                i <= texts@.len(),
                items@.len() == i,
                forall|j: int| 0 <= j < i ==> #[trigger] items@[j].is_text(texts@[j]@),
            decreases texts@.len() - i,
        {
            items.push(Json::text(texts[i]));
            i = i + 1;
        }
        Json::Array(items)
    }

    /// The member `key` of an object, or `None`.
    pub fn get(&self, key: &String) -> (r: Option<&Json>)
        ensures
            match r {
                Some(v) => self.member(key@) == Some(*v),
                None => self.member(key@) is None,
            },
    {
        match self {
            Json::Object(fields) => {
                let mut i: usize = 0;
                assert(fields@.subrange(0, fields@.len() as int) == fields@);
                while i < fields.len()
                    invariant
                        i <= fields@.len(),
                        self.member(key@) == lookup(fields@, key@),
                        lookup(fields@, key@) == lookup(fields@.subrange(i as int, fields@.len() as int), key@),
                    decreases fields@.len() - i,
                {
                    let ghost rest = fields@.subrange(i as int, fields@.len() as int);
                    assert(rest.drop_first() == fields@.subrange(i + 1, fields@.len() as int));
                    assert(rest[0] == fields@[i as int]);
                    if fields[i].0 == *key {
                        return Some(&fields[i].1);
                    }
                    i = i + 1;
                }
                None
            },
            _ => None,
        }
    }

    /// The items of an array, or `None` for any other value.
    pub fn as_array(&self) -> (r: Option<&Vec<Json>>)
        ensures
            match r {
                Some(items) => *self == Json::Array(*items),
                None => !(self is Array),
            },
    {
        match self {
            Json::Array(items) => Some(items),
            _ => None,
        }
    }

    /// The text of a string, or `None` for any other value.
    pub fn as_str(&self) -> (r: Option<&String>)
        ensures
            match r {
                Some(s) => *self == Json::Str(*s),
                None => !(self is Str),
            },
    {
        match self {
            Json::Str(s) => Some(s),
            _ => None,
        }
    }

    /// The value of an integer at or above zero, or `None`.
    pub fn as_u64(&self) -> (r: Option<u64>)
        ensures
            match r {
                Some(n) => *self == Json::UInt(n),
                None => !(self is UInt),
            },
    {
        match self {
            Json::UInt(n) => Some(*n),
            _ => None,
        }
    }
}

} // verus!

verus! {

/// A key and its value, as an entry of an object.
pub fn entry(key: &str, value: Json) -> (r: (String, Json))
    ensures
        r.0@ == key@,
        r.1 == value,
{
    (String::from_str(key), value)
}

} // verus!

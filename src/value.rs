use vstd::prelude::*;
use crate::text::text_eq;

verus! {

/// A property value as the bus delivers it: one variant per basic or
/// container kind of the bus encoding. A double is held as its IEEE-754
/// bit pattern; the contents of dictionaries, structures and file
/// descriptors are not kept, since no projection reads them.
#[derive(Debug)]
pub enum PropValue {
    U8(u8),
    Bool(bool),
    I16(i16),
    U16(u16),
    I32(i32),
    U32(u32),
    I64(i64),
    U64(u64),
    F64(u64),
    Str(String),
    Signature(String),
    ObjectPath(String),
    Variant(Box<PropValue>),
    Array(Vec<PropValue>),
    Dict,
    Structure,
    Fd,
}

/// A double-precision number, held as its IEEE-754 bit pattern.
#[derive(Clone, Copy, Debug, PartialEq, Eq, Structural)]
pub struct Double {
    pub bits: u64,
}

/// The text of an object path (a path-shaped bus identifier).
#[derive(Debug)]
pub struct ObjectPathText(pub String);

/// A type that a single property value may convert to. A conversion either
/// succeeds exactly when `accepts` holds, giving a value related to the input by
/// `decodes_as`, or yields nothing.
pub trait FromValue: Sized {
    spec fn accepts(v: PropValue) -> bool;

    spec fn decodes_as(v: PropValue, r: Self) -> bool;

    fn from_value(v: &PropValue) -> (r: Option<Self>)
        ensures
            r is Some <==> Self::accepts(*v),
            r is Some ==> Self::decodes_as(*v, r.unwrap()),
    ;
}

impl FromValue for bool {
    open spec fn accepts(v: PropValue) -> bool {
        v is Bool
    }

    open spec fn decodes_as(v: PropValue, r: bool) -> bool {
        v == PropValue::Bool(r)
    }

    fn from_value(v: &PropValue) -> (r: Option<bool>) {
        match v {
            PropValue::Bool(b) => Some(*b),
            _ => None,
        }
    }
}

impl FromValue for i64 {
    open spec fn accepts(v: PropValue) -> bool {
        v is I64
    }

    open spec fn decodes_as(v: PropValue, r: i64) -> bool {
        v == PropValue::I64(r)
    }

    fn from_value(v: &PropValue) -> (r: Option<i64>) {
        match v {
            PropValue::I64(n) => Some(*n),
            _ => None,
        }
    }
}

impl FromValue for Double {
    open spec fn accepts(v: PropValue) -> bool {
        v is F64
    }

    open spec fn decodes_as(v: PropValue, r: Double) -> bool {
        v == PropValue::F64(r.bits)
    }

    fn from_value(v: &PropValue) -> (r: Option<Double>) {
        match v {
            PropValue::F64(bits) => Some(Double { bits: *bits }),
            _ => None,
        }
    }
}

impl FromValue for String {
    open spec fn accepts(v: PropValue) -> bool {
        v is Str
    }

    open spec fn decodes_as(v: PropValue, r: String) -> bool {
        match v {
            PropValue::Str(s) => s@ == r@,
            _ => false,
        }
    }

    fn from_value(v: &PropValue) -> (r: Option<String>) {
        match v {
            PropValue::Str(s) => Some(s.clone()),
            _ => None,
        }
    }
}

impl FromValue for ObjectPathText {
    open spec fn accepts(v: PropValue) -> bool {
        v is ObjectPath
    }

    open spec fn decodes_as(v: PropValue, r: ObjectPathText) -> bool {
        match v {
            PropValue::ObjectPath(s) => s@ == r.0@,
            _ => false,
        }
    }

    fn from_value(v: &PropValue) -> (r: Option<ObjectPathText>) {
        match v {
            PropValue::ObjectPath(s) => Some(ObjectPathText(s.clone())),
            _ => None,
        }
    }
}

/// The text of one element of a string list: a string, or a string wrapped
/// once in a variant.
pub open spec fn item_text(v: PropValue) -> Option<Seq<char>> {
    match v {
        PropValue::Str(s) => Some(s@),
        PropValue::Variant(inner) => match *inner {
            PropValue::Str(s) => Some(s@),
            _ => None,
        },
        _ => None,
    }
}

/// Whether every element of `items` is a string list element.
pub open spec fn all_items_text(items: Seq<PropValue>) -> bool {
    forall|i: int| 0 <= i < items.len() ==> (#[trigger] item_text(items[i])) is Some
}

impl FromValue for Vec<String> {
    open spec fn accepts(v: PropValue) -> bool {
        match v {
            PropValue::Array(items) => all_items_text(items@),
            _ => false,
        }
    }

    open spec fn decodes_as(v: PropValue, r: Vec<String>) -> bool {
        match v {
            PropValue::Array(items) => r.len() == items.len() && forall|i: int|
                0 <= i < items.len() ==> #[trigger] item_text(items@[i]) == Some(r@[i]@),
            _ => false,
        }
    }

    fn from_value(v: &PropValue) -> (r: Option<Vec<String>>) {
        match v {
            PropValue::Array(items) => {
                let mut out: Vec<String> = Vec::new();
                let mut i: usize = 0;
                while i < items.len()
                    invariant
                        *v == PropValue::Array(*items),
                        i <= items.len(),
                        out.len() == i,
                        forall|j: int| 0 <= j < i ==> #[trigger] item_text(items@[j]) == Some(out@[j]@),
                    decreases items.len() - i,
                {
                    let text = match &items[i] {
                        PropValue::Str(s) => Some(s.clone()),
                        PropValue::Variant(inner) => match &**inner {
                            PropValue::Str(s) => Some(s.clone()),
                            _ => None,
                        },
                        _ => None,
                    };
                    let text = match text {
                        Some(t) => t,
                        None => {
                            assert(item_text(items@[i as int]) is None);
                            assert(!all_items_text(items@));
                            return None;
                        },
                    };
                    out.push(text);
                    i = i + 1;
                }
                Some(out)
            },
            _ => None,
        }
    }
}

/// A snapshot of the properties one interface advertises: names mapped to
/// values, each name at most once.
#[derive(Debug)]
pub struct PropertyMap {
    entries: Vec<(String, PropValue)>,
}

impl View for PropertyMap {
    type V = Map<Seq<char>, PropValue>;

    closed spec fn view(&self) -> Map<Seq<char>, PropValue> {
        Map::new(
            |k: Seq<char>| exists|i: int| 0 <= i < self.entries.len() && self.entries@[i].0@ == k,
            |k: Seq<char>|
                self.entries@[choose|i: int| 0 <= i < self.entries.len() && self.entries@[i].0@ == k].1,
        )
    }
}

impl PropertyMap {
    #[verifier::type_invariant]
    spec fn names_unique(self) -> bool {
        forall|i: int, j: int|
            0 <= i < j < self.entries.len() ==> self.entries@[i].0@ != self.entries@[j].0@
    }

    /// The empty map.
    pub fn new() -> (r: PropertyMap)
        ensures
            r@ == Map::<Seq<char>, PropValue>::empty(),
    {
        let r = PropertyMap { entries: Vec::new() };
        assert(r@ =~= Map::<Seq<char>, PropValue>::empty());
        r
    }

    /// Position of the entry named `key`, if there is one.
    fn position(&self, key: &str) -> (r: Option<usize>)
        ensures
            match r {
                Some(i) => i < self.entries.len() && self.entries@[i as int].0@ == key@,
                None => forall|j: int| 0 <= j < self.entries.len() ==> self.entries@[j].0@ != key@,
            },
    {
        let mut i: usize = 0;
        while i < self.entries.len()
            invariant
                i <= self.entries.len(),
                forall|j: int| 0 <= j < i ==> self.entries@[j].0@ != key@,
            decreases self.entries.len() - i,
        {
            if text_eq(self.entries[i].0.as_str(), key) {
                return Some(i);
            }
            i = i + 1;
        }
        None
    }

    /// Sets the value of `key`, replacing any value it had.
    pub fn insert(&mut self, key: String, value: PropValue)
        ensures
            final(self)@ == old(self)@.insert(key@, value),
    {
        proof { use_type_invariant(&*self); }
        let ghost before = self.entries@;
        let found = self.position(key.as_str());
        let mut entries: Vec<(String, PropValue)> = Vec::new();
        core::mem::swap(&mut self.entries, &mut entries);
        match found {
            Some(i) => {
                let ghost k = key@;
                entries.set(i, (key, value));
                assert(entries@[i as int].0@ == before[i as int].0@);
                core::mem::swap(&mut self.entries, &mut entries);
                assert forall|j: int| 0 <= j < self.entries.len() && j != i implies self.entries@[j] == before[j] by {}
                assert(self@ =~= old(self)@.insert(k, value)) by {
                    assert forall|q: Seq<char>| #[trigger] self@.contains_key(q) == old(self)@.insert(k, value).contains_key(q) by {
                        if q == k {
                            assert(self.entries@[i as int].0@ == q);
                        } else {
                            if old(self)@.contains_key(q) {
                                let w = choose|w: int| 0 <= w < before.len() && before[w].0@ == q;
                                assert(self.entries@[w].0@ == q);
                            }
                            if self@.contains_key(q) {
                                let w = choose|w: int| 0 <= w < self.entries.len() && self.entries@[w].0@ == q;
                                assert(before[w].0@ == q);
                            }
                        }
                    }
                    assert forall|q: Seq<char>| #[trigger] self@.contains_key(q) implies self@[q] == old(self)@.insert(k, value)[q] by {
                        let w = choose|w: int| 0 <= w < self.entries.len() && self.entries@[w].0@ == q;
                        if q == k {
                            assert(w == i);
                        } else {
                            let v = choose|v: int| 0 <= v < before.len() && before[v].0@ == q;
                            assert(self.entries@[v].0@ == q);
                            assert(w == v);
                        }
                    }
                }
            },
            None => {
                let ghost k = key@;
                entries.push((key, value));
                assert(entries@[before.len() as int].0@ == k);
                core::mem::swap(&mut self.entries, &mut entries);
                assert(self@ =~= old(self)@.insert(k, value)) by {
                    let n = before.len() as int;
                    assert(self.entries@[n].0@ == k);
                    assert forall|q: Seq<char>| #[trigger] self@.contains_key(q) == old(self)@.insert(k, value).contains_key(q) by {
                        if q != k && self@.contains_key(q) {
                            let w = choose|w: int| 0 <= w < self.entries.len() && self.entries@[w].0@ == q;
                            assert(before[w].0@ == q);
                        }
                        if q != k && old(self)@.contains_key(q) {
                            let w = choose|w: int| 0 <= w < before.len() && before[w].0@ == q;
                            assert(self.entries@[w].0@ == q);
                        }
                    }
                    assert forall|q: Seq<char>| #[trigger] self@.contains_key(q) implies self@[q] == old(self)@.insert(k, value)[q] by {
                        let w = choose|w: int| 0 <= w < self.entries.len() && self.entries@[w].0@ == q;
                        if q == k {
                            assert(w == n);
                        } else {
                            let v = choose|v: int| 0 <= v < before.len() && before[v].0@ == q;
                            assert(self.entries@[v].0@ == q);
                            assert(w == v);
                        }
                    }
                }
            },
        }
    }

    /// The value of `key`, if the map has one.
    pub fn get(&self, key: &str) -> (r: Option<&PropValue>)
        ensures
            r is Some <==> self@.contains_key(key@),
            r is Some ==> *r.unwrap() == self@[key@],
    {
        proof { use_type_invariant(self); }
        match self.position(key) {
            Some(i) => {
                assert(self@.contains_key(key@));
                Some(&self.entries[i].1)
            },
            None => None,
        }
    }
}

/// What `extract_value` yields for `key` of `map`, as a relation on its result.
pub open spec fn extracted<T: FromValue>(map: PropertyMap, key: Seq<char>, r: Option<T>) -> bool {
    if map@.contains_key(key) {
        &&& (r is Some <==> T::accepts(map@[key]))
        &&& (r is Some ==> T::decodes_as(map@[key], r.unwrap()))
    } else {
        r is None
    }
}

/// Reads `key` of `map` as a `T`. A missing key, or a value of another kind,
/// gives `None`, never an error.
pub fn extract_value<T: FromValue>(map: &PropertyMap, key: &str) -> (r: Option<T>)
    ensures
        extracted(*map, key@, r),
        !map@.contains_key(key@) ==> r is None,
        map@.contains_key(key@) && !T::accepts(map@[key@]) ==> r is None,
{
    match map.get(key) {
        Some(v) => T::from_value(v),
        None => None,
    }
}

} // verus!

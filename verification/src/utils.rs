//! The dynamic property model: type-erased property values, the string-keyed
//! bags that hold them, and the fail-soft accessors that pull typed values
//! out of a property bag.

use vstd::prelude::*;

verus! {

/// A type-erased property value as the remote object source reports it:
/// a string, a boolean, an integer of a known width and signedness, a byte
/// sequence, or an ordered sequence of further values.
pub enum DynamicValue {
    Str(String),
    Bool(bool),
    Byte(u8),
    UInt16(u16),
    UInt32(u32),
    UInt64(u64),
    Int16(i16),
    Int32(i32),
    Int64(i64),
    Bytes(Vec<u8>),
    Array(Vec<DynamicValue>),
}

/// A mapping from names to values, kept as an association list.  Lookups
/// compare names by their character content; `insert` replaces the entry
/// whose name matches, so a map built through `insert` has distinct names.
pub struct StrMap<T> {
    entries: Vec<(String, T)>,
}

impl<T> View for StrMap<T> {
    type V = Seq<(String, T)>;

    closed spec fn view(&self) -> Seq<(String, T)> {
        self.entries@
    }
}

/// The value stored under `key`, taken from the first entry whose name has
/// the characters of `key`; `None` when no entry matches.
pub open spec fn assoc_get<T>(s: Seq<(String, T)>, key: Seq<char>) -> Option<T>
    decreases s.len(),
{
    if s.len() == 0 {
        None
    } else if s[0].0@ == key {
        Some(s[0].1)
    } else {
        assoc_get(s.drop_first(), key)
    }
}

/// `s` with `value` stored under `key`: the first entry whose name matches is
/// replaced, and a new entry is appended when none matches.
pub open spec fn assoc_insert<T>(s: Seq<(String, T)>, key: String, value: T) -> Seq<(String, T)>
    decreases s.len(),
{
    if s.len() == 0 {
        seq![(key, value)]
    } else if s[0].0@ == key@ {
        seq![(key, value)] + s.drop_first()
    } else {
        seq![s[0]] + assoc_insert(s.drop_first(), key, value)
    }
}

/// All entry names are distinct, so the association list denotes a mapping.
pub open spec fn assoc_wf<T>(s: Seq<(String, T)>) -> bool {
    forall|i: int, j: int| 0 <= i < j < s.len() ==> s[i].0@ != s[j].0@
}

/// A successful lookup comes from an entry of the list: some position holds
/// the key and the value the lookup returned.
pub proof fn lemma_assoc_get_index<T>(s: Seq<(String, T)>, key: Seq<char>)
    requires
        assoc_get(s, key) is Some,
    ensures
        exists|i: int|
            0 <= i < s.len() && s[i].0@ == key && s[i].1 == assoc_get(s, key)->Some_0,
    decreases s.len(),
{
    if s.len() > 0 && s[0].0@ != key {
        lemma_assoc_get_index(s.drop_first(), key);
        let i = choose|i: int|
            0 <= i < s.drop_first().len() && s.drop_first()[i].0@ == key && s.drop_first()[i].1
                == assoc_get(s.drop_first(), key)->Some_0;
        assert(s[i + 1] == s.drop_first()[i]);
    }
}

/// An insert acts as a mapping update: a lookup of the inserted name then
/// yields the new value.
pub proof fn lemma_assoc_insert_get_same<T>(s: Seq<(String, T)>, key: String, value: T)
    ensures
        assoc_get(assoc_insert(s, key, value), key@) == Some(value),
    decreases s.len(),
{
    if s.len() == 0 {
    } else if s[0].0@ == key@ {
    } else {
        lemma_assoc_insert_get_same(s.drop_first(), key, value);
        assert((seq![s[0]] + assoc_insert(s.drop_first(), key, value)).drop_first()
            =~= assoc_insert(s.drop_first(), key, value));
    }
}

/// An insert acts as a mapping update: a lookup of any other name is
/// untouched by it.
pub proof fn lemma_assoc_insert_get_other<T>(
    s: Seq<(String, T)>,
    key: String,
    value: T,
    other: Seq<char>,
)
    requires
        other != key@,
    ensures
        assoc_get(assoc_insert(s, key, value), other) == assoc_get(s, other),
    decreases s.len(),
{
    if s.len() == 0 {
        let t = seq![(key, value)];
        assert(t[0] == (key, value));
        assert(t.drop_first() =~= Seq::<(String, T)>::empty());
        assert(assoc_get(t.drop_first(), other) == Option::<T>::None);
        assert(assoc_get(t, other) == Option::<T>::None);
    } else if s[0].0@ == key@ {
        let t = seq![(key, value)] + s.drop_first();
        assert(t[0] == (key, value));
        assert(t.drop_first() =~= s.drop_first());
        assert(assoc_get(t, other) == assoc_get(s.drop_first(), other));
    } else {
        lemma_assoc_insert_get_other(s.drop_first(), key, value, other);
        let t = seq![s[0]] + assoc_insert(s.drop_first(), key, value);
        assert(t[0] == s[0]);
        assert(t.drop_first() =~= assoc_insert(s.drop_first(), key, value));
    }
}

proof fn lemma_assoc_get_found<T>(s: Seq<(String, T)>, key: Seq<char>, i: int)
    requires
        0 <= i < s.len(),
        s[i].0@ == key,
        forall|j: int| 0 <= j < i ==> s[j].0@ != key,
    ensures
        assoc_get(s, key) == Some(s[i].1),
    decreases i,
{
    if i == 0 {
    } else {
        assert(s.drop_first()[i - 1] == s[i]);
        assert(forall|j: int| 0 <= j < i - 1 ==> s.drop_first()[j] == s[j + 1]);
        lemma_assoc_get_found(s.drop_first(), key, i - 1);
    }
}

proof fn lemma_assoc_get_missing<T>(s: Seq<(String, T)>, key: Seq<char>)
    requires
        forall|j: int| 0 <= j < s.len() ==> s[j].0@ != key,
    ensures
        assoc_get(s, key) is None,
    decreases s.len(),
{
    if s.len() > 0 {
        assert(forall|j: int| 0 <= j < s.drop_first().len() ==> s.drop_first()[j] == s[j + 1]);
        lemma_assoc_get_missing(s.drop_first(), key);
    }
}

proof fn lemma_assoc_insert_found<T>(s: Seq<(String, T)>, key: String, value: T, i: int)
    requires
        0 <= i < s.len(),
        s[i].0@ == key@,
        forall|j: int| 0 <= j < i ==> s[j].0@ != key@,
    ensures
        assoc_insert(s, key, value) =~= s.update(i, (key, value)),
    decreases i,
{
    if i == 0 {
        assert(assoc_insert(s, key, value) =~= s.update(0, (key, value)));
    } else {
        assert(s.drop_first()[i - 1] == s[i]);
        assert(forall|j: int| 0 <= j < i - 1 ==> s.drop_first()[j] == s[j + 1]);
        lemma_assoc_insert_found(s.drop_first(), key, value, i - 1);
        assert(assoc_insert(s, key, value) =~= s.update(i, (key, value)));
    }
}

proof fn lemma_assoc_insert_missing<T>(s: Seq<(String, T)>, key: String, value: T)
    requires
        forall|j: int| 0 <= j < s.len() ==> s[j].0@ != key@,
    ensures
        assoc_insert(s, key, value) =~= s.push((key, value)),
    decreases s.len(),
{
    if s.len() > 0 {
        assert(forall|j: int| 0 <= j < s.drop_first().len() ==> s.drop_first()[j] == s[j + 1]);
        lemma_assoc_insert_missing(s.drop_first(), key, value);
        assert(assoc_insert(s, key, value) =~= s.push((key, value)));
    }
}

impl<T> StrMap<T> {
    /// The map denotes a mapping: no two entries share a name.
    pub open spec fn wf(&self) -> bool {
        assoc_wf(self@)
    }

    /// An empty map.
    pub fn new() -> (r: Self)
        ensures
            r@ == Seq::<(String, T)>::empty(),
            r.wf(),
    {
        StrMap { entries: Vec::new() }
    }

    /// How many entries the map holds.
    pub fn len(&self) -> (n: usize)
        ensures
            n == self@.len(),
    {
        self.entries.len()
    }

    /// The entry at position `i`, for a full scan of the map.
    pub fn index(&self, i: usize) -> (r: &(String, T))
        requires
            i < self@.len(),
        ensures
            *r == self@[i as int],
    {
        &self.entries[i]
    }

    /// Look the value stored under `key` up, comparing names by content.
    pub fn get(&self, key: &str) -> (r: Option<&T>)
        ensures
            match assoc_get(self@, key@) {
                Some(v) => r matches Some(rv) && *rv == v,
                None => r is None,
            },
    {
        let owned: String = key.to_owned();
        let n = self.entries.len();
        let mut i: usize = 0;
        while i < n
            invariant
                n == self@.len(),
                i <= n,
                owned@ == key@,
                forall|j: int| 0 <= j < i ==> self@[j].0@ != key@,
            decreases n - i,
        {
            if self.entries[i].0 == owned {
                proof {
                    lemma_assoc_get_found(self@, key@, i as int);
                }
                return Some(&self.entries[i].1);
            }
            i = i + 1;
        }
        proof {
            lemma_assoc_get_missing(self@, key@);
        }
        None
    }

    /// Store `value` under `key`, replacing the matching entry if one exists
    /// and appending otherwise.  A map with distinct names keeps them
    /// distinct.
    pub fn insert(&mut self, key: String, value: T)
        ensures
            final(self)@ == assoc_insert(old(self)@, key, value),
            old(self).wf() ==> final(self).wf(),
    {
        let n = self.entries.len();
        let mut i: usize = 0;
        while i < n
            invariant
                n == self@.len(),
                i <= n,
                *self == *old(self),
                forall|j: int| 0 <= j < i ==> self@[j].0@ != key@,
            decreases n - i,
        {
            if self.entries[i].0 == key {
                proof {
                    lemma_assoc_insert_found(self@, key, value, i as int);
                }
                self.entries[i] = (key, value);
                return ;
            }
            i = i + 1;
        }
        proof {
            lemma_assoc_insert_missing(self@, key, value);
        }
        self.entries.push((key, value));
    }
}

/// A bag of named, dynamically typed property values, as one interface of a
/// remote object exposes them.
pub type PropertyBag = StrMap<DynamicValue>;

/// The interfaces one remote object exposes, each with its property bag.
pub type InterfaceBag = StrMap<PropertyBag>;

/// The full remote object graph: every object identity with the interfaces
/// it exposes.  This is the atomic unit of cache replacement.
pub type ManagedObjectGraph = StrMap<InterfaceBag>;

/// The character content of the string stored under `name`, when the bag
/// holds a string there.
pub open spec fn spec_string_prop(props: Seq<(String, DynamicValue)>, name: Seq<char>) -> Option<
    Seq<char>,
> {
    match assoc_get(props, name) {
        Some(DynamicValue::Str(s)) => Some(s@),
        _ => None,
    }
}

/// The string stored under `name`, or the empty string when the bag holds
/// none: the documented default for an optional string field.
pub open spec fn spec_string_prop_or_empty(
    props: Seq<(String, DynamicValue)>,
    name: Seq<char>,
) -> Seq<char> {
    match spec_string_prop(props, name) {
        Some(cs) => cs,
        None => Seq::empty(),
    }
}

/// The 64-bit unsigned integer stored under `name`, or zero when the bag
/// holds none: the documented default for an optional numeric field.
pub open spec fn spec_u64_prop_or_zero(
    props: Seq<(String, DynamicValue)>,
    name: Seq<char>,
) -> u64 {
    match assoc_get(props, name) {
        Some(DynamicValue::UInt64(v)) => v,
        _ => 0,
    }
}

/// The boolean stored under `name`, or `false` when the bag holds none: the
/// documented default for an optional boolean field.
pub open spec fn spec_bool_prop_or_false(
    props: Seq<(String, DynamicValue)>,
    name: Seq<char>,
) -> bool {
    match assoc_get(props, name) {
        Some(DynamicValue::Bool(b)) => b,
        _ => false,
    }
}

/// The byte sequence stored under `name`, when the bag holds one there.
pub open spec fn spec_bytes_prop(props: Seq<(String, DynamicValue)>, name: Seq<char>) -> Option<
    Seq<u8>,
> {
    match assoc_get(props, name) {
        Some(DynamicValue::Bytes(b)) => Some(b@),
        _ => None,
    }
}

/// The strings held by a sequence of values, provided every element is a
/// string; a single element of another type spoils the whole sequence.
pub open spec fn spec_str_items(items: Seq<DynamicValue>) -> Option<Seq<Seq<char>>>
    decreases items.len(),
{
    if items.len() == 0 {
        Some(Seq::empty())
    } else {
        match spec_str_items(items.drop_last()) {
            Some(pre) => match items.last() {
                DynamicValue::Str(s) => Some(pre.push(s@)),
                _ => None,
            },
            None => None,
        }
    }
}

/// The list of strings stored under `name`: present exactly when the bag
/// holds a sequence there whose elements are all strings.
pub open spec fn spec_string_list_prop(
    props: Seq<(String, DynamicValue)>,
    name: Seq<char>,
) -> Option<Seq<Seq<char>>> {
    match assoc_get(props, name) {
        Some(DynamicValue::Array(items)) => spec_str_items(items@),
        _ => None,
    }
}

/// The list of strings stored under `name`, or the empty list when the bag
/// holds none: the documented default for an optional list field.
pub open spec fn spec_string_list_prop_or_empty(
    props: Seq<(String, DynamicValue)>,
    name: Seq<char>,
) -> Seq<Seq<char>> {
    match spec_string_list_prop(props, name) {
        Some(items) => items,
        None => Seq::empty(),
    }
}

/// Extract the property `name` as a string.  A missing property or one of
/// another type is absence, never an error.
pub fn get_string(props: &PropertyBag, name: &str) -> (r: Option<String>)
    ensures
        match assoc_get(props@, name@) {
            Some(DynamicValue::Str(s)) => r == Some(s),
            _ => r is None,
        },
{
    match props.get(name) {
        Some(DynamicValue::Str(s)) => Some(s.clone()),
        _ => None,
    }
}

/// Extract the property `name` as a boolean.
pub fn get_bool(props: &PropertyBag, name: &str) -> (r: Option<bool>)
    ensures
        match assoc_get(props@, name@) {
            Some(DynamicValue::Bool(b)) => r == Some(b),
            _ => r is None,
        },
{
    match props.get(name) {
        Some(DynamicValue::Bool(b)) => Some(*b),
        _ => None,
    }
}

/// Extract the property `name` as a single byte.
pub fn get_byte(props: &PropertyBag, name: &str) -> (r: Option<u8>)
    ensures
        match assoc_get(props@, name@) {
            Some(DynamicValue::Byte(v)) => r == Some(v),
            _ => r is None,
        },
{
    match props.get(name) {
        Some(DynamicValue::Byte(v)) => Some(*v),
        _ => None,
    }
}

/// Extract the property `name` as a 16-bit unsigned integer.  No widening:
/// a value stored at another width is absence.
pub fn get_u16(props: &PropertyBag, name: &str) -> (r: Option<u16>)
    ensures
        match assoc_get(props@, name@) {
            Some(DynamicValue::UInt16(v)) => r == Some(v),
            _ => r is None,
        },
{
    match props.get(name) {
        Some(DynamicValue::UInt16(v)) => Some(*v),
        _ => None,
    }
}

/// Extract the property `name` as a 32-bit unsigned integer.
pub fn get_u32(props: &PropertyBag, name: &str) -> (r: Option<u32>)
    ensures
        match assoc_get(props@, name@) {
            Some(DynamicValue::UInt32(v)) => r == Some(v),
            _ => r is None,
        },
{
    match props.get(name) {
        Some(DynamicValue::UInt32(v)) => Some(*v),
        _ => None,
    }
}

/// Extract the property `name` as a 64-bit unsigned integer.
pub fn get_u64(props: &PropertyBag, name: &str) -> (r: Option<u64>)
    ensures
        match assoc_get(props@, name@) {
            Some(DynamicValue::UInt64(v)) => r == Some(v),
            _ => r is None,
        },
{
    match props.get(name) {
        Some(DynamicValue::UInt64(v)) => Some(*v),
        _ => None,
    }
}

/// Extract the property `name` as a 16-bit signed integer.
pub fn get_i16(props: &PropertyBag, name: &str) -> (r: Option<i16>)
    ensures
        match assoc_get(props@, name@) {
            Some(DynamicValue::Int16(v)) => r == Some(v),
            _ => r is None,
        },
{
    match props.get(name) {
        Some(DynamicValue::Int16(v)) => Some(*v),
        _ => None,
    }
}

/// Extract the property `name` as a 32-bit signed integer.
pub fn get_i32(props: &PropertyBag, name: &str) -> (r: Option<i32>)
    ensures
        match assoc_get(props@, name@) {
            Some(DynamicValue::Int32(v)) => r == Some(v),
            _ => r is None,
        },
{
    match props.get(name) {
        Some(DynamicValue::Int32(v)) => Some(*v),
        _ => None,
    }
}

/// Extract the property `name` as a 64-bit signed integer.
pub fn get_i64(props: &PropertyBag, name: &str) -> (r: Option<i64>)
    ensures
        match assoc_get(props@, name@) {
            Some(DynamicValue::Int64(v)) => r == Some(v),
            _ => r is None,
        },
{
    match props.get(name) {
        Some(DynamicValue::Int64(v)) => Some(*v),
        _ => None,
    }
}

fn copy_bytes(src: &Vec<u8>) -> (r: Vec<u8>)
    ensures
        r@ == src@,
{
    let n = src.len();
    let mut out: Vec<u8> = Vec::new();
    let mut i: usize = 0;
    while i < n
        invariant
            n == src@.len(),
            i <= n,
            out@ == src@.take(i as int),
        decreases n - i,
    {
        out.push(src[i]);
        assert(out@ =~= src@.take(i + 1));
        i = i + 1;
    }
    assert(out@ =~= src@);
    out
}

/// Extract the property `name` as a byte sequence, copied out of the bag.
pub fn get_bytes(props: &PropertyBag, name: &str) -> (r: Option<Vec<u8>>)
    ensures
        match spec_bytes_prop(props@, name@) {
            Some(bs) => r matches Some(rb) && rb@ == bs,
            None => r is None,
        },
{
    match props.get(name) {
        Some(DynamicValue::Bytes(b)) => Some(copy_bytes(b)),
        _ => None,
    }
}

proof fn lemma_str_items_spoiled(items: Seq<DynamicValue>, j: int)
    requires
        0 <= j < items.len(),
        !(items[j] is Str),
    ensures
        spec_str_items(items) is None,
    decreases items.len(),
{
    if j == items.len() - 1 {
    } else {
        assert(items.drop_last()[j] == items[j]);
        lemma_str_items_spoiled(items.drop_last(), j);
    }
}

/// Extract the property `name` as a list of strings: the structured
/// extraction for multi-value properties.  Present exactly when the bag
/// holds a sequence of strings there; any element of another type makes the
/// whole property absent.
pub fn get_string_list(props: &PropertyBag, name: &str) -> (r: Option<Vec<String>>)
    ensures
        match spec_string_list_prop(props@, name@) {
            Some(items) => r matches Some(v) && v@.map_values(|s: String| s@) == items,
            None => r is None,
        },
{
    let got = props.get(name);
    let items: &Vec<DynamicValue> = match got {
        Some(v) => match v {
            DynamicValue::Array(items) => {
                proof {
                    assert(assoc_get(props@, name@) == Some(DynamicValue::Array(*items)));
                }
                items
            },
            _ => { return None },
        },
        None => { return None },
    };
    let n = items.len();
    let mut out: Vec<String> = Vec::new();
    let mut i: usize = 0;
    while i < n
        invariant
            n == items@.len(),
            i <= n,
            spec_string_list_prop(props@, name@) == spec_str_items(items@),
            spec_str_items(items@.take(i as int)) == Some(out@.map_values(|s: String| s@)),
        decreases n - i,
    {
        match &items[i] {
            DynamicValue::Str(s) => {
                let ghost prev = out@.map_values(|s: String| s@);
                out.push(s.clone());
                proof {
                    assert(items@.take(i + 1).drop_last() =~= items@.take(i as int));
                    assert(items@.take(i + 1).last() == items@[i as int]);
                    assert(out@.map_values(|s: String| s@) =~= prev.push(items@[i as int]->Str_0@));
                }
            },
            _ => {
                proof {
                    lemma_str_items_spoiled(items@, i as int);
                }
                return None;
            },
        }
        i = i + 1;
    }
    assert(items@.take(n as int) =~= items@);
    Some(out)
}

/// A typed record that can be reconstructed from one object of the graph.
///
/// `spec_parse_from` is the record kind's mathematical parse: given the
/// object's identity and the interfaces it exposes, either the abstract
/// content of the record or `None` when the object is not of this kind or
/// misses a mandatory field.  `parse_from` computes exactly that parse.
pub trait ParseFrom: Sized + View {
    /// The abstract record this kind reconstructs from an object, or `None`
    /// when the object does not satisfy the kind's interface gate or misses
    /// a mandatory field.
    spec fn spec_parse_from(path: Seq<char>, objects: InterfaceBag) -> Option<Self::V>;

    /// Reconstruct the record for the object `path` from its interfaces.
    fn parse_from(path: &str, objects: &InterfaceBag) -> (r: Option<Self>)
        ensures
            match Self::spec_parse_from(path@, *objects) {
                Some(m) => r matches Some(v) && v@ == m,
                None => r is None,
            },
    ;
}

} // verus!

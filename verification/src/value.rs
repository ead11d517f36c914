//! The units that flow between the client and the runtime: paths, serialized
//! values and change values, and the mapping of a result set by joined path.
use crate::text::{copy_strings, join, joined, same_strings, views_of};
use vstd::prelude::*;
use vstd::std_specs::cmp::PartialEqSpecImpl;

verus! {

/// A location in the hierarchical keyed value space: its segments, outermost
/// first. Two paths are the same location exactly when their views are equal.
#[derive(Debug, Eq)]
pub struct Path {
    pub address: Vec<String>,
}

impl View for Path {
    type V = Seq<Seq<char>>;

    open spec fn view(&self) -> Seq<Seq<char>> {
        views_of(self.address@)
    }
}

impl PartialEq for Path {
    fn eq(&self, other: &Path) -> (same: bool) {
        same_strings(&self.address, &other.address)
    }
}

impl PartialEqSpecImpl for Path {
    open spec fn obeys_eq_spec() -> bool {
        true
    }

    open spec fn eq_spec(&self, other: &Path) -> bool {
        self@ == other@
    }
}

impl Clone for Path {
    fn clone(&self) -> (copy: Path)
        ensures
            copy@ == self@,
    {
        Path { address: copy_strings(&self.address) }
    }
}

/// The delimiter written between the segments of a path in its joined key.
pub open spec fn key_delimiter() -> Seq<char> {
    ":"@
}

/// The key under which a path with segments `segments` is filed.
pub open spec fn joined_key(segments: Seq<Seq<char>>) -> Seq<char> {
    joined(segments, key_delimiter())
}

impl Path {
    /// The path with the given segments.
    pub fn new(address: Vec<String>) -> (p: Path)
        ensures
            p.address == address,
            p@ == views_of(address@),
    {
        Path { address }
    }

    /// The segments of the path joined by `:`.
    pub fn joined_key(&self) -> (key: String)
        ensures
            key@ == joined_key(self@),
    {
        join(&self.address, ":")
    }
}

/// The payload of a serialized value that is not null.
#[derive(Debug, PartialEq)]
pub enum Val {
    /// A single-precision number, carried as its IEEE 754 bit pattern: the
    /// client routes values and does no arithmetic on them.
    Float { bits: u32 },
    Number(i32),
    String(String),
    Boolean(bool),
    Array(Vec<SerializedValue>),
    /// The entries of a string-keyed mapping, in the order they were given.
    Object(Vec<(String, SerializedValue)>),
}

/// A value as the runtime stores it. `val` is `None` for null. The client
/// hands such values on without reading into them.
#[derive(Debug, PartialEq)]
pub struct SerializedValue {
    pub val: Option<Val>,
}

/// One fact written into the state of the graph: `value` at `path` on
/// `branch`.
#[derive(Debug, PartialEq)]
pub struct ChangeValue {
    pub path: Path,
    pub value: SerializedValue,
    pub branch: u64,
}

/// Mathematical model of a [`Val`].
pub enum ValView {
    Float { bits: u32 },
    Number(i32),
    String(Seq<char>),
    Boolean(bool),
    Array(Seq<SerializedValueView>),
    Object(Seq<(Seq<char>, SerializedValueView)>),
}

/// Mathematical model of a [`SerializedValue`].
pub struct SerializedValueView {
    pub val: Option<ValView>,
}

/// Mathematical model of a [`ChangeValue`].
pub struct ChangeValueView {
    pub path: Seq<Seq<char>>,
    pub value: SerializedValueView,
    pub branch: u64,
}

/// The model of `value`.
pub open spec fn value_view(value: SerializedValue) -> SerializedValueView
    decreases value,
{
    SerializedValueView {
        val: match value.val {
            None => None,
            Some(Val::Float { bits }) => Some(ValView::Float { bits }),
            Some(Val::Number(n)) => Some(ValView::Number(n)),
            Some(Val::String(s)) => Some(ValView::String(s@)),
            Some(Val::Boolean(b)) => Some(ValView::Boolean(b)),
            Some(Val::Array(items)) => Some(
                ValView::Array(
                    Seq::new(
                        items@.len(),
                        |i: int|
                            if 0 <= i < items@.len() {
                                value_view(items@[i])
                            } else {
                                SerializedValueView { val: None }
                            },
                    ),
                ),
            ),
            Some(Val::Object(entries)) => Some(
                ValView::Object(
                    Seq::new(
                        entries@.len(),
                        |i: int|
                            if 0 <= i < entries@.len() {
                                (entries@[i].0@, value_view(entries@[i].1))
                            } else {
                                (Seq::empty(), SerializedValueView { val: None })
                            },
                    ),
                ),
            ),
        },
    }
}

impl View for SerializedValue {
    type V = SerializedValueView;

    open spec fn view(&self) -> SerializedValueView {
        value_view(*self)
    }
}

impl View for Val {
    type V = ValView;

    open spec fn view(&self) -> ValView {
        value_view(SerializedValue { val: Some(*self) }).val->0
    }
}

impl View for ChangeValue {
    type V = ChangeValueView;

    open spec fn view(&self) -> ChangeValueView {
        ChangeValueView { path: self.path@, value: self.value@, branch: self.branch }
    }
}

/// A copy of `val`, nested values and all.
fn copy_val(val: &Val) -> (copy: Val)
    ensures
        copy@ == val@,
    decreases *val,
{
    match val {
        Val::Float { bits } => Val::Float { bits: *bits },
        Val::Number(n) => Val::Number(*n),
        Val::String(s) => Val::String(s.clone()),
        Val::Boolean(b) => Val::Boolean(*b),
        Val::Array(items) => {
            let mut copies: Vec<SerializedValue> = Vec::new();
            let mut i: usize = 0;
            while i < items.len()
                invariant
                    i <= items.len(),
                    copies@.len() == i,
                    *val == Val::Array(*items),
                    forall|k: int| 0 <= k < i ==> copies@[k]@ == items@[k]@,
                decreases items.len() - i,
            {
                proof {
                    assert(decreases_to!(*val => val->Array_0));
                    assert(decreases_to!(*items => items@));
                    assert(decreases_to!(items@ => items@[i as int]));
                }
                copies.push(copy_value(&items[i]));
                i = i + 1;
            }
            let copy = Val::Array(copies);
            assert(copy@->Array_0 =~= val@->Array_0);
            copy
        },
        Val::Object(entries) => {
            let mut copies: Vec<(String, SerializedValue)> = Vec::new();
            let mut i: usize = 0;
            while i < entries.len()
                invariant
                    i <= entries.len(),
                    copies@.len() == i,
                    *val == Val::Object(*entries),
                    forall|k: int|
                        0 <= k < i ==> copies@[k].0@ == entries@[k].0@ && copies@[k].1@
                            == entries@[k].1@,
                decreases entries.len() - i,
            {
                proof {
                    assert(decreases_to!(*val => val->Object_0));
                    assert(decreases_to!(*entries => entries@));
                    assert(decreases_to!(entries@ => entries@[i as int]));
                    assert(decreases_to!(entries@[i as int] => entries@[i as int].1));
                }
                copies.push((entries[i].0.clone(), copy_value(&entries[i].1)));
                i = i + 1;
            }
            let copy = Val::Object(copies);
            assert(copy@->Object_0 =~= val@->Object_0);
            copy
        },
    }
}

/// A copy of `value`, nested values and all.
fn copy_value(value: &SerializedValue) -> (copy: SerializedValue)
    ensures
        copy@ == value@,
    decreases *value,
{
    match &value.val {
        None => SerializedValue { val: None },
        Some(val) => SerializedValue { val: Some(copy_val(val)) },
    }
}

impl Clone for Val {
    fn clone(&self) -> (copy: Val)
        ensures
            copy@ == self@,
    {
        copy_val(self)
    }
}

impl Clone for SerializedValue {
    fn clone(&self) -> (copy: SerializedValue)
        ensures
            copy@ == self@,
    {
        copy_value(self)
    }
}

impl Clone for ChangeValue {
    fn clone(&self) -> (copy: ChangeValue)
        ensures
            copy@ == self@,
    {
        ChangeValue { path: self.path.clone(), value: self.value.clone(), branch: self.branch }
    }
}

/// The values of a result set filed under the joined keys of their paths, in
/// the order of the result set. No key occurs twice.
#[derive(Debug, PartialEq)]
pub struct KeyedValues {
    entries: Vec<(String, SerializedValue)>,
}

/// A result set held two values under one joined key.
#[derive(Clone, Copy, Debug, PartialEq, Eq)]
pub struct DuplicateKey {
    /// Position in the result set of the second value under that key.
    pub position: usize,
}

/// The joined keys of the paths of `changes`, in order.
pub open spec fn keys_of(changes: Seq<ChangeValue>) -> Seq<Seq<char>> {
    Seq::new(changes.len(), |i: int| joined_key(changes[i].path@))
}

/// Whether the entry of `keys` at `j` repeats an earlier one.
pub open spec fn repeats_earlier(keys: Seq<Seq<char>>, j: int) -> bool {
    exists|i: int| 0 <= i < j && keys[i] == keys[j]
}

/// Whether no key of `keys` occurs twice.
pub open spec fn distinct(keys: Seq<Seq<char>>) -> bool {
    forall|j: int| 0 <= j < keys.len() ==> !repeats_earlier(keys, j)
}

impl KeyedValues {
    /// The keys, in order.
    pub closed spec fn keys(&self) -> Seq<Seq<char>> {
        Seq::new(self.entries@.len(), |i: int| self.entries@[i].0@)
    }

    /// The values, in order: `values()[i]` is filed under `keys()[i]`.
    pub closed spec fn values(&self) -> Seq<SerializedValue> {
        Seq::new(self.entries@.len(), |i: int| self.entries@[i].1)
    }

    /// No key occurs twice.
    #[verifier::type_invariant]
    spec fn keys_are_distinct(&self) -> bool {
        distinct(Seq::new(self.entries@.len(), |i: int| self.entries@[i].0@))
    }

    /// Files each change value of a result set under the joined key of its
    /// path. A key that occurs twice is an integrity violation: the mapping is
    /// refused, with the position of the first value that repeats a key.
    pub fn from_changes(changes: Vec<ChangeValue>) -> (r: Result<KeyedValues, DuplicateKey>)
        ensures
            r is Ok <==> distinct(keys_of(changes@)),
            match r {
                Ok(m) => {
                    &&& distinct(m.keys())
                    &&& m.keys() == keys_of(changes@)
                    &&& m.values() == Seq::new(changes@.len(), |i: int| changes@[i].value)
                },
                Err(e) => {
                    &&& e.position < changes@.len()
                    &&& repeats_earlier(keys_of(changes@), e.position as int)
                    &&& forall|j: int|
                        0 <= j < e.position ==> !repeats_earlier(keys_of(changes@), j)
                },
            },
    {
        let ghost all = keys_of(changes@);
        let mut entries: Vec<(String, SerializedValue)> = Vec::new();
        for change in it: changes
            invariant
                it.seq() == changes@,
                all == keys_of(changes@),
                entries@.len() == it.index(),
                forall|i: int|
                    0 <= i < it.index() ==> (#[trigger] entries@[i]).0@ == all[i] && entries@[i].1
                        == changes@[i].value,
                forall|j: int| 0 <= j < it.index() ==> !repeats_earlier(all, j),
        {
            let ghost at = it.index();
            let key = change.path.joined_key();
            assert(key@ == all[at]);
            let mut i: usize = 0;
            while i < entries.len()
                invariant
                    i <= entries.len(),
                    entries@.len() == at,
                    0 <= at < changes@.len(),
                    all == keys_of(changes@),
                    key@ == all[at],
                    forall|j: int| 0 <= j < at ==> !repeats_earlier(all, j),
                    forall|k: int| 0 <= k < at ==> (#[trigger] entries@[k]).0@ == all[k],
                    forall|k: int| 0 <= k < i ==> all[k] != all[at],
                decreases entries.len() - i,
            {
                if entries[i].0 == key {
                    assert(all[i as int] == all[at]);
                    assert(repeats_earlier(all, at));
                    return Err(DuplicateKey { position: entries.len() });
                }
                i = i + 1;
            }
            entries.push((key, change.value));
        }
        assert(Seq::new(entries@.len(), |i: int| entries@[i].0@) =~= all);
        let m = KeyedValues { entries };
        proof {
            assert(m.keys() =~= all);
            assert(m.values() =~= Seq::new(changes@.len(), |i: int| changes@[i].value));
        }
        Ok(m)
    }

    /// The number of values.
    pub fn len(&self) -> (n: usize)
        ensures
            n == self.keys().len(),
    {
        self.entries.len()
    }

    /// The value filed under `key`, if there is one.
    pub fn get(&self, key: &str) -> (found: Option<&SerializedValue>)
        ensures
            match found {
                Some(v) => exists|i: int|
                    0 <= i < self.keys().len() && self.keys()[i] == key@ && self.values()[i] == *v,
                None => !self.keys().contains(key@),
            },
    {
        let wanted = key.to_string();
        let mut i: usize = 0;
        while i < self.entries.len()
            invariant
                i <= self.entries.len(),
                wanted@ == key@,
                forall|k: int| 0 <= k < i ==> self.keys()[k] != key@,
            decreases self.entries.len() - i,
        {
            if self.entries[i].0 == wanted {
                assert(self.keys()[i as int] == key@ && self.values()[i as int]
                    == self.entries@[i as int].1);
                return Some(&self.entries[i].1);
            }
            i = i + 1;
        }
        None
    }

    /// The key and the value at position `i`, if there are so many. The key
    /// stands at no other position.
    pub fn entry(&self, i: usize) -> (e: Option<(&String, &SerializedValue)>)
        ensures
            e is Some <==> i < self.keys().len(),
            e matches Some(found) ==> {
                &&& found.0@ == self.keys()[i as int]
                &&& *found.1 == self.values()[i as int]
                &&& forall|j: int|
                    0 <= j < self.keys().len() && j != i ==> self.keys()[j] != found.0@
            },
    {
        if i >= self.entries.len() {
            return None;
        }
        proof {
            use_type_invariant(self);
            assert forall|j: int| 0 <= j < self.keys().len() && j != i implies self.keys()[j]
                != self.keys()[i as int] by {
                if j < i {
                    assert(!repeats_earlier(self.keys(), i as int));
                } else {
                    assert(!repeats_earlier(self.keys(), j));
                }
            }
        }
        Some((&self.entries[i].0, &self.entries[i].1))
    }
}

} // verus!

//! Untyped JSON trees and their merge under RFC 7396 (JSON Merge Patch).
//!
//! A [`Value`] is a dynamic, schema-less tree: object, array, text, number,
//! boolean or null.  Merging follows RFC 7396: when both the target and the
//! source are objects, source keys with a null value delete the matching
//! target key, and all other source keys are merged recursively; in every
//! other case the source replaces the target wholesale.  Arrays are atomic
//! under these rules, and a null source replaces a non-object target rather
//! than deleting anything.

use vstd::prelude::*;

use crate::deep_merge::DeepMerge;
use crate::string_map::unique_keys;

verus! {

/// An untyped JSON tree.
///
/// An object is a sequence of key/value entries in insertion order; callers
/// are expected to keep keys unique, as a JSON object has at most one value
/// per key.
#[derive(Debug, PartialEq)]
pub enum Value {
    Null,
    Bool(bool),
    Number(i64),
    Text(String),
    Array(Vec<Value>),
    Object(Vec<(String, Value)>),
}

/// The mathematical shape of a [`Value`]: text as character sequences,
/// collections as `Seq`.
pub enum ValueView {
    Null,
    Bool(bool),
    Number(int),
    Text(Seq<char>),
    Array(Seq<ValueView>),
    Object(Seq<(Seq<char>, ValueView)>),
}

/// The view of an array's elements.
pub open spec fn array_view(items: Seq<Value>) -> Seq<ValueView>
    decreases items,
{
    if items.len() == 0 {
        Seq::empty()
    } else {
        array_view(items.subrange(0, items.len() - 1)).push(value_view(items.last()))
    }
}

/// The view of an object's entries.
pub open spec fn object_view(entries: Seq<(String, Value)>) -> Seq<(Seq<char>, ValueView)>
    decreases entries,
{
    if entries.len() == 0 {
        Seq::empty()
    } else {
        object_view(entries.subrange(0, entries.len() - 1)).push(
            (entries.last().0@, value_view(entries.last().1)),
        )
    }
}

/// The view of a JSON tree.
pub open spec fn value_view(v: Value) -> ValueView
    decreases v,
{
    match v {
        Value::Null => ValueView::Null,
        Value::Bool(b) => ValueView::Bool(b),
        Value::Number(n) => ValueView::Number(n as int),
        Value::Text(s) => ValueView::Text(s@),
        Value::Array(items) => ValueView::Array(array_view(items@)),
        Value::Object(entries) => ValueView::Object(object_view(entries@)),
    }
}

impl DeepView for Value {
    type V = ValueView;

    open spec fn deep_view(&self) -> ValueView {
        value_view(*self)
    }
}

/// The index of the first entry with key `k`, or `-1` when no entry has it.
pub open spec fn object_find(entries: Seq<(Seq<char>, ValueView)>, k: Seq<char>) -> int
    decreases entries,
{
    if entries.len() == 0 {
        -1
    } else if entries[0].0 == k {
        0
    } else {
        let r = object_find(entries.subrange(1, entries.len() as int), k);
        if r < 0 {
            -1
        } else {
            r + 1
        }
    }
}

/// `entries` without its first entry keyed `k`; unchanged when no entry has
/// that key.
pub open spec fn object_remove_key(
    entries: Seq<(Seq<char>, ValueView)>,
    k: Seq<char>,
) -> Seq<(Seq<char>, ValueView)> {
    let j = object_find(entries, k);
    if j < 0 {
        entries
    } else {
        entries.remove(j)
    }
}

/// The entries of the target object `t` after merging in the entries of the
/// source object `s`, one source entry at a time, in order: a null source
/// value deletes the target key, a source key already present merges
/// recursively into the target value, and a new source key is appended.
pub open spec fn object_merged(
    t: Seq<(Seq<char>, ValueView)>,
    s: Seq<(Seq<char>, ValueView)>,
) -> Seq<(Seq<char>, ValueView)>
    decreases s,
{
    if s.len() == 0 {
        t
    } else {
        let k = s[0].0;
        let v = s[0].1;
        let t1 = if v is Null {
            object_remove_key(t, k)
        } else {
            let j = object_find(t, k);
            if j < 0 {
                t.push((k, v))
            } else {
                t.update(j, (k, json_merged(t[j].1, v)))
            }
        };
        object_merged(t1, s.subrange(1, s.len() as int))
    }
}

/// The merge of `other` into `pre` under RFC 7396: objects merge key by
/// key with null-as-delete; any other combination is replaced by `other`.
pub open spec fn json_merged(pre: ValueView, other: ValueView) -> ValueView
    decreases other,
{
    match (pre, other) {
        (ValueView::Object(t), ValueView::Object(s)) => ValueView::Object(object_merged(t, s)),
        (_, o) => o,
    }
}

/// `object_view` maps the entries pointwise.
pub proof fn lemma_object_view(entries: Seq<(String, Value)>)
    ensures
        object_view(entries).len() == entries.len(),
        forall|i: int|
            0 <= i < entries.len() ==> object_view(entries)[i] == (
                entries[i].0@,
                value_view(entries[i].1),
            ),
    decreases entries,
{
    if entries.len() > 0 {
        lemma_object_view(entries.subrange(0, entries.len() - 1));
    }
}

/// `object_find` returns the first index whose key is `k`, and `-1` exactly
/// when no entry has that key.
pub proof fn lemma_object_find(entries: Seq<(Seq<char>, ValueView)>, k: Seq<char>)
    ensures
        object_find(entries, k) == -1 ==> forall|i: int|
            0 <= i < entries.len() ==> entries[i].0 != k,
        object_find(entries, k) != -1 ==> {
            let j = object_find(entries, k);
            &&& 0 <= j < entries.len()
            &&& entries[j].0 == k
            &&& forall|i: int| 0 <= i < j ==> entries[i].0 != k
        },
    decreases entries,
{
    if entries.len() > 0 && entries[0].0 != k {
        let rest = entries.subrange(1, entries.len() as int);
        lemma_object_find(rest, k);
        let r = object_find(rest, k);
        if r < 0 {
            assert forall|i: int| 0 <= i < entries.len() implies entries[i].0 != k by {
                if i >= 1 {
                    assert(entries[i] == rest[i - 1]);
                }
            }
        } else {
            assert(entries[r + 1] == rest[r]);
            assert forall|i: int| 0 <= i < r + 1 implies entries[i].0 != k by {
                if i >= 1 {
                    assert(entries[i] == rest[i - 1]);
                }
            }
        }
    }
}

impl DeepMerge for Value {
    open spec fn merged_view(pre: ValueView, other: ValueView) -> ValueView {
        json_merged(pre, other)
    }

    fn merge_from(&mut self, other: Self)
        decreases other,
    {
        match self {
            Value::Object(target_entries) => {
                match other {
                    Value::Object(source_entries) => {
                        merge_object_entries(target_entries, source_entries);
                    }
                    o => {
                        *self = o;
                    }
                }
            }
            _ => {
                *self = other;
            }
        }
    }
}

/// Merges the entries of a source object into the entries of a target
/// object: null source values delete, matched keys merge recursively, new
/// keys are appended in encounter order.
#[verifier::loop_isolation(false)]
fn merge_object_entries(target: &mut Vec<(String, Value)>, source: Vec<(String, Value)>)
    ensures
        object_view(final(target)@) == object_merged(
            object_view(old(target)@),
            object_view(source@),
        ),
    decreases source,
{
    let ghost goal = object_merged(object_view(target@), object_view(source@));
    let ghost source0 = source;
    let mut source = source;
    while source.len() > 0
        invariant
            object_merged(object_view(target@), object_view(source@)) == goal,
            source@.len() <= source0@.len(),
            source@ =~= source0@.subrange(
                source0@.len() - source@.len(),
                source0@.len() as int,
            ),
        decreases source@.len(),
    {
        let ghost t_pre = object_view(target@);
        let ghost s_pre = object_view(source@);
        proof {
            lemma_object_view(source@);
            lemma_object_view(target@);
        }
        let (k, v) = source.remove(0);
        let ghost i = source0@.len() - source@.len() - 1;
        let is_null = matches!(v, Value::Null);
        if is_null {
            remove_entry(target, &k);
        } else {
            let j = find_entry(target, &k);
            proof {
                lemma_object_find(t_pre, k@);
            }
            if j < target.len() {
                let (k_found, mut v_found) = target.remove(j);
                proof {
                    assert(v == source0@[i].1);
                    assert(decreases_to!(source0 => source0@));
                    assert(decreases_to!(source0@ => source0@[i]));
                    assert(decreases_to!(source0@[i] => source0@[i].1));
                }
                v_found.merge_from(v);
                target.insert(j, (k_found, v_found));
                proof {
                    lemma_object_view(target@);
                    assert(object_view(target@) =~= t_pre.update(
                        j as int,
                        (k@, json_merged(t_pre[j as int].1, value_view(v))),
                    ));
                }
            } else {
                target.push((k, v));
                proof {
                    lemma_object_view(target@);
                    assert(object_view(target@) =~= t_pre.push((k@, value_view(v))));
                }
            }
        }
        proof {
            lemma_object_view(source@);
            lemma_object_view(target@);
            assert(object_view(source@) =~= s_pre.subrange(1, s_pre.len() as int));
        }
    }
}

/// The index of the first entry of `target` whose key equals `k`, or
/// `target.len()` when no entry has that key.
fn find_entry(target: &Vec<(String, Value)>, k: &String) -> (j: usize)
    ensures
        j <= target@.len(),
        j < target@.len() ==> target@[j as int].0@ == k@,
        forall|i: int| 0 <= i < j ==> target@[i].0@ != k@,
{
    let mut j: usize = 0;
    while j < target.len()
        invariant
            j <= target@.len(),
            forall|i: int| 0 <= i < j ==> target@[i].0@ != k@,
        decreases target@.len() - j,
    {
        if target[j].0 == *k {
            return j;
        }
        j += 1;
    }
    j
}

/// Removes the first entry of `target` whose key equals `k`, if any.
fn remove_entry(target: &mut Vec<(String, Value)>, k: &String)
    ensures
        ({
            let tv = object_view(old(target)@);
            let j = object_find(tv, k@);
            object_view(final(target)@) == if j < 0 {
                tv
            } else {
                tv.remove(j)
            }
        }),
{
    proof {
        lemma_object_view(target@);
        lemma_object_find(object_view(target@), k@);
    }
    let j = find_entry(target, k);
    proof {
        let tv = object_view(old(target)@);
        let jf = object_find(tv, k@);
        if j < target@.len() {
            assert(tv[j as int].0 == k@);
            assert(jf != -1);
            assert(!(jf < j as int)) by {
                if 0 <= jf < j as int {
                    assert(tv[jf].0 != k@);
                }
            }
            assert(jf == j as int);
        } else {
            assert(jf == -1) by {
                if jf != -1 {
                    assert(tv[jf].0 == k@);
                }
            }
        }
    }
    if j < target.len() {
        target.remove(j);
        proof {
            lemma_object_view(target@);
            lemma_object_view(old(target)@);
            assert(object_view(target@) =~= object_view(old(target)@).remove(j as int));
        }
    }
}

/// Merging a null source into any target replaces the target with null:
/// at the top level, null is a replacement, not a deletion.
pub proof fn lemma_json_null_replaces(pre: ValueView)
    ensures
        json_merged(pre, ValueView::Null) == ValueView::Null,
{
}

/// Whether a JSON tree merges into an identical copy of itself without
/// loss: every object has unique keys and no null member values.  A null
/// member value is a deletion marker under RFC 7396, so a tree that holds
/// one is a patch, not a fixed point.
pub open spec fn self_mergeable(v: ValueView) -> bool
    decreases v,
{
    match v {
        ValueView::Object(es) => {
            &&& unique_keys(es)
            &&& forall|i: int|
                0 <= i < es.len() ==> !((#[trigger] es[i]).1 is Null) && self_mergeable(es[i].1)
        },
        _ => true,
    }
}

/// Merging a suffix of an object's own entries into the object leaves it
/// unchanged, when keys are unique, no member is null, and every member
/// value is itself unchanged by self-merge.
proof fn lemma_object_merged_self_suffix(t: Seq<(Seq<char>, ValueView)>, k: int)
    requires
        0 <= k <= t.len(),
        unique_keys(t),
        forall|i: int|
            0 <= i < t.len() ==> !((#[trigger] t[i]).1 is Null) && self_mergeable(t[i].1),
    ensures
        object_merged(t, t.subrange(k, t.len() as int)) == t,
    decreases t, t.len() - k,
{
    let s = t.subrange(k, t.len() as int);
    if k == t.len() {
        assert(s =~= Seq::<(Seq<char>, ValueView)>::empty());
    } else {
        assert(s[0] == t[k]);
        lemma_object_find(t, t[k].0);
        let j = object_find(t, t[k].0);
        assert(j != -1);
        assert(j == k) by {
            if j != k {
                assert(t[j].0 == t[k].0);
            }
        }
        lemma_json_self_merge(t[k].1);
        assert(t.update(k, (t[k].0, json_merged(t[k].1, t[k].1))) =~= t);
        lemma_object_merged_self_suffix(t, k + 1);
        assert(s.subrange(1, s.len() as int) =~= t.subrange(k + 1, t.len() as int));
    }
}

/// Idempotence of self-merge for JSON trees: merging a tree into an
/// identical copy of itself yields that same tree, provided the tree keeps
/// object keys unique and holds no null member value.
pub proof fn lemma_json_self_merge(v: ValueView)
    requires
        self_mergeable(v),
    ensures
        json_merged(v, v) == v,
    decreases v, 0int,
{
    match v {
        ValueView::Object(es) => {
            lemma_object_merged_self_suffix(es, 0);
            assert(es.subrange(0, es.len() as int) =~= es);
        }
        _ => {}
    }
}

} // verus!

//! JSON as a value: what the specs of the Cilium CRs are written in.

use vstd::prelude::*;

verus! {

/// A JSON value. An object keeps its members in the order they are written.
#[derive(Debug, PartialEq)]
pub enum Value {
    Bool(bool),
    Int(i64),
    Text(String),
    List(Vec<Value>),
    Object(Vec<(String, Value)>),
}

/// What a [`Value`] says.
#[verifier::ext_equal]
pub enum ValueView {
    Bool(bool),
    Int(i64),
    Text(Seq<char>),
    List(Seq<ValueView>),
    Object(Seq<(Seq<char>, ValueView)>),
}

/// What a value says.
pub open spec fn value_view(value: Value) -> ValueView
    decreases value,
{
    match value {
        Value::Bool(b) => ValueView::Bool(b),
        Value::Int(n) => ValueView::Int(n),
        Value::Text(t) => ValueView::Text(t@),
        Value::List(items) => ValueView::List(
            Seq::new(
                items@.len(),
                |i: int|
                    if 0 <= i < items@.len() {
                        value_view(items@[i])
                    } else {
                        arbitrary()
                    },
            ),
        ),
        Value::Object(members) => ValueView::Object(
            Seq::new(
                members@.len(),
                |i: int|
                    if 0 <= i < members@.len() {
                        (members@[i].0@, value_view(members@[i].1))
                    } else {
                        arbitrary()
                    },
            ),
        ),
    }
}

impl DeepView for Value {
    type V = ValueView;

    open spec fn deep_view(&self) -> ValueView {
        value_view(*self)
    }
}

/// A copy of a value.
fn copy(value: &Value) -> (r: Value)
    ensures
        r.deep_view() == value.deep_view(),
    decreases *value,
{
    match value {
        Value::Bool(b) => Value::Bool(*b),
        Value::Int(n) => Value::Int(*n),
        Value::Text(t) => Value::Text(t.clone()),
        Value::List(items) => {
            let mut out: Vec<Value> = Vec::new();
            let mut i: usize = 0;
            while i < items.len()
                invariant
                    *value == Value::List(*items),
                    i <= items.len(),
                    out@.len() == i,
                    forall|j: int|
                        0 <= j < i ==> (#[trigger] out@[j]).deep_view() == items@[j].deep_view(),
                decreases items.len() - i,
            {
                assert(decreases_to!(*value => value->List_0));
                assert(decreases_to!(value->List_0 => value->List_0@));
                assert(decreases_to!(items@ => items@[i as int]));
                out.push(copy(&items[i]));
                i = i + 1;
            }
            let r = Value::List(out);
            assert(r.deep_view()->List_0 =~= value.deep_view()->List_0);
            r
        },
        Value::Object(members) => {
            let mut out: Vec<(String, Value)> = Vec::new();
            let mut i: usize = 0;
            while i < members.len()
                invariant
                    *value == Value::Object(*members),
                    i <= members.len(),
                    out@.len() == i,
                    forall|j: int|
                        0 <= j < i ==> (#[trigger] out@[j]).0@ == members@[j].0@
                            && out@[j].1.deep_view() == members@[j].1.deep_view(),
                decreases members.len() - i,
            {
                assert(decreases_to!(*value => value->Object_0));
                assert(decreases_to!(value->Object_0 => value->Object_0@));
                assert(decreases_to!(members@ => members@[i as int]));
                assert(decreases_to!(members@[i as int] => members@[i as int].1));
                out.push((members[i].0.clone(), copy(&members[i].1)));
                i = i + 1;
            }
            let r = Value::Object(out);
            assert(r.deep_view()->Object_0 =~= value.deep_view()->Object_0);
            r
        },
    }
}

impl Clone for Value {
    fn clone(&self) -> (r: Value)
        ensures
            r.deep_view() == self.deep_view(),
    {
        copy(self)
    }
}

/// A truth value.
pub fn boolean(b: bool) -> (r: Value)
    ensures
        r.deep_view() == ValueView::Bool(b),
{
    Value::Bool(b)
}

/// A number.
pub fn number(n: i64) -> (r: Value)
    ensures
        r.deep_view() == ValueView::Int(n),
{
    Value::Int(n)
}

/// A string.
pub fn text(s: &str) -> (r: Value)
    ensures
        r.deep_view() == ValueView::Text(s@),
{
    Value::Text(s.to_string())
}

/// A list.
pub fn list(items: Vec<Value>) -> (r: Value)
    ensures
        r.deep_view() == ValueView::List(items.deep_view()),
{
    let ghost view = items.deep_view();
    let r = Value::List(items);
    assert(r.deep_view()->List_0 =~= view);
    r
}

/// An object.
pub fn object(members: Vec<(String, Value)>) -> (r: Value)
    ensures
        r.deep_view() == ValueView::Object(members.deep_view()),
{
    let ghost view = members.deep_view();
    let r = Value::Object(members);
    assert(r.deep_view()->Object_0 =~= view);
    r
}

/// A member of an object.
pub fn member(name: &str, value: Value) -> (r: (String, Value))
    ensures
        r.deep_view() == (name@, value.deep_view()),
{
    (name.to_string(), value)
}

} // verus!

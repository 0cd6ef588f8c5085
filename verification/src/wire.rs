//! The wire-object model.
//!
//! Payloads cross the transport boundary as trees of objects, arrays and
//! scalars with string keys (the transport layer maps this tree one-to-one
//! onto its concrete interchange text).  Numbers carry fixed-point amounts;
//! dates and timestamps travel as strings and are rendered and parsed by the
//! codec.

use vstd::prelude::*;

use crate::scalar::Decimal;

verus! {

/// Mathematical model of a wire value, used in contracts.
#[verifier::ext_equal]
pub enum WireValueView {
    Null,
    Bool(bool),
    Num(Decimal),
    Str(Seq<char>),
    Arr(Seq<WireValueView>),
    Obj(Seq<WireFieldView>),
}

/// Mathematical model of one keyed field of a wire object.
#[verifier::ext_equal]
pub struct WireFieldView {
    pub key: Seq<char>,
    pub value: WireValueView,
}

/// One value of the wire tree.
#[derive(Debug, PartialEq)]
pub enum WireValue {
    Null,
    Bool(bool),
    Num(Decimal),
    Str(String),
    Arr(Vec<WireValue>),
    Obj(Vec<WireField>),
}

/// One keyed field of a wire object.
#[derive(Debug, PartialEq)]
pub struct WireField {
    pub key: String,
    pub value: WireValue,
}

impl View for WireValue {
    type V = WireValueView;

    open spec fn view(&self) -> WireValueView
        decreases self,
    {
        match self {
            WireValue::Null => WireValueView::Null,
            WireValue::Bool(b) => WireValueView::Bool(*b),
            WireValue::Num(d) => WireValueView::Num(*d),
            WireValue::Str(s) => WireValueView::Str(s@),
            WireValue::Arr(items) => WireValueView::Arr(view_values(items@)),
            WireValue::Obj(fields) => WireValueView::Obj(view_fields(fields@)),
        }
    }
}

/// The view of a field list, element by element.
pub open spec fn view_fields(fields: Seq<WireField>) -> Seq<WireFieldView>
    decreases fields,
{
    Seq::new(
        fields.len(),
        |i: int|
            if 0 <= i < fields.len() {
                fields[i]@
            } else {
                WireFieldView { key: Seq::empty(), value: WireValueView::Null }
            },
    )
}

/// The view of a value list, element by element.
pub open spec fn view_values(values: Seq<WireValue>) -> Seq<WireValueView>
    decreases values,
{
    Seq::new(
        values.len(),
        |i: int|
            if 0 <= i < values.len() {
                values[i]@
            } else {
                WireValueView::Null
            },
    )
}

impl View for WireField {
    type V = WireFieldView;

    open spec fn view(&self) -> WireFieldView
        decreases self,
    {
        WireFieldView { key: self.key@, value: self.value@ }
    }
}

/// First value bound to `k` in the field list, if any.
pub open spec fn sobj_get(o: Seq<WireFieldView>, k: Seq<char>) -> Option<WireValueView>
    decreases o.len(),
{
    if o.len() == 0 {
        None
    } else if o[0].key == k {
        Some(o[0].value)
    } else {
        sobj_get(o.drop_first(), k)
    }
}

/// Looking a key up in a concatenation takes the left-hand binding first.
pub proof fn lemma_sobj_get_concat(a: Seq<WireFieldView>, b: Seq<WireFieldView>, k: Seq<char>)
    ensures
        sobj_get(a + b, k) == if sobj_get(a, k) is Some {
            sobj_get(a, k)
        } else {
            sobj_get(b, k)
        },
    decreases a.len(),
{
    if a.len() == 0 {
        assert(a + b =~= b);
    } else {
        assert((a + b)[0] == a[0]);
        assert((a + b).drop_first() =~= a.drop_first() + b);
        lemma_sobj_get_concat(a.drop_first(), b, k);
    }
}

/// String comparison with a contract over the views.
pub fn str_eq(a: &str, b: &str) -> (r: bool)
    ensures
        r == (a@ == b@),
{
    let sa: String = a.to_owned();
    let sb: String = b.to_owned();
    sa == sb
}

/// First value bound to `key` in `fields`, if any.
pub fn obj_get<'a>(fields: &'a Vec<WireField>, key: &str) -> (r: Option<&'a WireValue>)
    ensures
        match r {
            Some(v) => sobj_get(view_fields(fields@), key@) == Some(v@) && exists|k: int|
                0 <= k < fields@.len() && fields@[k].value == *v,
            None => sobj_get(view_fields(fields@), key@) is None,
        },
{
    let ghost o = view_fields(fields@);
    proof {
        assert(o.skip(0) =~= o);
    }
    let mut i: usize = 0;
    while i < fields.len()
        invariant
            i <= fields.len(),
            o == view_fields(fields@),
            o.len() == fields@.len(),
            forall|j: int| 0 <= j < i ==> o[j].key != key@,
            sobj_get(o, key@) == sobj_get(o.skip(i as int), key@),
        decreases fields.len() - i,
    {
        assert(o[i as int] == fields@[i as int]@);
        if str_eq(fields[i].key.as_str(), key) {
            proof {
                assert(o.skip(i as int)[0] == o[i as int]);
                assert(fields@[i as int].value == fields@[i as int].value);
            }
            return Some(&fields[i].value);
        }
        proof {
            assert(o.skip(i as int)[0] == o[i as int]);
            assert(o.skip(i as int).drop_first() =~= o.skip(i as int + 1));
        }
        i = i + 1;
    }
    proof {
        assert(o.skip(i as int) =~= Seq::<WireFieldView>::empty());
    }
    None
}

} // verus!

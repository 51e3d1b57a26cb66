//! A small structured-value model: the shape of tool argument payloads,
//! input schemas, and structured content items.

use vstd::prelude::*;

verus! {

broadcast use vstd::seq::axiom_seq_index_decreases, vstd::seq::axiom_seq_subrange_decreases, vstd::std_specs::vec::axiom_vec_index_decreases, vstd::std_specs::vec::axiom_vec_decreases_to_view;

/// A structured key-value payload, as carried by invocation requests and
/// tool input schemas.
#[derive(Debug)]
pub enum JsonValue {
    Null,
    Bool(bool),
    Int(i64),
    Text(String),
    Array(Vec<JsonValue>),
    Object(Vec<(String, JsonValue)>),
}

/// The mathematical shape of a `JsonValue`: strings become character
/// sequences, vectors become sequences.
#[verifier::ext_equal]
pub enum JsonView {
    Null,
    Bool(bool),
    Int(i64),
    Text(Seq<char>),
    Array(Seq<JsonView>),
    Object(Seq<(Seq<char>, JsonView)>),
}

/// The shape of one structured value.
pub open spec fn value_view(v: JsonValue) -> JsonView
    decreases v,
{
    match v {
        JsonValue::Null => JsonView::Null,
        JsonValue::Bool(b) => JsonView::Bool(b),
        JsonValue::Int(i) => JsonView::Int(i),
        JsonValue::Text(s) => JsonView::Text(s@),
        JsonValue::Array(items) => JsonView::Array(items_view(items@)),
        JsonValue::Object(fields) => JsonView::Object(fields_view(fields@)),
    }
}

/// The shapes of the elements of an array, in order.
pub open spec fn items_view(items: Seq<JsonValue>) -> Seq<JsonView>
    decreases items,
{
    if items.len() == 0 {
        Seq::empty()
    } else {
        items_view(items.subrange(0, items.len() - 1)).push(
            value_view(items[items.len() - 1]),
        )
    }
}

/// The shapes of the key-value fields of an object, in order.
pub open spec fn fields_view(fields: Seq<(String, JsonValue)>) -> Seq<(Seq<char>, JsonView)>
    decreases fields,
{
    if fields.len() == 0 {
        Seq::empty()
    } else {
        fields_view(fields.subrange(0, fields.len() - 1)).push(
            (fields[fields.len() - 1].0@, value_view(fields[fields.len() - 1].1)),
        )
    }
}

impl View for JsonValue {
    type V = JsonView;

    open spec fn view(&self) -> JsonView {
        value_view(*self)
    }
}

/// The lengths agree: an array or object has as many element shapes as
/// elements.
pub proof fn lemma_items_view_len(items: Seq<JsonValue>)
    ensures
        items_view(items).len() == items.len(),
    decreases items,
{
    if items.len() != 0 {
        lemma_items_view_len(items.subrange(0, items.len() - 1));
    }
}

/// Each element of an array contributes its own shape, in place.
pub proof fn lemma_items_view_index(items: Seq<JsonValue>, i: int)
    requires
        0 <= i < items.len(),
    ensures
        items_view(items).len() == items.len(),
        items_view(items)[i] == value_view(items[i]),
    decreases items,
{
    lemma_items_view_len(items);
    if i < items.len() - 1 {
        lemma_items_view_index(items.subrange(0, items.len() - 1), i);
    }
}

/// The fields of an object contribute their own shapes, in place.
pub proof fn lemma_fields_view_index(fields: Seq<(String, JsonValue)>, i: int)
    requires
        0 <= i < fields.len(),
    ensures
        fields_view(fields).len() == fields.len(),
        fields_view(fields)[i] == (fields[i].0@, value_view(fields[i].1)),
    decreases fields,
{
    lemma_fields_view_len(fields);
    if i < fields.len() - 1 {
        lemma_fields_view_index(fields.subrange(0, fields.len() - 1), i);
    }
}

/// The lengths agree for object fields as well.
pub proof fn lemma_fields_view_len(fields: Seq<(String, JsonValue)>)
    ensures
        fields_view(fields).len() == fields.len(),
    decreases fields,
{
    if fields.len() != 0 {
        lemma_fields_view_len(fields.subrange(0, fields.len() - 1));
    }
}

/// One item of a successful tool invocation's payload: text, binary, or
/// structured data.
#[derive(Debug)]
pub enum Content {
    Text(String),
    Binary(Vec<u8>),
    Structured(JsonValue),
}

/// The mathematical shape of a content item.
#[verifier::ext_equal]
pub enum ContentView {
    Text(Seq<char>),
    Binary(Seq<u8>),
    Structured(JsonView),
}

impl View for Content {
    type V = ContentView;

    open spec fn view(&self) -> ContentView {
        match self {
            Content::Text(s) => ContentView::Text(s@),
            Content::Binary(b) => ContentView::Binary(b@),
            Content::Structured(v) => ContentView::Structured(v@),
        }
    }
}

/// The shapes of a sequence of content items, in order.
pub open spec fn contents_view(s: Seq<Content>) -> Seq<ContentView> {
    s.map_values(|c: Content| c@)
}

/// Copies a structured value; the copy has the same shape as the
/// original.
#[verifier::loop_isolation(false)]
pub fn duplicate_value(v: &JsonValue) -> (r: JsonValue)
    ensures
        r@ == v@,
    decreases *v,
{
    match v {
        JsonValue::Null => JsonValue::Null,
        JsonValue::Bool(b) => JsonValue::Bool(*b),
        JsonValue::Int(i) => JsonValue::Int(*i),
        JsonValue::Text(s) => JsonValue::Text(s.clone()),
        JsonValue::Array(items) => {
            let mut out: Vec<JsonValue> = Vec::new();
            let mut i: usize = 0;
            while i < items.len()
                invariant
                    i <= items@.len(),
                    out@.len() == i,
                    forall|j: int| 0 <= j < i ==> out@[j]@ == items@[j]@,
                    *v == JsonValue::Array(*items),
                decreases items@.len() - i,
            {
                let c = duplicate_value(&items[i]);
                out.push(c);
                i = i + 1;
            }
            proof {
                lemma_items_view_congruence(out@, items@);
            }
            JsonValue::Array(out)
        },
        JsonValue::Object(fields) => {
            let mut out: Vec<(String, JsonValue)> = Vec::new();
            let mut i: usize = 0;
            while i < fields.len()
                invariant
                    i <= fields@.len(),
                    out@.len() == i,
                    forall|j: int| 0 <= j < i ==> out@[j].0@ == fields@[j].0@
                        && out@[j].1@ == fields@[j].1@,
                    *v == JsonValue::Object(*fields),
                decreases fields@.len() - i,
            {
                let k = fields[i].0.clone();
                let c = duplicate_value(&fields[i].1);
                out.push((k, c));
                i = i + 1;
            }
            proof {
                lemma_fields_view_congruence(out@, fields@);
            }
            JsonValue::Object(out)
        },
    }
}

/// Arrays whose elements agree shape for shape have the same shape.
pub proof fn lemma_items_view_congruence(a: Seq<JsonValue>, b: Seq<JsonValue>)
    requires
        a.len() == b.len(),
        forall|j: int| 0 <= j < a.len() ==> a[j]@ == b[j]@,
    ensures
        items_view(a) == items_view(b),
{
    lemma_items_view_len(a);
    lemma_items_view_len(b);
    assert forall|j: int| 0 <= j < a.len() implies items_view(a)[j] == items_view(b)[j] by {
        lemma_items_view_index(a, j);
        lemma_items_view_index(b, j);
    }
    assert(items_view(a) =~= items_view(b));
}

/// Objects whose fields agree key for key and shape for shape have the
/// same shape.
pub proof fn lemma_fields_view_congruence(a: Seq<(String, JsonValue)>, b: Seq<(String, JsonValue)>)
    requires
        a.len() == b.len(),
        forall|j: int| 0 <= j < a.len() ==> a[j].0@ == b[j].0@ && a[j].1@ == b[j].1@,
    ensures
        fields_view(a) == fields_view(b),
{
    lemma_fields_view_len(a);
    lemma_fields_view_len(b);
    assert forall|j: int| 0 <= j < a.len() implies fields_view(a)[j] == fields_view(b)[j] by {
        lemma_fields_view_index(a, j);
        lemma_fields_view_index(b, j);
    }
    assert(fields_view(a) =~= fields_view(b));
}

/// The view of an empty key-value payload, `{}`.
pub open spec fn empty_object_view() -> JsonView {
    JsonView::Object(Seq::empty())
}

/// Builds the empty key-value payload `{}`.
pub fn empty_object() -> (r: JsonValue)
    ensures
        r@ == empty_object_view(),
{
    let r = JsonValue::Object(Vec::new());
    proof {
        assert(r@ =~= empty_object_view());
    }
    r
}

} // verus!

//! Telemetry attributes.
//!
//! An attribute is kept twice: as a plain key and value, which the contracts
//! speak of, and as the OpenTelemetry `KeyValue` that is handed to an
//! instrument. Building both once keeps the recording path free of
//! allocation.
use crate::text::str_eq;
use opentelemetry::KeyValue;
use vstd::prelude::*;

verus! {

/// An OpenTelemetry attribute, as handed to an instrument.
#[verifier::external_type_specification]
#[verifier::external_body]
pub struct ExKeyValue(opentelemetry::KeyValue);

/// The attribute value types in use.
#[derive(Debug)]
pub enum AttrValue {
    Bool(bool),
    Int(i64),
    Text(String),
}

/// One attribute: a key and its value.
#[derive(Debug)]
pub struct Attr {
    pub key: &'static str,
    pub value: AttrValue,
}

/// What an [`AttrValue`] holds.
pub enum AttrValueView {
    Bool(bool),
    Int(i64),
    Text(Seq<char>),
}

/// What an [`Attr`] holds.
pub struct AttrView {
    pub key: Seq<char>,
    pub value: AttrValueView,
}

impl View for AttrValue {
    type V = AttrValueView;

    open spec fn view(&self) -> AttrValueView {
        match self {
            AttrValue::Bool(b) => AttrValueView::Bool(*b),
            AttrValue::Int(i) => AttrValueView::Int(*i),
            AttrValue::Text(s) => AttrValueView::Text(s@),
        }
    }
}

impl View for Attr {
    type V = AttrView;

    open spec fn view(&self) -> AttrView {
        AttrView { key: self.key@, value: self.value@ }
    }
}

/// A boolean attribute.
pub open spec fn bool_attr(key: Seq<char>, value: bool) -> AttrView {
    AttrView { key, value: AttrValueView::Bool(value) }
}

/// An integer attribute.
pub open spec fn int_attr(key: Seq<char>, value: i64) -> AttrView {
    AttrView { key, value: AttrValueView::Int(value) }
}

/// A text attribute.
pub open spec fn text_attr(key: Seq<char>, value: Seq<char>) -> AttrView {
    AttrView { key, value: AttrValueView::Text(value) }
}

/// What `KeyValue::new` returns for a key and a value.
pub uninterp spec fn key_value_of(attr: AttrView) -> KeyValue;

/// `opentelemetry::KeyValue::new` at a boolean value: the pair depends on the
/// key and the value alone.
#[verifier::external_body]
fn new_bool_key_value(key: &'static str, value: bool) -> (r: KeyValue)
    ensures
        r == key_value_of(bool_attr(key@, value)),
{
    KeyValue::new(key, value)
}

/// `opentelemetry::KeyValue::new` at an integer value: the pair depends on
/// the key and the value alone.
#[verifier::external_body]
fn new_int_key_value(key: &'static str, value: i64) -> (r: KeyValue)
    ensures
        r == key_value_of(int_attr(key@, value)),
{
    KeyValue::new(key, value)
}

/// `opentelemetry::KeyValue::new` at a text value: the pair depends on the
/// key and the characters of the value alone.
#[verifier::external_body]
fn new_text_key_value(key: &'static str, value: String) -> (r: KeyValue)
    ensures
        r == key_value_of(text_attr(key@, value@)),
{
    KeyValue::new(key, value)
}

/// The OpenTelemetry attributes that stand for `attrs`, in order.
pub open spec fn key_values_of(attrs: Seq<AttrView>) -> Seq<KeyValue> {
    Seq::new(attrs.len(), |i: int| key_value_of(attrs[i]))
}

impl Attr {
    /// A boolean attribute.
    pub fn of_bool(key: &'static str, value: bool) -> (r: Attr)
        ensures
            r@ == bool_attr(key@, value),
    {
        Attr { key, value: AttrValue::Bool(value) }
    }

    /// An integer attribute.
    pub fn of_int(key: &'static str, value: i64) -> (r: Attr)
        ensures
            r@ == int_attr(key@, value),
    {
        Attr { key, value: AttrValue::Int(value) }
    }

    /// A text attribute.
    pub fn of_text(key: &'static str, value: String) -> (r: Attr)
        ensures
            r@ == text_attr(key@, value@),
    {
        Attr { key, value: AttrValue::Text(value) }
    }

    /// Converts the attribute for OpenTelemetry.
    pub fn to_key_value(&self) -> (r: KeyValue)
        ensures
            r == key_value_of(self@),
    {
        match &self.value {
            AttrValue::Bool(b) => new_bool_key_value(self.key, *b),
            AttrValue::Int(i) => new_int_key_value(self.key, *i),
            AttrValue::Text(s) => new_text_key_value(self.key, s.clone()),
        }
    }

    /// A second attribute with the same key and value.
    fn duplicate(&self) -> (r: Attr)
        ensures
            r@ == self@,
    {
        let value = match &self.value {
            AttrValue::Bool(b) => AttrValue::Bool(*b),
            AttrValue::Int(i) => AttrValue::Int(*i),
            AttrValue::Text(s) => AttrValue::Text(s.clone()),
        };
        Attr { key: self.key, value }
    }
}

/// A list of attributes together with its OpenTelemetry form.
#[derive(Debug)]
pub struct AttributeSet {
    attrs: Vec<Attr>,
    key_values: Vec<KeyValue>,
}

impl View for AttributeSet {
    type V = Seq<AttrView>;

    closed spec fn view(&self) -> Seq<AttrView> {
        Seq::new(self.attrs@.len(), |i: int| self.attrs@[i]@)
    }
}

impl AttributeSet {
    #[verifier::type_invariant]
    closed spec fn converted(&self) -> bool {
        self.key_values@ == key_values_of(self@)
    }

    /// Converts `attrs`, in order.
    pub fn new(attrs: Vec<Attr>) -> (r: AttributeSet)
        ensures
            r@ == Seq::new(attrs@.len(), |i: int| attrs@[i]@),
    {
        let mut key_values: Vec<KeyValue> = Vec::new();
        let mut i: usize = 0;
        while i < attrs.len()
            invariant
                i <= attrs@.len(),
                key_values@.len() == i,
                forall|j: int| 0 <= j < i ==> #[trigger] key_values@[j] == key_value_of(attrs@[j]@),
            decreases attrs@.len() - i,
        {
            key_values.push(attrs[i].to_key_value());
            i = i + 1;
        }
        proof {
            let view = Seq::new(attrs@.len(), |j: int| attrs@[j]@);
            assert(key_values@ =~= key_values_of(view));
        }
        AttributeSet { attrs, key_values }
    }

    /// The OpenTelemetry form of the attributes.
    pub fn key_values(&self) -> (r: &Vec<KeyValue>)
        ensures
            r@ == key_values_of(self@),
    {
        proof {
            use_type_invariant(self);
        }
        &self.key_values
    }

    /// Whether the list holds no attribute.
    pub fn is_empty(&self) -> (r: bool)
        ensures
            r == (self@.len() == 0),
    {
        self.attrs.len() == 0
    }

    /// Whether the list holds the boolean attribute `key = value`.
    pub fn contains_bool(&self, key: &str, value: bool) -> (r: bool)
        ensures
            r == self@.contains(bool_attr(key@, value)),
    {
        let mut i: usize = 0;
        while i < self.attrs.len()
            invariant
                i <= self.attrs@.len(),
                forall|j: int| 0 <= j < i ==> #[trigger] self@[j] != bool_attr(key@, value),
            decreases self.attrs@.len() - i,
        {
            assert(self@[i as int] == self.attrs@[i as int]@);
            if str_eq(self.attrs[i].key, key) {
                if let AttrValue::Bool(b) = &self.attrs[i].value {
                    if *b == value {
                        assert(self@[i as int] == bool_attr(key@, value));
                        return true;
                    }
                }
            }
            i = i + 1;
        }
        false
    }

    /// A second list with the same attributes.
    pub fn duplicate(&self) -> (r: AttributeSet)
        ensures
            r@ == self@,
    {
        let mut attrs: Vec<Attr> = Vec::new();
        let mut i: usize = 0;
        while i < self.attrs.len()
            invariant
                i <= self.attrs@.len(),
                attrs@.len() == i,
                forall|j: int| 0 <= j < i ==> #[trigger] attrs@[j]@ == self.attrs@[j]@,
            decreases self.attrs@.len() - i,
        {
            attrs.push(self.attrs[i].duplicate());
            i = i + 1;
        }
        let r = AttributeSet::new(attrs);
        assert(r@ =~= self@);
        r
    }
}

} // verus!

use vstd::prelude::*;

use crate::array::Array;
use crate::date::Date;
use crate::dictionary::Dictionary;
use crate::scalar::{Boolean, Data, Integer, Key, Null, PString, Real, Uid};

verus! {

/// The content of a node, as a mathematical value.
pub enum Plist {
    Array(Seq<Plist>),
    Boolean(bool),
    Data(Seq<u8>),
    /// Microseconds since 2001-01-01.
    Date(int),
    /// Entries in order of insertion.
    Dictionary(Seq<(Seq<char>, Plist)>),
    /// The 64 bits of the integer.
    Integer(u64),
    Key(Seq<char>),
    Null,
    /// The IEEE 754 bit pattern of the number.
    Real(u64),
    String(Seq<char>),
    Uid(u64),
}

impl Plist {
    /// Scalar kinds are the ones whose content can be written over in place.
    pub open spec fn is_scalar(self) -> bool {
        match self {
            Plist::Boolean(_) | Plist::Data(_) | Plist::Date(_) | Plist::Integer(_)
            | Plist::Real(_) | Plist::String(_) | Plist::Uid(_) => true,
            _ => false,
        }
    }
}

/// Text that may be handed on as a NUL-terminated string.
pub open spec fn nul_free(s: Seq<char>) -> bool {
    forall|i: int| 0 <= i < s.len() ==> s[i] != '\0'
}

/// Whether the keys of a sequence of entries are pairwise distinct.
pub open spec fn keys_unique(entries: Seq<(Seq<char>, Plist)>) -> bool {
    forall|i: int, j: int|
        0 <= i < entries.len() && 0 <= j < entries.len() && i != j ==> entries[i].0 != entries[j].0
}

/// Whether the bit pattern is a NaN.
pub open spec fn real_is_nan(bits: u64) -> bool {
    bits & 0x7ff0_0000_0000_0000u64 == 0x7ff0_0000_0000_0000u64 && bits & 0x000f_ffff_ffff_ffffu64
        != 0
}

/// Whether the bit pattern is a zero of either sign.
pub open spec fn real_is_zero(bits: u64) -> bool {
    bits & 0x7fff_ffff_ffff_ffffu64 == 0
}

/// IEEE 754 equality of two numbers given by their bit patterns: no NaN
/// equals anything, and the two zeros are equal.
pub open spec fn real_equal(a: u64, b: u64) -> bool {
    (a == b && !real_is_nan(a)) || (real_is_zero(a) && real_is_zero(b))
}

/// Equality of node contents: arrays pairwise in order, dictionaries as sets
/// of entries (same size, and each key of one is in the other with an equal
/// value), numbers and the rest by value.
pub open spec fn same(a: Plist, b: Plist) -> bool
    decreases a, 0nat,
{
    match a {
        Plist::Array(xs) => match b {
            Plist::Array(ys) => xs.len() == ys.len() && forall|i: int|
                0 <= i < xs.len() ==> same(xs[i], ys[i]),
            _ => false,
        },
        Plist::Dictionary(xs) => match b {
            Plist::Dictionary(ys) => xs.len() == ys.len() && forall|i: int|
                0 <= i < xs.len() ==> matched_in(ys, #[trigger] xs[i]),
            _ => false,
        },
        Plist::Real(x) => match b {
            Plist::Real(y) => real_equal(x, y),
            _ => false,
        },
        _ => a == b,
    }
}

/// Whether some entry of `ys` has the key of `e` and a value equal to its
/// value.
pub open spec fn matched_in(ys: Seq<(Seq<char>, Plist)>, e: (Seq<char>, Plist)) -> bool
    decreases e.1, 1nat,
{
    exists|j: int| 0 <= j < ys.len() && ys[j].0 == e.0 && same(e.1, #[trigger] ys[j].1)
}

/// A shared view of a node that lives inside a container. It borrows the
/// container, so the node can be neither changed nor freed while it is held.
pub type Item<'a> = &'a Value;

/// A mutable view of a node that lives inside a container.
pub type ItemMut<'a> = &'a mut Value;

/// A node of any kind. A `Value` owns its node and, for a container, the
/// whole subtree below it.
#[derive(Debug)]
pub enum Value {
    Array(Array),
    Boolean(Boolean),
    Data(Data),
    Date(Date),
    Dictionary(Dictionary),
    Integer(Integer),
    Key(Key),
    Null(Null),
    Real(Real),
    PString(PString),
    Uid(Uid),
}

impl Value {
    pub open spec fn view(&self) -> Plist
        decreases self,
    {
        match self {
            Value::Array(v) => Plist::Array(v@),
            Value::Boolean(v) => Plist::Boolean(v@),
            Value::Data(v) => Plist::Data(v@),
            Value::Date(v) => Plist::Date(v@),
            Value::Dictionary(v) => Plist::Dictionary(v@),
            Value::Integer(v) => Plist::Integer(v@),
            Value::Key(v) => Plist::Key(v@),
            Value::Null(_) => Plist::Null,
            Value::Real(v) => Plist::Real(v@),
            Value::PString(v) => Plist::String(v@),
            Value::Uid(v) => Plist::Uid(v@),
        }
    }

    /// If the value is an Array, returns a shared view of it; `None` otherwise.
    pub fn as_array(&self) -> (r: Option<&Array>)
        ensures
            r is Some <==> self@ is Array,
            r is Some ==> Plist::Array(r->0@) == self@,
    {
        match self {
            Value::Array(v) => Some(v),
            _ => None,
        }
    }

    /// If the value is an Array, returns a mutable view of it; `None` otherwise.
    pub fn as_array_mut(&mut self) -> (r: Option<&mut Array>)
        ensures
            r is Some <==> old(self)@ is Array,
            r is Some ==> Plist::Array((*r->0)@) == old(self)@ && final(self)@ == Plist::Array(
                (*final(r->0))@,
            ),
            r is None ==> final(self)@ == old(self)@,
    {
        match self {
            Value::Array(v) => Some(v),
            _ => None,
        }
    }

    /// If the value is a Boolean, returns a shared view of it; `None` otherwise.
    pub fn as_boolean(&self) -> (r: Option<&Boolean>)
        ensures
            r is Some <==> self@ is Boolean,
            r is Some ==> Plist::Boolean(r->0@) == self@,
    {
        match self {
            Value::Boolean(v) => Some(v),
            _ => None,
        }
    }

    /// If the value is a Boolean, returns a mutable view of it; `None` otherwise.
    pub fn as_boolean_mut(&mut self) -> (r: Option<&mut Boolean>)
        ensures
            r is Some <==> old(self)@ is Boolean,
            r is Some ==> Plist::Boolean((*r->0)@) == old(self)@ && final(self)@ == Plist::Boolean(
                (*final(r->0))@,
            ),
            r is None ==> final(self)@ == old(self)@,
    {
        match self {
            Value::Boolean(v) => Some(v),
            _ => None,
        }
    }

    /// If the value is a Data node, returns a shared view of it; `None` otherwise.
    pub fn as_data(&self) -> (r: Option<&Data>)
        ensures
            r is Some <==> self@ is Data,
            r is Some ==> Plist::Data(r->0@) == self@,
    {
        match self {
            Value::Data(v) => Some(v),
            _ => None,
        }
    }

    /// If the value is a Data node, returns a mutable view of it; `None` otherwise.
    pub fn as_data_mut(&mut self) -> (r: Option<&mut Data>)
        ensures
            r is Some <==> old(self)@ is Data,
            r is Some ==> Plist::Data((*r->0)@) == old(self)@ && final(self)@ == Plist::Data(
                (*final(r->0))@,
            ),
            r is None ==> final(self)@ == old(self)@,
    {
        match self {
            Value::Data(v) => Some(v),
            _ => None,
        }
    }

    /// If the value is a Date, returns a shared view of it; `None` otherwise.
    pub fn as_date(&self) -> (r: Option<&Date>)
        ensures
            r is Some <==> self@ is Date,
            r is Some ==> Plist::Date(r->0@) == self@,
    {
        match self {
            Value::Date(v) => Some(v),
            _ => None,
        }
    }

    /// If the value is a Date, returns a mutable view of it; `None` otherwise.
    pub fn as_date_mut(&mut self) -> (r: Option<&mut Date>)
        ensures
            r is Some <==> old(self)@ is Date,
            r is Some ==> Plist::Date((*r->0)@) == old(self)@ && final(self)@ == Plist::Date(
                (*final(r->0))@,
            ),
            r is None ==> final(self)@ == old(self)@,
    {
        match self {
            Value::Date(v) => Some(v),
            _ => None,
        }
    }

    /// If the value is a Dictionary, returns a shared view of it; `None` otherwise.
    pub fn as_dictionary(&self) -> (r: Option<&Dictionary>)
        ensures
            r is Some <==> self@ is Dictionary,
            r is Some ==> Plist::Dictionary(r->0@) == self@,
    {
        match self {
            Value::Dictionary(v) => Some(v),
            _ => None,
        }
    }

    /// If the value is a Dictionary, returns a mutable view of it; `None` otherwise.
    pub fn as_dictionary_mut(&mut self) -> (r: Option<&mut Dictionary>)
        ensures
            r is Some <==> old(self)@ is Dictionary,
            r is Some ==> Plist::Dictionary((*r->0)@) == old(self)@ && final(self)@ == Plist::Dictionary(
                (*final(r->0))@,
            ),
            r is None ==> final(self)@ == old(self)@,
    {
        match self {
            Value::Dictionary(v) => Some(v),
            _ => None,
        }
    }

    /// If the value is a Real, returns a shared view of it; `None` otherwise.
    pub fn as_real(&self) -> (r: Option<&Real>)
        ensures
            r is Some <==> self@ is Real,
            r is Some ==> Plist::Real(r->0@) == self@,
    {
        match self {
            Value::Real(v) => Some(v),
            _ => None,
        }
    }

    /// If the value is a Real, returns a mutable view of it; `None` otherwise.
    pub fn as_real_mut(&mut self) -> (r: Option<&mut Real>)
        ensures
            r is Some <==> old(self)@ is Real,
            r is Some ==> Plist::Real((*r->0)@) == old(self)@ && final(self)@ == Plist::Real(
                (*final(r->0))@,
            ),
            r is None ==> final(self)@ == old(self)@,
    {
        match self {
            Value::Real(v) => Some(v),
            _ => None,
        }
    }

    /// If the value is an Integer, returns a shared view of it; `None` otherwise.
    pub fn as_integer(&self) -> (r: Option<&Integer>)
        ensures
            r is Some <==> self@ is Integer,
            r is Some ==> Plist::Integer(r->0@) == self@,
    {
        match self {
            Value::Integer(v) => Some(v),
            _ => None,
        }
    }

    /// If the value is an Integer, returns a mutable view of it; `None` otherwise.
    pub fn as_integer_mut(&mut self) -> (r: Option<&mut Integer>)
        ensures
            r is Some <==> old(self)@ is Integer,
            r is Some ==> Plist::Integer((*r->0)@) == old(self)@ && final(self)@ == Plist::Integer(
                (*final(r->0))@,
            ),
            r is None ==> final(self)@ == old(self)@,
    {
        match self {
            Value::Integer(v) => Some(v),
            _ => None,
        }
    }

    /// If the value is a Key, returns a shared view of it; `None` otherwise.
    pub fn as_key(&self) -> (r: Option<&Key>)
        ensures
            r is Some <==> self@ is Key,
            r is Some ==> Plist::Key(r->0@) == self@,
    {
        match self {
            Value::Key(v) => Some(v),
            _ => None,
        }
    }

    /// If the value is a Key, returns a mutable view of it; `None` otherwise.
    pub fn as_key_mut(&mut self) -> (r: Option<&mut Key>)
        ensures
            r is Some <==> old(self)@ is Key,
            r is Some ==> Plist::Key((*r->0)@) == old(self)@ && final(self)@ == Plist::Key(
                (*final(r->0))@,
            ),
            r is None ==> final(self)@ == old(self)@,
    {
        match self {
            Value::Key(v) => Some(v),
            _ => None,
        }
    }

    /// If the value is a String, returns a shared view of it; `None` otherwise.
    pub fn as_string(&self) -> (r: Option<&PString>)
        ensures
            r is Some <==> self@ is String,
            r is Some ==> Plist::String(r->0@) == self@,
    {
        match self {
            Value::PString(v) => Some(v),
            _ => None,
        }
    }

    /// If the value is a String, returns a mutable view of it; `None` otherwise.
    pub fn as_string_mut(&mut self) -> (r: Option<&mut PString>)
        ensures
            r is Some <==> old(self)@ is String,
            r is Some ==> Plist::String((*r->0)@) == old(self)@ && final(self)@ == Plist::String(
                (*final(r->0))@,
            ),
            r is None ==> final(self)@ == old(self)@,
    {
        match self {
            Value::PString(v) => Some(v),
            _ => None,
        }
    }

    /// If the value is a Uid, returns a shared view of it; `None` otherwise.
    pub fn as_uid(&self) -> (r: Option<&Uid>)
        ensures
            r is Some <==> self@ is Uid,
            r is Some ==> Plist::Uid(r->0@) == self@,
    {
        match self {
            Value::Uid(v) => Some(v),
            _ => None,
        }
    }

    /// If the value is a Uid, returns a mutable view of it; `None` otherwise.
    pub fn as_uid_mut(&mut self) -> (r: Option<&mut Uid>)
        ensures
            r is Some <==> old(self)@ is Uid,
            r is Some ==> Plist::Uid((*r->0)@) == old(self)@ && final(self)@ == Plist::Uid(
                (*final(r->0))@,
            ),
            r is None ==> final(self)@ == old(self)@,
    {
        match self {
            Value::Uid(v) => Some(v),
            _ => None,
        }
    }

    /// If the value is an Array, hands it over; `None` otherwise.
    pub fn into_array(self) -> (r: Option<Array>)
        ensures
            r is Some <==> self@ is Array,
            r is Some ==> Plist::Array(r->0@) == self@,
    {
        match self {
            Value::Array(v) => Some(v),
            _ => None,
        }
    }

    /// If the value is a Boolean, hands it over; `None` otherwise.
    pub fn into_boolean(self) -> (r: Option<Boolean>)
        ensures
            r is Some <==> self@ is Boolean,
            r is Some ==> Plist::Boolean(r->0@) == self@,
    {
        match self {
            Value::Boolean(v) => Some(v),
            _ => None,
        }
    }

    /// If the value is a Data node, hands it over; `None` otherwise.
    pub fn into_data(self) -> (r: Option<Data>)
        ensures
            r is Some <==> self@ is Data,
            r is Some ==> Plist::Data(r->0@) == self@,
    {
        match self {
            Value::Data(v) => Some(v),
            _ => None,
        }
    }

    /// If the value is a Date, hands it over; `None` otherwise.
    pub fn into_date(self) -> (r: Option<Date>)
        ensures
            r is Some <==> self@ is Date,
            r is Some ==> Plist::Date(r->0@) == self@,
    {
        match self {
            Value::Date(v) => Some(v),
            _ => None,
        }
    }

    /// If the value is a Dictionary, hands it over; `None` otherwise.
    pub fn into_dictionary(self) -> (r: Option<Dictionary>)
        ensures
            r is Some <==> self@ is Dictionary,
            r is Some ==> Plist::Dictionary(r->0@) == self@,
    {
        match self {
            Value::Dictionary(v) => Some(v),
            _ => None,
        }
    }

    /// If the value is a Real, hands it over; `None` otherwise.
    pub fn into_real(self) -> (r: Option<Real>)
        ensures
            r is Some <==> self@ is Real,
            r is Some ==> Plist::Real(r->0@) == self@,
    {
        match self {
            Value::Real(v) => Some(v),
            _ => None,
        }
    }

    /// If the value is an Integer, hands it over; `None` otherwise.
    pub fn into_integer(self) -> (r: Option<Integer>)
        ensures
            r is Some <==> self@ is Integer,
            r is Some ==> Plist::Integer(r->0@) == self@,
    {
        match self {
            Value::Integer(v) => Some(v),
            _ => None,
        }
    }

    /// If the value is a Key, hands it over; `None` otherwise.
    pub fn into_key(self) -> (r: Option<Key>)
        ensures
            r is Some <==> self@ is Key,
            r is Some ==> Plist::Key(r->0@) == self@,
    {
        match self {
            Value::Key(v) => Some(v),
            _ => None,
        }
    }

    /// If the value is a String, hands it over; `None` otherwise.
    pub fn into_string(self) -> (r: Option<PString>)
        ensures
            r is Some <==> self@ is String,
            r is Some ==> Plist::String(r->0@) == self@,
    {
        match self {
            Value::PString(v) => Some(v),
            _ => None,
        }
    }

    /// If the value is a Uid, hands it over; `None` otherwise.
    pub fn into_uid(self) -> (r: Option<Uid>)
        ensures
            r is Some <==> self@ is Uid,
            r is Some ==> Plist::Uid(r->0@) == self@,
    {
        match self {
            Value::Uid(v) => Some(v),
            _ => None,
        }
    }

    /// Returns `true` if the value is a Null.
    pub fn is_null(&self) -> (r: bool)
        ensures
            r == (self@ is Null),
    {
        match self {
            Value::Null(_) => true,
            _ => false,
        }
    }

    /// Writes the content of `new_value` over this node, which keeps its
    /// place: a parent that holds the node sees the new content. Both must be
    /// scalars. The content is copied; `new_value` is left as it was.
    pub fn replace_with(&mut self, new_value: &Value)
        requires
            old(self)@.is_scalar(),
            new_value@.is_scalar(),
        ensures
            final(self)@ == new_value@,
    {
        *self = new_value.clone();
    }

    /// Returns an independent copy of the node and of everything below it.
    pub fn clone(&self) -> (r: Value)
        ensures
            r@ == self@,
        decreases self,
    {
        match self {
            Value::Array(v) => Value::Array(v.clone()),
            Value::Boolean(v) => Value::Boolean(v.clone()),
            Value::Data(v) => Value::Data(v.clone()),
            Value::Date(v) => Value::Date(v.clone()),
            Value::Dictionary(v) => Value::Dictionary(v.clone()),
            Value::Integer(v) => Value::Integer(v.clone()),
            Value::Key(v) => Value::Key(v.clone()),
            Value::Null(v) => Value::Null(v.clone()),
            Value::Real(v) => Value::Real(v.clone()),
            Value::PString(v) => Value::PString(v.clone()),
            Value::Uid(v) => Value::Uid(v.clone()),
        }
    }

    /// Equality of contents; see [`same`].
    pub(crate) fn same_as(&self, other: &Value) -> (r: bool)
        ensures
            r == same(self@, other@),
        decreases self,
    {
        match self {
            Value::Array(a) => match other {
                Value::Array(b) => a.same_items(b),
                _ => false,
            },
            Value::Dictionary(a) => match other {
                Value::Dictionary(b) => a.same_entries(b),
                _ => false,
            },
            Value::Boolean(a) => match other {
                Value::Boolean(b) => a.as_bool() == b.as_bool(),
                _ => false,
            },
            Value::Data(a) => match other {
                Value::Data(b) => bytes_equal(a.as_bytes(), b.as_bytes()),
                _ => false,
            },
            Value::Date(a) => match other {
                Value::Date(b) => a.get() == b.get(),
                _ => false,
            },
            Value::Integer(a) => match other {
                Value::Integer(b) => a.as_unsinged() == b.as_unsinged(),
                _ => false,
            },
            Value::Key(a) => match other {
                Value::Key(b) => a.get() == b.get(),
                _ => false,
            },
            Value::Null(_) => match other {
                Value::Null(_) => true,
                _ => false,
            },
            Value::Real(a) => match other {
                Value::Real(b) => real_bits_equal(a.to_bits(), b.to_bits()),
                _ => false,
            },
            Value::PString(a) => match other {
                Value::PString(b) => a.as_str().to_owned() == b.as_str().to_owned(),
                _ => false,
            },
            Value::Uid(a) => match other {
                Value::Uid(b) => a.get() == b.get(),
                _ => false,
            },
        }
    }
}

/// Byte-wise equality of two buffers.
fn bytes_equal(a: &[u8], b: &[u8]) -> (r: bool)
    ensures
        r == (a@ == b@),
{
    if a.len() != b.len() {
        return false;
    }
    let mut i: usize = 0;
    while i < a.len()
        invariant
            i <= a@.len(),
            a@.len() == b@.len(),
            forall|j: int| 0 <= j < i ==> a@[j] == b@[j],
        decreases a@.len() - i,
    {
        if a[i] != b[i] {
            return false;
        }
        i = i + 1;
    }
    assert(a@ =~= b@);
    true
}

/// IEEE 754 equality of two numbers given by their bit patterns.
fn real_bits_equal(a: u64, b: u64) -> (r: bool)
    ensures
        r == real_equal(a, b),
{
    let a_nan = a & 0x7ff0_0000_0000_0000u64 == 0x7ff0_0000_0000_0000u64 && a
        & 0x000f_ffff_ffff_ffffu64 != 0;
    (a == b && !a_nan) || (a & 0x7fff_ffff_ffff_ffffu64 == 0 && b & 0x7fff_ffff_ffff_ffffu64 == 0)
}

impl PartialEq for Value {
    fn eq(&self, other: &Value) -> (r: bool) {
        self.same_as(other)
    }
}

impl vstd::std_specs::cmp::PartialEqSpecImpl for Value {
    open spec fn obeys_eq_spec() -> bool {
        true
    }

    open spec fn eq_spec(&self, other: &Value) -> bool {
        same(self@, other@)
    }
}

impl From<Array> for Value {
    fn from(v: Array) -> (r: Value) {
        Value::Array(v)
    }
}

impl vstd::std_specs::convert::FromSpecImpl<Array> for Value {
    open spec fn obeys_from_spec() -> bool {
        true
    }

    open spec fn from_spec(v: Array) -> Value {
        Value::Array(v)
    }
}

impl From<Boolean> for Value {
    fn from(v: Boolean) -> (r: Value) {
        Value::Boolean(v)
    }
}

impl vstd::std_specs::convert::FromSpecImpl<Boolean> for Value {
    open spec fn obeys_from_spec() -> bool {
        true
    }

    open spec fn from_spec(v: Boolean) -> Value {
        Value::Boolean(v)
    }
}

impl From<Data> for Value {
    fn from(v: Data) -> (r: Value) {
        Value::Data(v)
    }
}

impl vstd::std_specs::convert::FromSpecImpl<Data> for Value {
    open spec fn obeys_from_spec() -> bool {
        true
    }

    open spec fn from_spec(v: Data) -> Value {
        Value::Data(v)
    }
}

impl From<Date> for Value {
    fn from(v: Date) -> (r: Value) {
        Value::Date(v)
    }
}

impl vstd::std_specs::convert::FromSpecImpl<Date> for Value {
    open spec fn obeys_from_spec() -> bool {
        true
    }

    open spec fn from_spec(v: Date) -> Value {
        Value::Date(v)
    }
}

impl From<Dictionary> for Value {
    fn from(v: Dictionary) -> (r: Value) {
        Value::Dictionary(v)
    }
}

impl vstd::std_specs::convert::FromSpecImpl<Dictionary> for Value {
    open spec fn obeys_from_spec() -> bool {
        true
    }

    open spec fn from_spec(v: Dictionary) -> Value {
        Value::Dictionary(v)
    }
}

impl From<Real> for Value {
    fn from(v: Real) -> (r: Value) {
        Value::Real(v)
    }
}

impl vstd::std_specs::convert::FromSpecImpl<Real> for Value {
    open spec fn obeys_from_spec() -> bool {
        true
    }

    open spec fn from_spec(v: Real) -> Value {
        Value::Real(v)
    }
}

impl From<Integer> for Value {
    fn from(v: Integer) -> (r: Value) {
        Value::Integer(v)
    }
}

impl vstd::std_specs::convert::FromSpecImpl<Integer> for Value {
    open spec fn obeys_from_spec() -> bool {
        true
    }

    open spec fn from_spec(v: Integer) -> Value {
        Value::Integer(v)
    }
}

impl From<Key> for Value {
    fn from(v: Key) -> (r: Value) {
        Value::Key(v)
    }
}

impl vstd::std_specs::convert::FromSpecImpl<Key> for Value {
    open spec fn obeys_from_spec() -> bool {
        true
    }

    open spec fn from_spec(v: Key) -> Value {
        Value::Key(v)
    }
}

impl From<PString> for Value {
    fn from(v: PString) -> (r: Value) {
        Value::PString(v)
    }
}

impl vstd::std_specs::convert::FromSpecImpl<PString> for Value {
    open spec fn obeys_from_spec() -> bool {
        true
    }

    open spec fn from_spec(v: PString) -> Value {
        Value::PString(v)
    }
}

impl From<Uid> for Value {
    fn from(v: Uid) -> (r: Value) {
        Value::Uid(v)
    }
}

impl vstd::std_specs::convert::FromSpecImpl<Uid> for Value {
    open spec fn obeys_from_spec() -> bool {
        true
    }

    open spec fn from_spec(v: Uid) -> Value {
        Value::Uid(v)
    }
}

impl From<Null> for Value {
    fn from(v: Null) -> (r: Value) {
        Value::Null(v)
    }
}

impl vstd::std_specs::convert::FromSpecImpl<Null> for Value {
    open spec fn obeys_from_spec() -> bool {
        true
    }

    open spec fn from_spec(v: Null) -> Value {
        Value::Null(v)
    }
}

} // verus!

use vstd::prelude::*;

use crate::value::nul_free;

verus! {

/// A Boolean node.
#[derive(Debug)]
pub struct Boolean {
    value: bool,
}

impl Boolean {
    pub closed spec fn view(&self) -> bool {
        self.value
    }

    /// Returns a copy of the node.
    pub fn clone(&self) -> (r: Boolean)
        ensures
            r@ == self@,
    {
        Boolean { value: self.value }
    }

    /// Creates a Boolean node holding `value`.
    pub fn new(value: bool) -> (r: Boolean)
        ensures
            r@ == value,
    {
        Boolean { value }
    }

    /// Returns the value of the node.
    pub fn as_bool(&self) -> (r: bool)
        ensures
            r == self@,
    {
        self.value
    }

    /// Sets the value of the node.
    pub fn set(&mut self, value: bool)
        ensures
            final(self)@ == value,
    {
        self.value = value;
    }
}

/// A node holding a buffer of bytes.
#[derive(Debug)]
pub struct Data {
    bytes: Vec<u8>,
}

/// Copies a byte slice into a fresh vector.
fn copy_bytes(data: &[u8]) -> (r: Vec<u8>)
    ensures
        r@ == data@,
{
    let mut r: Vec<u8> = Vec::new();
    let mut i: usize = 0;
    while i < data.len()
        invariant
            i <= data@.len(),
            r@ == data@.subrange(0, i as int),
        decreases data@.len() - i,
    {
        r.push(data[i]);
        i = i + 1;
    }
    assert(r@ =~= data@);
    r
}

impl Data {
    pub closed spec fn view(&self) -> Seq<u8> {
        self.bytes@
    }

    /// Returns a copy of the node.
    pub fn clone(&self) -> (r: Data)
        ensures
            r@ == self@,
    {
        Data { bytes: copy_bytes(self.bytes.as_slice()) }
    }

    /// Creates a Data node holding a copy of `data`.
    pub fn new(data: &[u8]) -> (r: Data)
        ensures
            r@ == data@,
    {
        Data { bytes: copy_bytes(data) }
    }

    /// Returns the bytes held by the node.
    pub fn as_bytes(&self) -> (r: &[u8])
        ensures
            r@ == self@,
    {
        self.bytes.as_slice()
    }

    /// Returns a copy of the bytes held by the node.
    pub fn to_vec(&self) -> (r: Vec<u8>)
        ensures
            r@ == self@,
    {
        copy_bytes(self.bytes.as_slice())
    }

    /// Returns the number of bytes held by the node.
    pub fn len(&self) -> (r: u64)
        ensures
            r == self@.len(),
    {
        self.bytes.len() as u64
    }

    /// Returns `true` if the node holds no bytes.
    pub fn is_empty(&self) -> (r: bool)
        ensures
            r == (self@.len() == 0),
    {
        self.bytes.len() == 0
    }

    /// Replaces the bytes held by the node with a copy of `bytes`.
    pub fn set(&mut self, bytes: &[u8])
        ensures
            final(self)@ == bytes@,
    {
        self.bytes = copy_bytes(bytes);
    }
}

/// An integer node. It holds 64 bits, read either as a `u64` or as an `i64`
/// (two's complement), so `-1` and `u64::MAX` are the same integer.
#[derive(Debug)]
pub struct Integer {
    value: u64,
}

impl Integer {
    pub closed spec fn view(&self) -> u64 {
        self.value
    }

    /// Returns a copy of the node.
    pub fn clone(&self) -> (r: Integer)
        ensures
            r@ == self@,
    {
        Integer { value: self.value }
    }

    /// Creates an integer node from a `u64`.
    pub fn new_unsigned(value: u64) -> (r: Integer)
        ensures
            r@ == value,
    {
        Integer { value }
    }

    /// Creates an integer node from an `i64`.
    pub fn new_signed(value: i64) -> (r: Integer)
        ensures
            r@ == value as u64,
    {
        Integer { value: value as u64 }
    }

    /// Returns the value of the integer as a `u64`.
    pub fn as_unsinged(&self) -> (r: u64)
        ensures
            r == self@,
    {
        self.value
    }

    /// Returns the value of the integer as an `i64`.
    pub fn as_singed(&self) -> (r: i64)
        ensures
            r == self@ as i64,
    {
        self.value as i64
    }

    /// Sets the integer from a `u64`.
    pub fn set_unsigned(&mut self, value: u64)
        ensures
            final(self)@ == value,
    {
        self.value = value;
    }

    /// Sets the integer from an `i64`.
    pub fn set_signed(&mut self, value: i64)
        ensures
            final(self)@ == value as u64,
    {
        self.value = value as u64;
    }
}

/// The key of a dictionary entry, as handed out by a mutable dictionary
/// iterator. It cannot be created directly.
#[derive(Debug)]
pub struct Key {
    key: String,
}

impl Key {
    pub closed spec fn view(&self) -> Seq<char> {
        self.key@
    }

    /// Returns a copy of the node.
    pub fn clone(&self) -> (r: Key)
        ensures
            r@ == self@,
    {
        Key { key: self.key.clone() }
    }

    pub(crate) fn from_string(key: String) -> (r: Key)
        ensures
            r@ == key@,
    {
        Key { key }
    }

    /// Returns the key string.
    pub fn get(&self) -> (r: String)
        ensures
            r@ == self@,
    {
        self.key.clone()
    }
}

/// A null node.
#[derive(Debug)]
pub struct Null {}

impl Null {
    /// Creates a null node.
    pub fn new() -> (r: Null) {
        Null {  }
    }

    /// Returns a copy of the node.
    pub fn clone(&self) -> (r: Null) {
        Null {  }
    }
}

/// A real-number node. It holds the IEEE 754 bit pattern of an `f64`.
#[derive(Debug)]
pub struct Real {
    bits: u64,
}

impl Real {
    pub closed spec fn view(&self) -> u64 {
        self.bits
    }

    /// Returns a copy of the node.
    pub fn clone(&self) -> (r: Real)
        ensures
            r@ == self@,
    {
        Real { bits: self.bits }
    }

    /// Creates a real node from the bit pattern of an `f64`.
    pub fn from_bits(bits: u64) -> (r: Real)
        ensures
            r@ == bits,
    {
        Real { bits }
    }

    /// Returns the bit pattern of the number.
    pub fn to_bits(&self) -> (r: u64)
        ensures
            r == self@,
    {
        self.bits
    }

    /// Sets the number from the bit pattern of an `f64`.
    pub fn set_bits(&mut self, bits: u64)
        ensures
            final(self)@ == bits,
    {
        self.bits = bits;
    }
}

/// A string node. Its text holds no NUL character.
#[derive(Debug)]
pub struct PString {
    string: String,
}

impl PString {
    pub closed spec fn view(&self) -> Seq<char> {
        self.string@
    }

    /// Returns a copy of the node.
    pub fn clone(&self) -> (r: PString)
        ensures
            r@ == self@,
    {
        PString { string: self.string.clone() }
    }

    /// Creates a string node holding a copy of `string`.
    pub fn new(string: &str) -> (r: PString)
        requires
            nul_free(string@),
        ensures
            r@ == string@,
    {
        PString { string: string.to_owned() }
    }

    /// Returns the text of the node.
    pub fn as_str(&self) -> (r: &str)
        ensures
            r@ == self@,
    {
        self.string.as_str()
    }

    /// Replaces the text of the node with a copy of `string`.
    pub fn set(&mut self, string: &str)
        requires
            nul_free(string@),
        ensures
            final(self)@ == string@,
    {
        self.string = string.to_owned();
    }
}

/// An archiver's object reference ("uid") node.
#[derive(Debug)]
pub struct Uid {
    value: u64,
}

impl Uid {
    pub closed spec fn view(&self) -> u64 {
        self.value
    }

    /// Returns a copy of the node.
    pub fn clone(&self) -> (r: Uid)
        ensures
            r@ == self@,
    {
        Uid { value: self.value }
    }

    /// Creates a uid node.
    pub fn new(uid: u64) -> (r: Uid)
        ensures
            r@ == uid,
    {
        Uid { value: uid }
    }

    /// Returns the uid.
    pub fn get(&self) -> (r: u64)
        ensures
            r == self@,
    {
        self.value
    }

    /// Sets the uid.
    pub fn set(&mut self, uid: u64)
        ensures
            final(self)@ == uid,
    {
        self.value = uid;
    }
}

impl Default for Boolean {
    fn default() -> (r: Boolean)
        ensures
            r@ == false,
    {
        Boolean::new(false)
    }
}

impl Default for Data {
    fn default() -> (r: Data)
        ensures
            r@ == Seq::<u8>::empty(),
    {
        let r = Data { bytes: Vec::new() };
        assert(r@ =~= Seq::<u8>::empty());
        r
    }
}

impl Default for Integer {
    fn default() -> (r: Integer)
        ensures
            r@ == 0,
    {
        Integer::new_unsigned(0)
    }
}

impl Default for Null {
    fn default() -> (r: Null) {
        Null::new()
    }
}

impl Default for Real {
    /// Positive zero.
    fn default() -> (r: Real)
        ensures
            r@ == 0,
    {
        Real::from_bits(0)
    }
}

impl Default for PString {
    fn default() -> (r: PString)
        ensures
            r@ == Seq::<char>::empty(),
    {
        PString { string: String::new() }
    }
}

impl Default for Uid {
    fn default() -> (r: Uid)
        ensures
            r@ == 0,
    {
        Uid::new(0)
    }
}
} // verus!

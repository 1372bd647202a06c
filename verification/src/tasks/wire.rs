//! The plain objects in which messages travel between workers.
//!
//! A message is sent as a JavaScript object: a `type` and further named fields.
//! [`WireObject`] holds the fields as plain values. What cannot leave its
//! realm, such as a boxed task, travels as an address; what the host transfers
//! itself, such as a module, is held by handle.
use vstd::prelude::*;
use crate::tasks::module_hash::HashError;
use crate::text;

verus! {

/// The value of a field.
#[derive(Debug)]
pub enum WireValue {
    /// A number with an unsigned integer value.
    Number(u64),
    /// A big integer.
    BigInt(u64),
    Bool(bool),
    Text(String),
    Bytes(Vec<u8>),
    /// A compiled module, by handle.
    Module(u64),
    /// A linear memory, by handle.
    Memory(u64),
    /// Any other value; `undefined` among them.
    Other,
}

/// What a [`WireValue`] says.
pub enum WireView {
    Number(u64),
    BigInt(u64),
    Bool(bool),
    Text(Seq<char>),
    Bytes(Seq<u8>),
    Module(u64),
    Memory(u64),
    Other,
}

impl View for WireValue {
    type V = WireView;

    open spec fn view(&self) -> WireView {
        match *self {
            WireValue::Number(n) => WireView::Number(n),
            WireValue::BigInt(n) => WireView::BigInt(n),
            WireValue::Bool(b) => WireView::Bool(b),
            WireValue::Text(text) => WireView::Text(text@),
            WireValue::Bytes(bytes) => WireView::Bytes(bytes@),
            WireValue::Module(handle) => WireView::Module(handle),
            WireValue::Memory(handle) => WireView::Memory(handle),
            WireValue::Other => WireView::Other,
        }
    }
}

/// The fields of an object, by name.
pub type Fields = Map<Seq<char>, WireView>;

/// Why an object is not a message.
#[derive(Debug)]
pub enum WireError {
    /// The named field is missing or is not what it should be.
    Field(String),
    /// The type is none of those known. Holds the error's text.
    UnknownType(String),
    /// A module's hash cannot be read.
    Hash(HashError),
}

/// What a [`WireError`] says.
pub enum WireFault {
    Field(Seq<char>),
    UnknownType(Seq<char>),
    Hash(HashError),
}

impl View for WireError {
    type V = WireFault;

    open spec fn view(&self) -> WireFault {
        match *self {
            WireError::Field(name) => WireFault::Field(name@),
            WireError::UnknownType(text) => WireFault::UnknownType(text@),
            WireError::Hash(e) => WireFault::Hash(e),
        }
    }
}

/// Whether a result is what a specification says.
pub open spec fn agrees<T>(r: Result<T, WireError>, expected: Result<T, WireFault>) -> bool {
    match (r, expected) {
        (Ok(x), Ok(y)) => x == y,
        (Err(e), Err(f)) => e@ == f,
        _ => false,
    }
}

/// The fields that a list of assignments leaves behind: the last assignment to
/// a name counts.
pub open spec fn assigned(fields: Seq<(String, WireValue)>) -> Fields
    decreases fields.len(),
{
    if fields.len() == 0 {
        Map::empty()
    } else {
        assigned(fields.drop_last()).insert(fields.last().0@, fields.last().1@)
    }
}

/// An object with named fields.
#[derive(Debug)]
pub struct WireObject {
    pub fields: Vec<(String, WireValue)>,
}

impl View for WireObject {
    type V = Fields;

    open spec fn view(&self) -> Fields {
        assigned(self.fields@)
    }
}

/// The unsigned 32-bit number in a field.
pub open spec fn u32_field(fields: Fields, name: Seq<char>) -> Result<u32, WireFault> {
    if fields.contains_key(name) {
        match fields[name] {
            WireView::Number(n) => if n <= u32::MAX {
                Ok(n as u32)
            } else {
                Err(WireFault::Field(name))
            },
            _ => Err(WireFault::Field(name)),
        }
    } else {
        Err(WireFault::Field(name))
    }
}

/// The unsigned 64-bit number in a field.
pub open spec fn u64_field(fields: Fields, name: Seq<char>) -> Result<u64, WireFault> {
    if fields.contains_key(name) {
        match fields[name] {
            WireView::Number(n) => Ok(n),
            WireView::BigInt(n) => Ok(n),
            _ => Err(WireFault::Field(name)),
        }
    } else {
        Err(WireFault::Field(name))
    }
}

/// The truth value in a field.
pub open spec fn bool_field(fields: Fields, name: Seq<char>) -> Result<bool, WireFault> {
    if fields.contains_key(name) {
        match fields[name] {
            WireView::Bool(b) => Ok(b),
            _ => Err(WireFault::Field(name)),
        }
    } else {
        Err(WireFault::Field(name))
    }
}

/// The address of the boxed value in a field.
pub open spec fn boxed_field(fields: Fields, name: Seq<char>) -> Result<u64, WireFault> {
    if fields.contains_key(name) {
        match fields[name] {
            WireView::BigInt(n) => Ok(n),
            _ => Err(WireFault::Field(name)),
        }
    } else {
        Err(WireFault::Field(name))
    }
}

/// The module in a field.
pub open spec fn module_field(fields: Fields, name: Seq<char>) -> Result<u64, WireFault> {
    if fields.contains_key(name) {
        match fields[name] {
            WireView::Module(handle) => Ok(handle),
            _ => Err(WireFault::Field(name)),
        }
    } else {
        Err(WireFault::Field(name))
    }
}

/// The memory in a field.
pub open spec fn memory_field(fields: Fields, name: Seq<char>) -> Result<u64, WireFault> {
    if fields.contains_key(name) {
        match fields[name] {
            WireView::Memory(handle) => Ok(handle),
            _ => Err(WireFault::Field(name)),
        }
    } else {
        Err(WireFault::Field(name))
    }
}

/// The text in a field.
pub open spec fn text_field(fields: Fields, name: Seq<char>) -> Result<Seq<char>, WireFault> {
    if fields.contains_key(name) {
        match fields[name] {
            WireView::Text(text) => Ok(text),
            _ => Err(WireFault::Field(name)),
        }
    } else {
        Err(WireFault::Field(name))
    }
}

/// The bytes in a field.
pub open spec fn bytes_field(fields: Fields, name: Seq<char>) -> Result<Seq<u8>, WireFault> {
    if fields.contains_key(name) {
        match fields[name] {
            WireView::Bytes(bytes) => Ok(bytes),
            _ => Err(WireFault::Field(name)),
        }
    } else {
        Err(WireFault::Field(name))
    }
}

/// The fields of an object that has a type and nothing else.
pub open spec fn typed(ty: Seq<char>) -> Fields {
    Map::empty().insert("type"@, WireView::Text(ty))
}

impl WireObject {
    /// An object of a type, without further fields.
    pub fn new(ty: &str) -> (r: WireObject)
        ensures
            r@ == typed(ty@),
    {
        let mut fields: Vec<(String, WireValue)> = Vec::new();
        fields.push(("type".to_owned(), WireValue::Text(ty.to_owned())));
        proof {
            reveal_with_fuel(assigned, 2);
            assert(fields@.drop_last() =~= Seq::empty());
        }
        WireObject { fields }
    }

    /// An object without fields.
    pub fn empty() -> (r: WireObject)
        ensures
            r@ == Map::<Seq<char>, WireView>::empty(),
    {
        WireObject { fields: Vec::new() }
    }

    /// Sets a field.
    pub fn set(&mut self, name: &str, value: WireValue)
        ensures
            final(self)@ == old(self)@.insert(name@, value@),
    {
        self.fields.push((name.to_owned(), value));
        assert(self.fields@.drop_last() =~= old(self).fields@);
    }

    /// Finds a field.
    pub fn get(&self, name: &str) -> (r: Option<&WireValue>)
        ensures
            match r {
                Some(value) => self@.contains_key(name@) && self@[name@] == value@,
                None => !self@.contains_key(name@),
            },
    {
        let mut i: usize = self.fields.len();
        assert(self.fields@.take(i as int) =~= self.fields@);
        while i > 0
            invariant
                i <= self.fields@.len(),
                self@.contains_key(name@) == assigned(self.fields@.take(i as int)).contains_key(
                    name@,
                ),
                self@.contains_key(name@) ==> self@[name@] == assigned(
                    self.fields@.take(i as int),
                )[name@],
            decreases i,
        {
            let ghost seen = self.fields@.take(i as int);
            i = i - 1;
            assert(seen.drop_last() =~= self.fields@.take(i as int));
            assert(seen.last() == self.fields@[i as int]);
            if text::same_text(self.fields[i].0.as_str(), name) {
                return Some(&self.fields[i].1);
            }
        }
        None
    }

    /// Reads an unsigned 32-bit number.
    pub fn read_u32(&self, name: &str) -> (r: Result<u32, WireError>)
        ensures
            agrees(r, u32_field(self@, name@)),
    {
        match self.get(name) {
            Some(WireValue::Number(n)) => if *n <= u32::MAX as u64 {
                Ok(*n as u32)
            } else {
                Err(WireError::Field(name.to_owned()))
            },
            _ => Err(WireError::Field(name.to_owned())),
        }
    }

    /// Reads an unsigned 64-bit number.
    pub fn read_u64(&self, name: &str) -> (r: Result<u64, WireError>)
        ensures
            agrees(r, u64_field(self@, name@)),
    {
        match self.get(name) {
            Some(WireValue::Number(n)) => Ok(*n),
            Some(WireValue::BigInt(n)) => Ok(*n),
            _ => Err(WireError::Field(name.to_owned())),
        }
    }

    /// Reads a truth value.
    pub fn read_bool(&self, name: &str) -> (r: Result<bool, WireError>)
        ensures
            agrees(r, bool_field(self@, name@)),
    {
        match self.get(name) {
            Some(WireValue::Bool(b)) => Ok(*b),
            _ => Err(WireError::Field(name.to_owned())),
        }
    }

    /// Reads the address of a boxed value.
    pub fn read_boxed(&self, name: &str) -> (r: Result<u64, WireError>)
        ensures
            agrees(r, boxed_field(self@, name@)),
    {
        match self.get(name) {
            Some(WireValue::BigInt(n)) => Ok(*n),
            _ => Err(WireError::Field(name.to_owned())),
        }
    }

    /// Reads a module.
    pub fn read_module(&self, name: &str) -> (r: Result<u64, WireError>)
        ensures
            agrees(r, module_field(self@, name@)),
    {
        match self.get(name) {
            Some(WireValue::Module(handle)) => Ok(*handle),
            _ => Err(WireError::Field(name.to_owned())),
        }
    }

    /// Reads a memory.
    pub fn read_memory(&self, name: &str) -> (r: Result<u64, WireError>)
        ensures
            agrees(r, memory_field(self@, name@)),
    {
        match self.get(name) {
            Some(WireValue::Memory(handle)) => Ok(*handle),
            _ => Err(WireError::Field(name.to_owned())),
        }
    }

    /// Reads text.
    pub fn read_text(&self, name: &str) -> (r: Result<String, WireError>)
        ensures
            match (r, text_field(self@, name@)) {
                (Ok(text), Ok(t)) => text@ == t,
                (Err(e), Err(f)) => e@ == f,
                _ => false,
            },
    {
        match self.get(name) {
            Some(WireValue::Text(text)) => Ok(text.clone()),
            _ => Err(WireError::Field(name.to_owned())),
        }
    }

    /// Reads bytes.
    pub fn read_bytes(&self, name: &str) -> (r: Result<Vec<u8>, WireError>)
        ensures
            match (r, bytes_field(self@, name@)) {
                (Ok(bytes), Ok(b)) => bytes@ == b,
                (Err(e), Err(f)) => e@ == f,
                _ => false,
            },
    {
        match self.get(name) {
            Some(WireValue::Bytes(bytes)) => Ok(vstd::slice::slice_to_vec(bytes.as_slice())),
            _ => Err(WireError::Field(name.to_owned())),
        }
    }
}

} // verus!

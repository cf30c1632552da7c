//! Typed values: the tagged union carried by parameters, columns and schema fields.

use vstd::prelude::*;

verus! {

/// The tag of a [`Value`]. It is fixed when the value is built.
#[derive(Clone, Copy, Debug, PartialEq, Eq, Structural)]
pub enum ValueType {
    Null,
    Boolean,
    TinyInt,
    SmallInt,
    Int,
    BigInt,
    Float,
    Double,
    Text,
    Blob,
    Uuid,
    List,
    SetOf,
    MapOf,
    Udt,
    Tuple,
}

/// Why a column could not be read.
#[derive(Clone, Copy, Debug, PartialEq, Eq, Structural)]
pub enum ResultError {
    /// The requested column position is not below the row's arity.
    ColumnIndexOutOfRange,
    /// The value's tag is not the requested type.
    ValueTypeMismatch,
}

/// A data item of any supported type.
///
/// `Float` and `Double` hold the IEEE 754 bit pattern of the number, and
/// `Uuid` holds the 128 bits of the identifier.
#[derive(Debug, PartialEq)]
pub enum Value {
    Null,
    Boolean(bool),
    TinyInt(i8),
    SmallInt(i16),
    Int(i32),
    BigInt(i64),
    Float(u32),
    Double(u64),
    Text(String),
    Blob(Vec<u8>),
    Uuid(u128),
    List(Vec<Value>),
    SetOf(Vec<Value>),
    MapOf(Vec<(Value, Value)>),
    Udt(Vec<(String, Value)>),
    Tuple(Vec<Value>),
}

/// What a [`Value`] holds, as mathematical data: sequences in place of vectors
/// and strings.
pub enum Content {
    Null,
    Boolean(bool),
    TinyInt(i8),
    SmallInt(i16),
    Int(i32),
    BigInt(i64),
    Float(u32),
    Double(u64),
    Text(Seq<char>),
    Blob(Seq<u8>),
    Uuid(u128),
    List(Seq<Content>),
    SetOf(Seq<Content>),
    MapOf(Seq<(Content, Content)>),
    Udt(Seq<(Seq<char>, Content)>),
    Tuple(Seq<Content>),
}

/// What each of `items` holds, in the same order.
pub open spec fn contents(items: Seq<Value>) -> Seq<Content>
    decreases items,
{
    Seq::new(
        items.len(),
        |i: int|
            if 0 <= i < items.len() {
                items[i].content()
            } else {
                Content::Null
            },
    )
}

/// What each entry of a map holds, in the same order.
pub open spec fn entry_contents(entries: Seq<(Value, Value)>) -> Seq<(Content, Content)>
    decreases entries,
{
    Seq::new(
        entries.len(),
        |i: int|
            if 0 <= i < entries.len() {
                (entries[i].0.content(), entries[i].1.content())
            } else {
                (Content::Null, Content::Null)
            },
    )
}

/// What each member of a user-defined type holds, in the same order.
pub open spec fn member_contents(members: Seq<(String, Value)>) -> Seq<(Seq<char>, Content)>
    decreases members,
{
    Seq::new(
        members.len(),
        |i: int|
            if 0 <= i < members.len() {
                (members[i].0@, members[i].1.content())
            } else {
                (Seq::empty(), Content::Null)
            },
    )
}

impl Value {
    /// What the value holds.
    pub open spec fn content(&self) -> Content
        decreases *self,
    {
        match *self {
            Value::Null => Content::Null,
            Value::Boolean(b) => Content::Boolean(b),
            Value::TinyInt(n) => Content::TinyInt(n),
            Value::SmallInt(n) => Content::SmallInt(n),
            Value::Int(n) => Content::Int(n),
            Value::BigInt(n) => Content::BigInt(n),
            Value::Float(n) => Content::Float(n),
            Value::Double(n) => Content::Double(n),
            Value::Text(s) => Content::Text(s@),
            Value::Blob(b) => Content::Blob(b@),
            Value::Uuid(n) => Content::Uuid(n),
            Value::List(v) => Content::List(contents(v@)),
            Value::SetOf(v) => Content::SetOf(contents(v@)),
            Value::MapOf(v) => Content::MapOf(entry_contents(v@)),
            Value::Udt(v) => Content::Udt(member_contents(v@)),
            Value::Tuple(v) => Content::Tuple(contents(v@)),
        }
    }

    /// The tag that belongs to each variant.
    pub open spec fn spec_tag(&self) -> ValueType {
        match self {
            Value::Null => ValueType::Null,
            Value::Boolean(_) => ValueType::Boolean,
            Value::TinyInt(_) => ValueType::TinyInt,
            Value::SmallInt(_) => ValueType::SmallInt,
            Value::Int(_) => ValueType::Int,
            Value::BigInt(_) => ValueType::BigInt,
            Value::Float(_) => ValueType::Float,
            Value::Double(_) => ValueType::Double,
            Value::Text(_) => ValueType::Text,
            Value::Blob(_) => ValueType::Blob,
            Value::Uuid(_) => ValueType::Uuid,
            Value::List(_) => ValueType::List,
            Value::SetOf(_) => ValueType::SetOf,
            Value::MapOf(_) => ValueType::MapOf,
            Value::Udt(_) => ValueType::Udt,
            Value::Tuple(_) => ValueType::Tuple,
        }
    }

    /// The value's tag.
    pub fn tag(&self) -> (t: ValueType)
        ensures
            t == self.spec_tag(),
    {
        match self {
            Value::Null => ValueType::Null,
            Value::Boolean(_) => ValueType::Boolean,
            Value::TinyInt(_) => ValueType::TinyInt,
            Value::SmallInt(_) => ValueType::SmallInt,
            Value::Int(_) => ValueType::Int,
            Value::BigInt(_) => ValueType::BigInt,
            Value::Float(_) => ValueType::Float,
            Value::Double(_) => ValueType::Double,
            Value::Text(_) => ValueType::Text,
            Value::Blob(_) => ValueType::Blob,
            Value::Uuid(_) => ValueType::Uuid,
            Value::List(_) => ValueType::List,
            Value::SetOf(_) => ValueType::SetOf,
            Value::MapOf(_) => ValueType::MapOf,
            Value::Udt(_) => ValueType::Udt,
            Value::Tuple(_) => ValueType::Tuple,
        }
    }

    /// Whether the value is the null value.
    pub fn is_null(&self) -> (b: bool)
        ensures
            b == (self.spec_tag() == ValueType::Null),
    {
        match self {
            Value::Null => true,
            _ => false,
        }
    }

    /// Reads a boolean. Any other tag is a mismatch, and the value stays as it is.
    pub fn get_bool(&self) -> (r: Result<bool, ResultError>)
        ensures
            r == (match *self {
                Value::Boolean(b) => Ok::<bool, ResultError>(b),
                _ => Err(ResultError::ValueTypeMismatch),
            }),
    {
        match self {
            Value::Boolean(b) => Ok(*b),
            _ => Err(ResultError::ValueTypeMismatch),
        }
    }

    /// Reads an 8-bit integer.
    pub fn get_i8(&self) -> (r: Result<i8, ResultError>)
        ensures
            r == (match *self {
                Value::TinyInt(n) => Ok::<i8, ResultError>(n),
                _ => Err(ResultError::ValueTypeMismatch),
            }),
    {
        match self {
            Value::TinyInt(n) => Ok(*n),
            _ => Err(ResultError::ValueTypeMismatch),
        }
    }

    /// Reads a 16-bit integer.
    pub fn get_i16(&self) -> (r: Result<i16, ResultError>)
        ensures
            r == (match *self {
                Value::SmallInt(n) => Ok::<i16, ResultError>(n),
                _ => Err(ResultError::ValueTypeMismatch),
            }),
    {
        match self {
            Value::SmallInt(n) => Ok(*n),
            _ => Err(ResultError::ValueTypeMismatch),
        }
    }

    /// Reads a 32-bit integer.
    pub fn get_i32(&self) -> (r: Result<i32, ResultError>)
        ensures
            r == (match *self {
                Value::Int(n) => Ok::<i32, ResultError>(n),
                _ => Err(ResultError::ValueTypeMismatch),
            }),
    {
        match self {
            Value::Int(n) => Ok(*n),
            _ => Err(ResultError::ValueTypeMismatch),
        }
    }

    /// Reads a 64-bit integer.
    pub fn get_i64(&self) -> (r: Result<i64, ResultError>)
        ensures
            r == (match *self {
                Value::BigInt(n) => Ok::<i64, ResultError>(n),
                _ => Err(ResultError::ValueTypeMismatch),
            }),
    {
        match self {
            Value::BigInt(n) => Ok(*n),
            _ => Err(ResultError::ValueTypeMismatch),
        }
    }

    /// Reads the bit pattern of a single-precision number.
    pub fn get_float_bits(&self) -> (r: Result<u32, ResultError>)
        ensures
            r == (match *self {
                Value::Float(n) => Ok::<u32, ResultError>(n),
                _ => Err(ResultError::ValueTypeMismatch),
            }),
    {
        match self {
            Value::Float(n) => Ok(*n),
            _ => Err(ResultError::ValueTypeMismatch),
        }
    }

    /// Reads the bit pattern of a double-precision number.
    pub fn get_double_bits(&self) -> (r: Result<u64, ResultError>)
        ensures
            r == (match *self {
                Value::Double(n) => Ok::<u64, ResultError>(n),
                _ => Err(ResultError::ValueTypeMismatch),
            }),
    {
        match self {
            Value::Double(n) => Ok(*n),
            _ => Err(ResultError::ValueTypeMismatch),
        }
    }

    /// Reads a unique identifier.
    pub fn get_uuid(&self) -> (r: Result<u128, ResultError>)
        ensures
            r == (match *self {
                Value::Uuid(n) => Ok::<u128, ResultError>(n),
                _ => Err(ResultError::ValueTypeMismatch),
            }),
    {
        match self {
            Value::Uuid(n) => Ok(*n),
            _ => Err(ResultError::ValueTypeMismatch),
        }
    }

    /// Lends the text of a text value.
    pub fn get_text(&self) -> (r: Result<&String, ResultError>)
        ensures
            r == (match *self {
                Value::Text(s) => Ok::<&String, ResultError>(&s),
                _ => Err(ResultError::ValueTypeMismatch),
            }),
    {
        match self {
            Value::Text(s) => Ok(s),
            _ => Err(ResultError::ValueTypeMismatch),
        }
    }

    /// Lends the bytes of a blob.
    pub fn get_blob(&self) -> (r: Result<&Vec<u8>, ResultError>)
        ensures
            r == (match *self {
                Value::Blob(b) => Ok::<&Vec<u8>, ResultError>(&b),
                _ => Err(ResultError::ValueTypeMismatch),
            }),
    {
        match self {
            Value::Blob(b) => Ok(b),
            _ => Err(ResultError::ValueTypeMismatch),
        }
    }

    /// Lends the items of a list, a set or a tuple, in their stored order.
    pub fn get_items(&self) -> (r: Result<&Vec<Value>, ResultError>)
        ensures
            r == (match *self {
                Value::List(v) => Ok::<&Vec<Value>, ResultError>(&v),
                Value::SetOf(v) => Ok(&v),
                Value::Tuple(v) => Ok(&v),
                _ => Err(ResultError::ValueTypeMismatch),
            }),
    {
        match self {
            Value::List(v) => Ok(v),
            Value::SetOf(v) => Ok(v),
            Value::Tuple(v) => Ok(v),
            _ => Err(ResultError::ValueTypeMismatch),
        }
    }

    /// Lends the key and value pairs of a map, in their stored order.
    pub fn get_entries(&self) -> (r: Result<&Vec<(Value, Value)>, ResultError>)
        ensures
            r == (match *self {
                Value::MapOf(v) => Ok::<&Vec<(Value, Value)>, ResultError>(&v),
                _ => Err(ResultError::ValueTypeMismatch),
            }),
    {
        match self {
            Value::MapOf(v) => Ok(v),
            _ => Err(ResultError::ValueTypeMismatch),
        }
    }

    /// Lends the named members of a user-defined type, in declaration order.
    pub fn get_members(&self) -> (r: Result<&Vec<(String, Value)>, ResultError>)
        ensures
            r == (match *self {
                Value::Udt(v) => Ok::<&Vec<(String, Value)>, ResultError>(&v),
                _ => Err(ResultError::ValueTypeMismatch),
            }),
    {
        match self {
            Value::Udt(v) => Ok(v),
            _ => Err(ResultError::ValueTypeMismatch),
        }
    }

    /// A deep copy of the value: it holds the same, under the same tag.
    pub fn duplicate(&self) -> (r: Value)
        ensures
            r.content() == self.content(),
            r.spec_tag() == self.spec_tag(),
        decreases *self,
    {
        match self {
            Value::Null => Value::Null,
            Value::Boolean(b) => Value::Boolean(*b),
            Value::TinyInt(n) => Value::TinyInt(*n),
            Value::SmallInt(n) => Value::SmallInt(*n),
            Value::Int(n) => Value::Int(*n),
            Value::BigInt(n) => Value::BigInt(*n),
            Value::Float(n) => Value::Float(*n),
            Value::Double(n) => Value::Double(*n),
            Value::Text(s) => Value::Text(s.clone()),
            Value::Blob(b) => Value::Blob(duplicate_bytes(b)),
            Value::Uuid(n) => Value::Uuid(*n),
            Value::List(v) => Value::List(duplicate_items(v)),
            Value::SetOf(v) => Value::SetOf(duplicate_items(v)),
            Value::MapOf(v) => Value::MapOf(duplicate_entries(v)),
            Value::Udt(v) => Value::Udt(duplicate_members(v)),
            Value::Tuple(v) => Value::Tuple(duplicate_items(v)),
        }
    }
}

/// Two values that hold the same have the same tag.
pub proof fn lemma_content_fixes_tag(a: Value, b: Value)
    requires
        a.content() == b.content(),
    ensures
        a.spec_tag() == b.spec_tag(),
{
}

/// A copy of `bytes`.
pub fn duplicate_bytes(bytes: &Vec<u8>) -> (r: Vec<u8>)
    ensures
        r@ == bytes@,
{
    let mut out: Vec<u8> = Vec::new();
    let mut i: usize = 0;
    while i < bytes.len()
        invariant
            i <= bytes@.len(),
            out@ == bytes@.subrange(0, i as int),
        decreases bytes.len() - i,
    {
        out.push(bytes[i]);
        proof {
            assert(out@ =~= bytes@.subrange(0, i + 1));
        }
        i += 1;
    }
    proof {
        assert(out@ =~= bytes@);
    }
    out
}

/// A deep copy of `items`, in the same order.
pub fn duplicate_items(items: &Vec<Value>) -> (r: Vec<Value>)
    ensures
        contents(r@) == contents(items@),
    decreases *items,
{
    let mut out: Vec<Value> = Vec::new();
    let mut i: usize = 0;
    while i < items.len()
        invariant
            i <= items@.len(),
            out@.len() == i,
            forall|k: int| 0 <= k < i ==> (#[trigger] out@[k]).content() == items@[k].content(),
        decreases items.len() - i,
    {
        out.push(items[i].duplicate());
        i += 1;
    }
    proof {
        assert(contents(out@) =~= contents(items@));
    }
    out
}

/// A deep copy of the entries of a map, in the same order.
pub fn duplicate_entries(entries: &Vec<(Value, Value)>) -> (r: Vec<(Value, Value)>)
    ensures
        entry_contents(r@) == entry_contents(entries@),
    decreases *entries,
{
    let mut out: Vec<(Value, Value)> = Vec::new();
    let mut i: usize = 0;
    while i < entries.len()
        invariant
            i <= entries@.len(),
            out@.len() == i,
            forall|k: int|
                0 <= k < i ==> (#[trigger] out@[k]).0.content() == entries@[k].0.content()
                    && out@[k].1.content() == entries@[k].1.content(),
        decreases entries.len() - i,
    {
        let key = entries[i].0.duplicate();
        let value = entries[i].1.duplicate();
        out.push((key, value));
        i += 1;
    }
    proof {
        assert(entry_contents(out@) =~= entry_contents(entries@));
    }
    out
}

/// A deep copy of the members of a user-defined type, in the same order.
pub fn duplicate_members(members: &Vec<(String, Value)>) -> (r: Vec<(String, Value)>)
    ensures
        member_contents(r@) == member_contents(members@),
    decreases *members,
{
    let mut out: Vec<(String, Value)> = Vec::new();
    let mut i: usize = 0;
    while i < members.len()
        invariant
            i <= members@.len(),
            out@.len() == i,
            forall|k: int|
                0 <= k < i ==> (#[trigger] out@[k]).0@ == members@[k].0@ && out@[k].1.content()
                    == members@[k].1.content(),
        decreases members.len() - i,
    {
        let name = members[i].0.clone();
        let value = members[i].1.duplicate();
        out.push((name, value));
        i += 1;
    }
    proof {
        assert(member_contents(out@) =~= member_contents(members@));
    }
    out
}

} // verus!

//! Statements: a query text and one slot for each of its `?` placeholders.

use vstd::prelude::*;
use crate::value::Content;
use crate::value::Value;
use crate::value::ValueType;

verus! {

/// Why a value could not be bound.
#[derive(Clone, Copy, Debug, PartialEq, Eq, Structural)]
pub enum BindError {
    /// The value's tag does not fit the type declared for the position.
    TypeMismatch,
    /// The statement has no such position.
    IndexOutOfRange,
}

/// One parameter position of a statement.
#[derive(Debug, PartialEq)]
pub struct Slot {
    /// The name of the position, where it has one.
    pub name: Option<String>,
    /// The type of the position, where it is known.
    pub declared: Option<ValueType>,
    /// The value bound to the position, once one is.
    pub value: Option<Value>,
}

/// The number of `?` placeholders in a query text.
pub open spec fn count_placeholders(text: Seq<char>) -> nat
    decreases text.len(),
{
    if text.len() == 0 {
        0
    } else {
        count_placeholders(text.drop_last()) + if text.last() == '?' {
            1nat
        } else {
            0nat
        }
    }
}

/// A value with tag `tag` may be bound where `declared` is the position's type:
/// an unknown type takes anything, and null fits every type.
pub open spec fn compatible(declared: Option<ValueType>, tag: ValueType) -> bool {
    declared is None || tag == ValueType::Null || declared == Some(tag)
}

/// Some position of `slots` is called `name`.
pub open spec fn has_name(slots: Seq<Slot>, name: Seq<char>) -> bool {
    exists|i: int| 0 <= i < slots.len() && is_named(#[trigger] slots[i], name)
}

/// The position is called `name`.
pub open spec fn is_named(slot: Slot, name: Seq<char>) -> bool {
    slot.name is Some && slot.name->0@ == name
}

/// `i` is the first position of `slots` called `name`.
pub open spec fn is_first_named(slots: Seq<Slot>, name: Seq<char>, i: int) -> bool {
    &&& 0 <= i < slots.len()
    &&& is_named(slots[i], name)
    &&& forall|j: int| 0 <= j < i ==> !is_named(#[trigger] slots[j], name)
}

/// The slots after `value` was bound at position `i`: only that slot's value changes.
pub open spec fn bound_at(slots: Seq<Slot>, i: int, value: Value) -> Seq<Slot> {
    slots.update(i, Slot { name: slots[i].name, declared: slots[i].declared, value: Some(value) })
}

/// What a slot holds, as mathematical data: its name, its declared type and
/// what its value holds.
pub open spec fn slot_content(slot: Slot) -> (Option<Seq<char>>, Option<ValueType>, Option<Content>) {
    (
        match slot.name {
            Some(s) => Some(s@),
            None => None,
        },
        slot.declared,
        match slot.value {
            Some(v) => Some(v.content()),
            None => None,
        },
    )
}

/// What each of `slots` holds, in the same order.
pub open spec fn frame_of(slots: Seq<Slot>) -> Seq<
    (Option<Seq<char>>, Option<ValueType>, Option<Content>),
> {
    Seq::new(slots.len(), |i: int| slot_content(slots[i]))
}

/// A query template with its parameter slots.
#[derive(Debug, PartialEq)]
pub struct Statement {
    query: String,
    slots: Vec<Slot>,
}

impl Statement {
    /// The query text.
    pub closed spec fn text(&self) -> Seq<char> {
        self.query@
    }

    /// The parameter slots, in the order of the placeholders.
    pub closed spec fn params(&self) -> Seq<Slot> {
        self.slots@
    }

    /// A statement for `query_text`, with one unnamed, untyped and unbound slot
    /// for each `?` in it.
    pub fn new(query_text: &str) -> (s: Statement)
        ensures
            s.text() == query_text@,
            s.params().len() == count_placeholders(query_text@),
            forall|i: int|
                0 <= i < s.params().len() ==> (#[trigger] s.params()[i]) == (Slot {
                    name: None,
                    declared: None,
                    value: None,
                }),
    {
        let n: usize = query_text.unicode_len();
        let mut slots: Vec<Slot> = Vec::new();
        let mut i: usize = 0;
        while i < n
            invariant
                n == query_text@.len(),
                i <= n,
                slots@.len() == count_placeholders(query_text@.subrange(0, i as int)),
                slots@.len() <= i,
                forall|k: int|
                    0 <= k < slots@.len() ==> (#[trigger] slots@[k]) == (Slot {
                        name: None,
                        declared: None,
                        value: None,
                    }),
            decreases n - i,
        {
            let c: char = query_text.get_char(i);
            proof {
                assert(query_text@.subrange(0, i + 1).drop_last() =~= query_text@.subrange(0, i as int));
            }
            if c == '?' {
                slots.push(Slot { name: None, declared: None, value: None });
            }
            i += 1;
        }
        proof {
            assert(query_text@.subrange(0, n as int) =~= query_text@);
        }
        Statement { query: query_text.to_owned(), slots }
    }

    /// A deep copy of the statement: the same text, and slots that hold the
    /// same. What is bound to either afterwards does not show in the other.
    pub fn duplicate(&self) -> (r: Statement)
        ensures
            r.text() == self.text(),
            frame_of(r.params()) == frame_of(self.params()),
    {
        let mut slots: Vec<Slot> = Vec::new();
        let mut i: usize = 0;
        while i < self.slots.len()
            invariant
                i <= self.slots@.len(),
                slots@.len() == i,
                forall|k: int|
                    0 <= k < i ==> slot_content(#[trigger] slots@[k]) == slot_content(self.slots@[k]),
            decreases self.slots.len() - i,
        {
            let name: Option<String> = match &self.slots[i].name {
                Some(s) => Some(s.clone()),
                None => None,
            };
            let value: Option<Value> = match &self.slots[i].value {
                Some(v) => Some(v.duplicate()),
                None => None,
            };
            slots.push(Slot { name, declared: self.slots[i].declared, value });
            i += 1;
        }
        proof {
            assert(frame_of(slots@) =~= frame_of(self.slots@));
        }
        Statement { query: self.query.clone(), slots }
    }

    /// The number of parameter positions.
    pub fn parameter_count(&self) -> (n: usize)
        ensures
            n == self.params().len(),
    {
        self.slots.len()
    }

    /// The query text.
    pub fn query_text(&self) -> (s: &String)
        ensures
            s@ == self.text(),
    {
        &self.query
    }

    /// The slot at `index`, if the statement has such a position.
    pub fn slot(&self, index: usize) -> (r: Option<&Slot>)
        ensures
            r == (if index < self.params().len() {
                Some(&self.params()[index as int])
            } else {
                None
            }),
    {
        if index < self.slots.len() {
            Some(&self.slots[index])
        } else {
            None
        }
    }

    /// Gives position `index` a name and a type, or takes them away, and
    /// clears what was bound there. Returns whether there is such a position.
    pub fn declare(&mut self, index: usize, name: Option<String>, declared: Option<ValueType>) -> (ok:
        bool)
        ensures
            final(self).text() == old(self).text(),
            ok == (index < old(self).params().len()),
            ok ==> final(self).params() == old(self).params().update(
                index as int,
                Slot { name, declared, value: None },
            ),
            !ok ==> final(self).params() == old(self).params(),
    {
        if index < self.slots.len() {
            self.slots.set(index, Slot { name, declared, value: None });
            true
        } else {
            false
        }
    }

    /// Binds `value` to position `index`.
    ///
    /// A position that the statement does not have is refused with
    /// `IndexOutOfRange`, whatever the value. A value whose tag does not fit the
    /// declared type is refused with `TypeMismatch`. A refusal changes nothing.
    pub fn bind(&mut self, index: usize, value: Value) -> (r: Result<(), BindError>)
        ensures
            final(self).text() == old(self).text(),
            index >= old(self).params().len() ==> r == Err::<(), BindError>(BindError::IndexOutOfRange),
            index < old(self).params().len() && !compatible(
                old(self).params()[index as int].declared,
                value.spec_tag(),
            ) ==> r == Err::<(), BindError>(BindError::TypeMismatch),
            index < old(self).params().len() && compatible(
                old(self).params()[index as int].declared,
                value.spec_tag(),
            ) ==> r == Ok::<(), BindError>(()),
            r is Ok ==> final(self).params() == bound_at(old(self).params(), index as int, value),
            r is Err ==> final(self).params() == old(self).params(),
    {
        if index >= self.slots.len() {
            return Err(BindError::IndexOutOfRange);
        }
        let fits: bool = match self.slots[index].declared {
            None => true,
            Some(t) => value.is_null() || t == value.tag(),
        };
        if !fits {
            return Err(BindError::TypeMismatch);
        }
        self.slots[index].value = Some(value);
        proof {
            assert(self.slots@ =~= bound_at(old(self).slots@, index as int, value));
        }
        Ok(())
    }

    /// The first position called `name`, if there is one.
    pub fn position_of(&self, name: &str) -> (r: Option<usize>)
        ensures
            match r {
                Some(i) => is_first_named(self.params(), name@, i as int),
                None => !has_name(self.params(), name@),
            },
    {
        let wanted: String = name.to_owned();
        let mut i: usize = 0;
        while i < self.slots.len()
            invariant
                i <= self.slots@.len(),
                wanted@ == name@,
                forall|j: int| 0 <= j < i ==> !is_named(#[trigger] self.slots@[j], name@),
            decreases self.slots.len() - i,
        {
            let hit: bool = match &self.slots[i].name {
                Some(s) => *s == wanted,
                None => false,
            };
            if hit {
                return Some(i);
            }
            i += 1;
        }
        None
    }

    /// Binds `value` to the first position called `name`.
    ///
    /// A name that no position has is refused with `IndexOutOfRange`; otherwise
    /// the outcome is that of `bind` at that position.
    pub fn bind_by_name(&mut self, name: &str, value: Value) -> (r: Result<(), BindError>)
        ensures
            final(self).text() == old(self).text(),
            !has_name(old(self).params(), name@) ==> r == Err::<(), BindError>(
                BindError::IndexOutOfRange,
            ),
            forall|i: int| #[trigger]
                is_first_named(old(self).params(), name@, i) ==> {
                    &&& r == (if compatible(old(self).params()[i].declared, value.spec_tag()) {
                        Ok::<(), BindError>(())
                    } else {
                        Err(BindError::TypeMismatch)
                    })
                    &&& r is Ok ==> final(self).params() == bound_at(old(self).params(), i, value)
                },
            r is Err ==> final(self).params() == old(self).params(),
    {
        match self.position_of(name) {
            Some(k) => {
                proof {
                    assert forall|i: int| #[trigger]
                        is_first_named(self.params(), name@, i) implies i == k by {
                        if i < k {
                            assert(is_named(self.params()[i], name@));
                        } else if k < i {
                            assert(is_named(self.params()[k as int], name@));
                        }
                    }
                }
                self.bind(k, value)
            },
            None => Err(BindError::IndexOutOfRange),
        }
    }

    /// Whether every position has a value bound.
    pub fn is_fully_bound(&self) -> (b: bool)
        ensures
            b == (forall|i: int| 0 <= i < self.params().len() ==> (#[trigger] self.params()[i]).value is Some),
    {
        let mut i: usize = 0;
        while i < self.slots.len()
            invariant
                i <= self.slots@.len(),
                forall|j: int| 0 <= j < i ==> (#[trigger] self.slots@[j]).value is Some,
            decreases self.slots.len() - i,
        {
            if self.slots[i].value.is_none() {
                return false;
            }
            i += 1;
        }
        true
    }
}

} // verus!

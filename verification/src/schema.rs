//! Read-only schema metadata: a snapshot owns the records, and the nodes handed
//! out are borrowed views that live no longer than the snapshot.

use vstd::prelude::*;
use crate::value::Value;
use crate::value::ValueType;

verus! {

/// One named metadata field of a node.
#[derive(Debug, PartialEq)]
pub struct Field {
    pub name: String,
    pub value: Value,
}

/// What the snapshot stores about a function.
#[derive(Debug, PartialEq)]
pub struct FunctionRecord {
    pub name: String,
    pub full_name: String,
    pub argument_types: Vec<ValueType>,
    pub return_type: ValueType,
    pub fields: Vec<Field>,
}

/// What the snapshot stores about an aggregate. The state and final functions
/// are positions in the snapshot's function table.
#[derive(Debug, PartialEq)]
pub struct AggregateRecord {
    pub name: String,
    pub full_name: String,
    pub argument_types: Vec<ValueType>,
    pub return_type: ValueType,
    pub state_type: ValueType,
    pub state_func: Option<usize>,
    pub final_func: Option<usize>,
    pub init_cond: Value,
    pub fields: Vec<Field>,
}

/// What the snapshot stores about a column.
#[derive(Debug, PartialEq)]
pub struct ColumnRecord {
    pub name: String,
    pub data_type: ValueType,
    pub fields: Vec<Field>,
}

/// What the snapshot stores about a table.
#[derive(Debug, PartialEq)]
pub struct TableRecord {
    pub name: String,
    pub columns: Vec<ColumnRecord>,
    pub fields: Vec<Field>,
}

/// What the snapshot stores about a keyspace. Its functions and aggregates
/// are positions in the snapshot's tables of functions and aggregates.
#[derive(Debug, PartialEq)]
pub struct KeyspaceRecord {
    pub name: String,
    pub tables: Vec<TableRecord>,
    pub functions: Vec<usize>,
    pub aggregates: Vec<usize>,
    pub fields: Vec<Field>,
}

/// A point-in-time view of the schema.
#[derive(Debug, PartialEq)]
pub struct SchemaSnapshot {
    pub keyspaces: Vec<KeyspaceRecord>,
    pub functions: Vec<FunctionRecord>,
    pub aggregates: Vec<AggregateRecord>,
}

/// Some field of `fields` is called `name`.
pub open spec fn has_field(fields: Seq<Field>, name: Seq<char>) -> bool {
    exists|i: int| 0 <= i < fields.len() && (#[trigger] fields[i]).name@ == name
}

/// `i` is the first position in `fields` whose field is called `name`.
pub open spec fn is_first_match(fields: Seq<Field>, name: Seq<char>, i: int) -> bool {
    &&& 0 <= i < fields.len()
    &&& fields[i].name@ == name
    &&& forall|j: int| 0 <= j < i ==> (#[trigger] fields[j]).name@ != name
}

/// No two fields share a name.
pub open spec fn distinct_names(fields: Seq<Field>) -> bool {
    forall|i: int, j: int|
        0 <= i < j < fields.len() ==> (#[trigger] fields[i]).name@ != (#[trigger] fields[j]).name@
}

/// What a lookup by name gives: the value at the first match, or nothing
/// where no field has that name.
pub open spec fn lookup_matches(fields: Seq<Field>, name: Seq<char>, found: Option<Value>) -> bool {
    match found {
        Some(v) => exists|i: int| is_first_match(fields, name, i) && v == (#[trigger] fields[i]).value,
        None => !has_field(fields, name),
    }
}

/// `i` is the first position in `tables` whose table is called `name`.
pub open spec fn is_first_table(tables: Seq<TableRecord>, name: Seq<char>, i: int) -> bool {
    &&& 0 <= i < tables.len()
    &&& tables[i].name@ == name
    &&& forall|j: int| 0 <= j < i ==> (#[trigger] tables[j]).name@ != name
}

/// Some table of `tables` is called `name`.
pub open spec fn has_table(tables: Seq<TableRecord>, name: Seq<char>) -> bool {
    exists|i: int| 0 <= i < tables.len() && (#[trigger] tables[i]).name@ == name
}

/// `i` is the first position in `columns` whose column is called `name`.
pub open spec fn is_first_column_record(columns: Seq<ColumnRecord>, name: Seq<char>, i: int) -> bool {
    &&& 0 <= i < columns.len()
    &&& columns[i].name@ == name
    &&& forall|j: int| 0 <= j < i ==> (#[trigger] columns[j]).name@ != name
}

/// Some column of `columns` is called `name`.
pub open spec fn has_column_record(columns: Seq<ColumnRecord>, name: Seq<char>) -> bool {
    exists|i: int| 0 <= i < columns.len() && (#[trigger] columns[i]).name@ == name
}

/// The aggregate that the handle at position `i` of `handles` refers to, if
/// there is such a handle and it refers to one.
pub open spec fn resolve_aggregate(
    aggregates: Seq<AggregateRecord>,
    handles: Seq<usize>,
    i: int,
) -> Option<AggregateRecord> {
    if 0 <= i < handles.len() && handles[i] < aggregates.len() {
        Some(aggregates[handles[i] as int])
    } else {
        None
    }
}

/// The handle at position `i` of `handles`, if there is one.
pub open spec fn handle_at(handles: Seq<usize>, i: int) -> Option<usize> {
    if 0 <= i < handles.len() {
        Some(handles[i])
    } else {
        None
    }
}

/// The function that position `handle` refers to, if it refers to one.
pub open spec fn resolve_function(functions: Seq<FunctionRecord>, handle: Option<usize>) -> Option<
    FunctionRecord,
> {
    match handle {
        Some(i) => if i < functions.len() {
            Some(functions[i as int])
        } else {
            None
        },
        None => None,
    }
}

/// Finds the first field called `name`.
pub fn find_field(fields: &Vec<Field>, name: &str) -> (r: Option<usize>)
    ensures
        match r {
            Some(i) => is_first_match(fields@, name@, i as int),
            None => !has_field(fields@, name@),
        },
{
    let wanted: String = name.to_owned();
    let mut i: usize = 0;
    while i < fields.len()
        invariant
            i <= fields.len(),
            wanted@ == name@,
            forall|j: int| 0 <= j < i ==> (#[trigger] fields@[j]).name@ != name@,
        decreases fields.len() - i,
    {
        if fields[i].name == wanted {
            return Some(i);
        }
        i += 1;
    }
    None
}

/// A name has at most one first match.
pub proof fn lemma_first_match_unique(fields: Seq<Field>, name: Seq<char>, i: int, j: int)
    requires
        is_first_match(fields, name, i),
        is_first_match(fields, name, j),
    ensures
        i == j,
{
    if i < j {
        assert(fields[i].name@ == name);
    } else if j < i {
        assert(fields[j].name@ == name);
    }
}

/// A lookup by name gives nothing for a name that no field has; and where the
/// names are distinct, it gives exactly the value of the field with that name.
pub proof fn lemma_lookup_exact(fields: Seq<Field>, name: Seq<char>, found: Option<Value>, k: int)
    requires
        lookup_matches(fields, name, found),
    ensures
        !has_field(fields, name) ==> found is None,
        (distinct_names(fields) && 0 <= k < fields.len() && fields[k].name@ == name) ==> found
            == Some(fields[k].value),
{
    if distinct_names(fields) && 0 <= k < fields.len() && fields[k].name@ == name {
        assert(has_field(fields, name));
        let i = choose|i: int| is_first_match(fields, name, i) && found->0 == (#[trigger] fields[i]).value;
        if i < k {
            assert(fields[i].name@ != fields[k].name@);
        } else if k < i {
            assert(fields[k].name@ != fields[i].name@);
        }
    }
    if !has_field(fields, name) {
        if found is Some {
            let i = choose|i: int| is_first_match(fields, name, i) && found->0 == (#[trigger] fields[i]).value;
            assert(fields[i].name@ == name);
        }
    }
}

/// A cursor over the fields of one metadata node, in stored order.
#[derive(Debug)]
pub struct FieldIterator<'a> {
    fields: &'a Vec<Field>,
    pos: usize,
}

impl<'a> FieldIterator<'a> {
    /// All the fields the cursor walks over.
    pub closed spec fn fields(&self) -> Seq<Field> {
        self.fields@
    }

    /// How many fields the cursor has handed out.
    pub closed spec fn position(&self) -> nat {
        self.pos as nat
    }

    /// Hands out the next field, or `None` once all have been handed out.
    pub fn next(&mut self) -> (r: Option<&'a Field>)
        ensures
            final(self).fields() == old(self).fields(),
            old(self).position() < old(self).fields().len() ==> r == Some(
                &old(self).fields()[old(self).position() as int],
            ) && final(self).position() == old(self).position() + 1,
            old(self).position() >= old(self).fields().len() ==> r is None && final(self).position()
                == old(self).position(),
    {
        if self.pos < self.fields.len() {
            let f = &self.fields[self.pos];
            self.pos = self.pos + 1;
            Some(f)
        } else {
            None
        }
    }

    /// Starts over at the first field.
    pub fn reset(&mut self)
        ensures
            final(self).fields() == old(self).fields(),
            final(self).position() == 0,
    {
        self.pos = 0;
    }
}

/// Metadata about a function: a view into a snapshot.
#[derive(Debug)]
pub struct FunctionMeta<'a> {
    record: &'a FunctionRecord,
}

impl<'a> FunctionMeta<'a> {
    /// The record this view shows.
    pub closed spec fn record(&self) -> FunctionRecord {
        *self.record
    }

    /// A cursor over the fields of the function.
    pub fn fields_iter(&self) -> (it: FieldIterator<'a>)
        ensures
            it.fields() == self.record().fields@,
            it.position() == 0,
    {
        FieldIterator { fields: &self.record.fields, pos: 0 }
    }

    /// The name of the function.
    pub fn get_name(&self) -> (s: String)
        ensures
            s@ == self.record().name@,
    {
        self.record.name.clone()
    }

    /// The full name of the function, which includes its argument types.
    pub fn full_name(&self) -> (s: String)
        ensures
            s@ == self.record().full_name@,
    {
        self.record.full_name.clone()
    }

    /// The number of arguments the function takes.
    pub fn argument_count(&self) -> (n: usize)
        ensures
            n == self.record().argument_types@.len(),
    {
        self.record.argument_types.len()
    }

    /// The type of the argument at `index`, if there is such an argument.
    pub fn argument_type(&self, index: usize) -> (t: Option<ValueType>)
        ensures
            t == (if index < self.record().argument_types@.len() {
                Some(self.record().argument_types@[index as int])
            } else {
                None
            }),
    {
        if index < self.record.argument_types.len() {
            Some(self.record.argument_types[index])
        } else {
            None
        }
    }

    /// The type of what the function returns.
    pub fn return_type(&self) -> (t: ValueType)
        ensures
            t == self.record().return_type,
    {
        self.record.return_type
    }

    /// The value of the first field called `name`; `None` where there is none.
    pub fn field_by_name(&self, name: &str) -> (r: Option<&'a Value>)
        ensures
            lookup_matches(self.record().fields@, name@, match r {
                Some(v) => Some(*v),
                None => None,
            }),
    {
        match find_field(&self.record.fields, name) {
            Some(i) => Some(&self.record.fields[i].value),
            None => None,
        }
    }
}

/// Metadata about an aggregate: a view into a snapshot.
#[derive(Debug)]
pub struct AggregateMeta<'a> {
    snapshot: &'a SchemaSnapshot,
    record: &'a AggregateRecord,
}

impl<'a> AggregateMeta<'a> {
    /// The snapshot this view was taken from.
    pub closed spec fn snapshot(&self) -> SchemaSnapshot {
        *self.snapshot
    }

    /// The record this view shows.
    pub closed spec fn record(&self) -> AggregateRecord {
        *self.record
    }

    /// A cursor over the fields of the aggregate.
    pub fn fields_iter(&self) -> (it: FieldIterator<'a>)
        ensures
            it.fields() == self.record().fields@,
            it.position() == 0,
    {
        FieldIterator { fields: &self.record.fields, pos: 0 }
    }

    /// The name of the aggregate.
    pub fn get_name(&self) -> (s: String)
        ensures
            s@ == self.record().name@,
    {
        self.record.name.clone()
    }

    /// The full name of the aggregate, which includes its argument types.
    pub fn full_name(&self) -> (s: String)
        ensures
            s@ == self.record().full_name@,
    {
        self.record.full_name.clone()
    }

    /// The number of arguments the aggregate takes.
    pub fn argument_count(&self) -> (n: usize)
        ensures
            n == self.record().argument_types@.len(),
    {
        self.record.argument_types.len()
    }

    /// The type of the argument at `index`, if there is such an argument.
    pub fn argument_type(&self, index: usize) -> (t: Option<ValueType>)
        ensures
            t == (if index < self.record().argument_types@.len() {
                Some(self.record().argument_types@[index as int])
            } else {
                None
            }),
    {
        if index < self.record.argument_types.len() {
            Some(self.record.argument_types[index])
        } else {
            None
        }
    }

    /// The type of what the aggregate returns.
    pub fn return_type(&self) -> (t: ValueType)
        ensures
            t == self.record().return_type,
    {
        self.record.return_type
    }

    /// The type of the aggregate's state.
    pub fn state_type(&self) -> (t: ValueType)
        ensures
            t == self.record().state_type,
    {
        self.record.state_type
    }

    /// The aggregate's state function, looked up in the snapshot.
    pub fn state_func(&self) -> (f: Option<FunctionMeta<'a>>)
        ensures
            match f {
                Some(m) => Some(m.record()),
                None => None,
            } == resolve_function(self.snapshot().functions@, self.record().state_func),
    {
        self.snapshot.function(self.record.state_func)
    }

    /// The aggregate's final function, looked up in the snapshot.
    pub fn final_func(&self) -> (f: Option<FunctionMeta<'a>>)
        ensures
            match f {
                Some(m) => Some(m.record()),
                None => None,
            } == resolve_function(self.snapshot().functions@, self.record().final_func),
    {
        self.snapshot.function(self.record.final_func)
    }

    /// The aggregate's initial condition.
    pub fn init_cond(&self) -> (v: &'a Value)
        ensures
            *v == self.record().init_cond,
    {
        &self.record.init_cond
    }

    /// The value of the first field called `name`; `None` where there is none.
    pub fn field_by_name(&self, name: &str) -> (r: Option<&'a Value>)
        ensures
            lookup_matches(self.record().fields@, name@, match r {
                Some(v) => Some(*v),
                None => None,
            }),
    {
        match find_field(&self.record.fields, name) {
            Some(i) => Some(&self.record.fields[i].value),
            None => None,
        }
    }
}

/// Metadata about a column: a view into a snapshot.
#[derive(Debug)]
pub struct ColumnMeta<'a> {
    record: &'a ColumnRecord,
}

impl<'a> ColumnMeta<'a> {
    /// The record this view shows.
    pub closed spec fn record(&self) -> ColumnRecord {
        *self.record
    }

    /// The name of the column.
    pub fn get_name(&self) -> (s: String)
        ensures
            s@ == self.record().name@,
    {
        self.record.name.clone()
    }

    /// The type of the column's values.
    pub fn data_type(&self) -> (t: ValueType)
        ensures
            t == self.record().data_type,
    {
        self.record.data_type
    }

    /// A cursor over the fields of the column.
    pub fn fields_iter(&self) -> (it: FieldIterator<'a>)
        ensures
            it.fields() == self.record().fields@,
            it.position() == 0,
    {
        FieldIterator { fields: &self.record.fields, pos: 0 }
    }

    /// The value of the first field called `name`; `None` where there is none.
    pub fn field_by_name(&self, name: &str) -> (r: Option<&'a Value>)
        ensures
            lookup_matches(self.record().fields@, name@, match r {
                Some(v) => Some(*v),
                None => None,
            }),
    {
        match find_field(&self.record.fields, name) {
            Some(i) => Some(&self.record.fields[i].value),
            None => None,
        }
    }
}

/// Metadata about a table: a view into a snapshot.
#[derive(Debug)]
pub struct TableMeta<'a> {
    record: &'a TableRecord,
}

impl<'a> TableMeta<'a> {
    /// The record this view shows.
    pub closed spec fn record(&self) -> TableRecord {
        *self.record
    }

    /// The name of the table.
    pub fn get_name(&self) -> (s: String)
        ensures
            s@ == self.record().name@,
    {
        self.record.name.clone()
    }

    /// The number of columns of the table.
    pub fn column_count(&self) -> (n: usize)
        ensures
            n == self.record().columns@.len(),
    {
        self.record.columns.len()
    }

    /// A view of the column at `index`, if there is one.
    pub fn column(&self, index: usize) -> (r: Option<ColumnMeta<'a>>)
        ensures
            r is Some <==> index < self.record().columns@.len(),
            r is Some ==> r->0.record() == self.record().columns@[index as int],
    {
        if index < self.record.columns.len() {
            Some(ColumnMeta { record: &self.record.columns[index] })
        } else {
            None
        }
    }

    /// A view of the first column called `name`, if there is one.
    pub fn column_by_name(&self, name: &str) -> (r: Option<ColumnMeta<'a>>)
        ensures
            match r {
                Some(c) => exists|i: int|
                    is_first_column_record(self.record().columns@, name@, i) && c.record() == (
                    #[trigger] self.record().columns@[i]),
                None => !has_column_record(self.record().columns@, name@),
            },
    {
        let wanted: String = name.to_owned();
        let mut i: usize = 0;
        while i < self.record.columns.len()
            invariant
                i <= self.record.columns@.len(),
                wanted@ == name@,
                forall|j: int| 0 <= j < i ==> (#[trigger] self.record.columns@[j]).name@ != name@,
            decreases self.record.columns.len() - i,
        {
            if self.record.columns[i].name == wanted {
                proof {
                    assert(is_first_column_record(self.record().columns@, name@, i as int));
                }
                return Some(ColumnMeta { record: &self.record.columns[i] });
            }
            i += 1;
        }
        None
    }

    /// A cursor over the fields of the table.
    pub fn fields_iter(&self) -> (it: FieldIterator<'a>)
        ensures
            it.fields() == self.record().fields@,
            it.position() == 0,
    {
        FieldIterator { fields: &self.record.fields, pos: 0 }
    }

    /// The value of the first field called `name`; `None` where there is none.
    pub fn field_by_name(&self, name: &str) -> (r: Option<&'a Value>)
        ensures
            lookup_matches(self.record().fields@, name@, match r {
                Some(v) => Some(*v),
                None => None,
            }),
    {
        match find_field(&self.record.fields, name) {
            Some(i) => Some(&self.record.fields[i].value),
            None => None,
        }
    }
}

/// Metadata about a keyspace: a view into a snapshot.
#[derive(Debug)]
pub struct KeyspaceMeta<'a> {
    snapshot: &'a SchemaSnapshot,
    record: &'a KeyspaceRecord,
}

impl<'a> KeyspaceMeta<'a> {
    /// The snapshot this view was taken from.
    pub closed spec fn snapshot(&self) -> SchemaSnapshot {
        *self.snapshot
    }

    /// The record this view shows.
    pub closed spec fn record(&self) -> KeyspaceRecord {
        *self.record
    }

    /// The name of the keyspace.
    pub fn get_name(&self) -> (s: String)
        ensures
            s@ == self.record().name@,
    {
        self.record.name.clone()
    }

    /// The number of tables of the keyspace.
    pub fn table_count(&self) -> (n: usize)
        ensures
            n == self.record().tables@.len(),
    {
        self.record.tables.len()
    }

    /// A view of the table at `index`, if there is one.
    pub fn table(&self, index: usize) -> (r: Option<TableMeta<'a>>)
        ensures
            r is Some <==> index < self.record().tables@.len(),
            r is Some ==> r->0.record() == self.record().tables@[index as int],
    {
        if index < self.record.tables.len() {
            Some(TableMeta { record: &self.record.tables[index] })
        } else {
            None
        }
    }

    /// A view of the first table called `name`, if there is one.
    pub fn table_by_name(&self, name: &str) -> (r: Option<TableMeta<'a>>)
        ensures
            match r {
                Some(t) => exists|i: int|
                    is_first_table(self.record().tables@, name@, i) && t.record() == (
                    #[trigger] self.record().tables@[i]),
                None => !has_table(self.record().tables@, name@),
            },
    {
        let wanted: String = name.to_owned();
        let mut i: usize = 0;
        while i < self.record.tables.len()
            invariant
                i <= self.record.tables@.len(),
                wanted@ == name@,
                forall|j: int| 0 <= j < i ==> (#[trigger] self.record.tables@[j]).name@ != name@,
            decreases self.record.tables.len() - i,
        {
            if self.record.tables[i].name == wanted {
                proof {
                    assert(is_first_table(self.record().tables@, name@, i as int));
                }
                return Some(TableMeta { record: &self.record.tables[i] });
            }
            i += 1;
        }
        None
    }

    /// The number of functions of the keyspace.
    pub fn function_count(&self) -> (n: usize)
        ensures
            n == self.record().functions@.len(),
    {
        self.record.functions.len()
    }

    /// A view of the keyspace's function at `index`, looked up in the snapshot.
    pub fn function(&self, index: usize) -> (r: Option<FunctionMeta<'a>>)
        ensures
            match r {
                Some(m) => Some(m.record()),
                None => None,
            } == resolve_function(
                self.snapshot().functions@,
                handle_at(self.record().functions@, index as int),
            ),
    {
        if index < self.record.functions.len() {
            self.snapshot.function(Some(self.record.functions[index]))
        } else {
            None
        }
    }

    /// The number of aggregates of the keyspace.
    pub fn aggregate_count(&self) -> (n: usize)
        ensures
            n == self.record().aggregates@.len(),
    {
        self.record.aggregates.len()
    }

    /// A view of the keyspace's aggregate at `index`, looked up in the snapshot.
    pub fn aggregate(&self, index: usize) -> (r: Option<AggregateMeta<'a>>)
        ensures
            match r {
                Some(m) => Some(m.record()),
                None => None,
            } == resolve_aggregate(self.snapshot().aggregates@, self.record().aggregates@, index as int),
            r is Some ==> r->0.snapshot() == self.snapshot(),
    {
        if index < self.record.aggregates.len() {
            self.snapshot.aggregate(self.record.aggregates[index])
        } else {
            None
        }
    }

    /// A cursor over the fields of the keyspace.
    pub fn fields_iter(&self) -> (it: FieldIterator<'a>)
        ensures
            it.fields() == self.record().fields@,
            it.position() == 0,
    {
        FieldIterator { fields: &self.record.fields, pos: 0 }
    }

    /// The value of the first field called `name`; `None` where there is none.
    pub fn field_by_name(&self, name: &str) -> (r: Option<&'a Value>)
        ensures
            lookup_matches(self.record().fields@, name@, match r {
                Some(v) => Some(*v),
                None => None,
            }),
    {
        match find_field(&self.record.fields, name) {
            Some(i) => Some(&self.record.fields[i].value),
            None => None,
        }
    }
}

impl SchemaSnapshot {
    /// The number of keyspaces in the snapshot.
    pub fn keyspace_count(&self) -> (n: usize)
        ensures
            n == self.keyspaces@.len(),
    {
        self.keyspaces.len()
    }

    /// A view of the keyspace at `index`, if there is one.
    pub fn keyspace<'a>(&'a self, index: usize) -> (r: Option<KeyspaceMeta<'a>>)
        ensures
            r is Some <==> index < self.keyspaces@.len(),
            r is Some ==> r->0.snapshot() == *self && r->0.record() == self.keyspaces@[index as int],
    {
        if index < self.keyspaces.len() {
            Some(KeyspaceMeta { snapshot: self, record: &self.keyspaces[index] })
        } else {
            None
        }
    }

    /// The number of aggregates in the snapshot.
    pub fn aggregate_count(&self) -> (n: usize)
        ensures
            n == self.aggregates@.len(),
    {
        self.aggregates.len()
    }

    /// A view of the aggregate at `index`, if there is one.
    pub fn aggregate<'a>(&'a self, index: usize) -> (r: Option<AggregateMeta<'a>>)
        ensures
            r is Some <==> index < self.aggregates@.len(),
            r is Some ==> r->0.snapshot() == *self && r->0.record() == self.aggregates@[index as int],
    {
        if index < self.aggregates.len() {
            Some(AggregateMeta { snapshot: self, record: &self.aggregates[index] })
        } else {
            None
        }
    }

    /// A view of the function that `handle` refers to, if it refers to one.
    pub fn function<'a>(&'a self, handle: Option<usize>) -> (r: Option<FunctionMeta<'a>>)
        ensures
            match r {
                Some(m) => Some(m.record()),
                None => None,
            } == resolve_function(self.functions@, handle),
    {
        match handle {
            Some(i) => {
                if i < self.functions.len() {
                    Some(FunctionMeta { record: &self.functions[i] })
                } else {
                    None
                }
            },
            None => None,
        }
    }
}

} // verus!

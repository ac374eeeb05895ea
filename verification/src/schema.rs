//! Record types: the kinds of field and the schemas that name them.

use crate::error::StoreError;
use crate::name_map::NameMap;
use crate::names::{is_identifier, valid_identifier};
use vstd::prelude::*;

verus! {

/// The primitive kinds a field may hold.
#[derive(Clone, Copy, Debug, PartialEq, Eq, Structural)]
pub enum FieldType {
    Text,
    Integer,
    Real,
    Boolean,
}

impl FieldType {
    /// The type of the column that holds a field of this kind. The engine has
    /// no Boolean of its own: such a field is held as an integer.
    pub open spec fn column_type(self) -> Seq<char> {
        match self {
            FieldType::Text => "TEXT"@,
            FieldType::Integer => "INTEGER"@,
            FieldType::Real => "REAL"@,
            FieldType::Boolean => "INTEGER"@,
        }
    }

    /// The type of the column that holds a field of this kind.
    pub fn sql_type(self) -> (name: &'static str)
        ensures
            name@ == self.column_type(),
    {
        match self {
            FieldType::Text => "TEXT",
            FieldType::Integer => "INTEGER",
            FieldType::Real => "REAL",
            FieldType::Boolean => "INTEGER",
        }
    }
}

/// A named record type: the table it is kept in and its typed fields.
#[derive(Clone, Debug)]
pub struct Schema {
    pub name: String,
    pub fields: NameMap<FieldType>,
}

/// The first of `names` that is not an identifier, if there is one.
pub open spec fn first_invalid(names: Seq<Seq<char>>) -> Option<Seq<char>>
    decreases names.len(),
{
    if names.len() == 0 {
        None
    } else if !is_identifier(names[0]) {
        Some(names[0])
    } else {
        first_invalid(names.drop_first())
    }
}

impl Schema {
    /// The names of the fields, in order.
    pub open spec fn field_names(&self) -> Seq<Seq<char>> {
        Seq::new(self.fields@.len(), |i: int| self.fields@[i].0)
    }

    /// The names that go into statement text: the schema's own, then those of
    /// its fields.
    pub open spec fn all_names(&self) -> Seq<Seq<char>> {
        seq![self.name@] + self.field_names()
    }

    /// Every name of the schema is an identifier.
    pub open spec fn safe(&self) -> bool {
        first_invalid(self.all_names()) is None
    }

    /// Whether the schema declares a field `name`.
    pub open spec fn declares(&self, name: Seq<char>) -> bool {
        self.fields.contains(name)
    }

    /// Validates every name of the schema, its own first and then those of
    /// its fields in order, and reports the first that is not an identifier.
    pub fn validate_names(&self) -> (valid: Result<(), StoreError>)
        ensures
            match first_invalid(self.all_names()) {
                None => valid is Ok,
                Some(name) => valid matches Err(e) && e@ == crate::error::StoreErrorView::InvalidName(
                    name,
                ),
            },
    {
        let ghost all = self.all_names();
        if !valid_identifier(self.name.as_str()) {
            return Err(StoreError::InvalidName(self.name.clone()));
        }
        let n: usize = self.fields.len();
        let mut i: usize = 0;
        assert(all.drop_first() =~= self.field_names().skip(0));
        while i < n
            invariant
                n == self.fields@.len(),
                i <= n,
                first_invalid(self.all_names()) == first_invalid(self.field_names().skip(i as int)),
            decreases n - i,
        {
            let name = self.fields.name_at(i);
            let ghost rest = self.field_names().skip(i as int);
            assert(rest[0] == name@);
            assert(rest.drop_first() =~= self.field_names().skip(i + 1));
            if !valid_identifier(name.as_str()) {
                return Err(StoreError::InvalidName(name.clone()));
            }
            i = i + 1;
        }
        Ok(())
    }
}

/// In a safe schema the name and every field name is an identifier.
pub proof fn lemma_safe_names(schema: Schema)
    requires
        schema.safe(),
    ensures
        is_identifier(schema.name@),
        forall|i: int| 0 <= i < schema.fields@.len() ==> is_identifier(#[trigger] schema.fields@[i].0),
{
    lemma_none_invalid(schema.all_names());
    assert(schema.all_names()[0] == schema.name@);
    assert forall|i: int| 0 <= i < schema.fields@.len() implies is_identifier(
        #[trigger] schema.fields@[i].0,
    ) by {
        assert(schema.all_names()[i + 1] == schema.fields@[i].0);
    }
}

/// `first_invalid` finds nothing exactly where every name is an identifier.
pub proof fn lemma_none_invalid(names: Seq<Seq<char>>)
    ensures
        first_invalid(names) is None <==> forall|i: int|
            0 <= i < names.len() ==> is_identifier(#[trigger] names[i]),
    decreases names.len(),
{
    if names.len() > 0 {
        let rest = names.drop_first();
        lemma_none_invalid(rest);
        if first_invalid(names) is None {
            assert forall|i: int| 0 <= i < names.len() implies is_identifier(#[trigger] names[i]) by {
                if i > 0 {
                    assert(rest[i - 1] == names[i]);
                }
            }
        } else if is_identifier(names[0]) {
            assert(!(forall|i: int| 0 <= i < rest.len() ==> is_identifier(#[trigger] rest[i])));
            let k = choose|k: int| 0 <= k < rest.len() && !is_identifier(#[trigger] rest[k]);
            assert(names[k + 1] == rest[k]);
        }
    }
}

} // verus!

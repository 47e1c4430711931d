//! The schema of every row group and every file: a channel column and a time-tag column.

use arrow::datatypes::{DataType, Field, Schema};
use std::sync::Arc;
use vstd::prelude::*;

verus! {

/// The name of the column of channel numbers.
pub const CHANNEL_COLUMN: &'static str = "channel";

/// The name of the column of time tags.
pub const TIME_TAG_COLUMN: &'static str = "time_tag";

/// What the values of a column are.
pub enum ColumnKind {
    /// Unsigned integers of 16 bits, Arrow's `UInt16`.
    Unsigned16,
    /// Unsigned integers of 64 bits, Arrow's `UInt64`.
    Unsigned64,
    /// Any other type of Arrow.
    Other,
}

/// The description of one column: its name, what its values are, and whether a value may be
/// missing.
pub struct ColumnDescriptor {
    pub name: Seq<char>,
    pub kind: ColumnKind,
    pub nullable: bool,
}

/// Arrow's description of one column.
#[verifier::external_type_specification]
#[verifier::external_body]
pub struct ExField(Field);

/// Arrow's description of the columns of a table.
#[verifier::external_type_specification]
#[verifier::external_body]
pub struct ExSchema(Schema);

/// What a field of Arrow says of its column: the field's name, its data type, and whether it
/// is nullable.
pub uninterp spec fn field_descriptor(field: Field) -> ColumnDescriptor;

/// What the fields of a schema of Arrow say of their columns, in the order of the fields.
pub uninterp spec fn schema_columns(schema: Schema) -> Seq<ColumnDescriptor>;

/// Calls `Field::new` with `DataType::UInt16`: the field has the given name and nullability,
/// and that data type.
#[verifier::external_body]
fn new_unsigned16_field(name: &str, nullable: bool) -> (field: Field)
    ensures
        field_descriptor(field) == (ColumnDescriptor {
            name: name@,
            kind: ColumnKind::Unsigned16,
            nullable,
        }),
{
    Field::new(name, DataType::UInt16, nullable)
}

/// Calls `Field::new` with `DataType::UInt64`: the field has the given name and nullability,
/// and that data type.
#[verifier::external_body]
fn new_unsigned64_field(name: &str, nullable: bool) -> (field: Field)
    ensures
        field_descriptor(field) == (ColumnDescriptor {
            name: name@,
            kind: ColumnKind::Unsigned64,
            nullable,
        }),
{
    Field::new(name, DataType::UInt64, nullable)
}

/// Calls `Schema::new`: the schema has the given fields, in their order.
#[verifier::external_body]
fn new_schema(fields: Vec<Field>) -> (schema: Arc<Schema>)
    ensures
        schema_columns(*schema) == fields@.map_values(|field: Field| field_descriptor(field)),
{
    Arc::new(Schema::new(fields))
}

/// The fixed pair of columns: `channel`, unsigned 16-bit, then `time_tag`, unsigned 64-bit,
/// neither nullable.
pub open spec fn time_tag_columns() -> Seq<ColumnDescriptor> {
    seq![
        ColumnDescriptor { name: CHANNEL_COLUMN@, kind: ColumnKind::Unsigned16, nullable: false },
        ColumnDescriptor { name: TIME_TAG_COLUMN@, kind: ColumnKind::Unsigned64, nullable: false },
    ]
}

/// Builds the fixed schema. It is never inferred from data: one value of it serves every row
/// group and every file of a write.
pub fn time_tag_schema() -> (schema: Arc<Schema>)
    ensures
        schema_columns(*schema) == time_tag_columns(),
{
    let mut fields: Vec<Field> = Vec::new();
    fields.push(new_unsigned16_field(CHANNEL_COLUMN, false));
    fields.push(new_unsigned64_field(TIME_TAG_COLUMN, false));
    let schema = new_schema(fields);
    assert(schema_columns(*schema) =~= time_tag_columns());
    schema
}

} // verus!

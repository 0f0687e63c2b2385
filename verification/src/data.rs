//! The column-oriented data model the normalizer consumes: a schema of named
//! typed fields, and batches holding one typed, nullable value vector per
//! column.  Values arrive as plain data — integers as their numeric value,
//! floating-point values by shape and decimal text, wide decimals by raw
//! digit text — so every rule the normalizer applies to them is checkable.

use vstd::prelude::*;
use crate::numeric::{is_int_literal, is_plain_decimal, FloatValue};
use crate::text::is_digit;
use crate::types::PhysicalType;

verus! {

/// One column of a schema: a name, a physical type, and whether null values
/// are admitted.
#[derive(Debug)]
pub struct Field {
    pub name: String,
    pub data_type: PhysicalType,
    pub nullable: bool,
}

impl Field {
    /// An owned copy of this field, equal to it.
    pub fn duplicate(&self) -> (r: Self)
        ensures
            r == *self,
    {
        Field { name: self.name.clone(), data_type: self.data_type.duplicate(), nullable: self.nullable }
    }
}

/// Whether declared field `a` is a superset of batch field `b`: same name
/// and type, with `a` at least as permissive about nulls.
pub open spec fn spec_field_contains(a: Field, b: Field) -> bool {
    &&& a.name@ == b.name@
    &&& a.data_type == b.data_type
    &&& (a.nullable || !b.nullable)
}

/// The ordered list of columns a query's results are declared with.
#[derive(Debug)]
pub struct Schema {
    pub fields: Vec<Field>,
}

/// Whether schema `a` contains schema `b`: the same number of fields, each
/// field of `a` a superset of its counterpart in `b`.
pub open spec fn spec_schema_contains(a: Schema, b: Schema) -> bool {
    &&& a.fields@.len() == b.fields@.len()
    &&& forall|i: int|
        0 <= i < a.fields@.len() ==> spec_field_contains(#[trigger] a.fields@[i], b.fields@[i])
}

impl Schema {
    /// An owned copy of this schema, with the same fields.
    pub fn duplicate(&self) -> (r: Self)
        ensures
            r.fields@ == self.fields@,
    {
        let mut fields: Vec<Field> = Vec::new();
        let mut i: usize = 0;
        while i < self.fields.len()
            invariant
                i <= self.fields@.len(),
                fields@ =~= self.fields@.take(i as int),
            decreases self.fields@.len() - i,
        {
            fields.push(self.fields[i].duplicate());
            i = i + 1;
        }
        assert(fields@ =~= self.fields@);
        Schema { fields }
    }

    /// Decides whether this schema contains `other`.
    pub fn contains(&self, other: &Schema) -> (r: bool)
        ensures
            r == spec_schema_contains(*self, *other),
    {
        if self.fields.len() != other.fields.len() {
            return false;
        }
        let mut i: usize = 0;
        while i < self.fields.len()
            invariant
                i <= self.fields@.len(),
                self.fields@.len() == other.fields@.len(),
                forall|j: int|
                    0 <= j < i ==> spec_field_contains(
                        #[trigger] self.fields@[j],
                        other.fields@[j],
                    ),
            decreases self.fields@.len() - i,
        {
            let a = &self.fields[i];
            let b = &other.fields[i];
            if !(a.name == b.name && a.data_type.equals(&b.data_type) && (a.nullable
                || !b.nullable)) {
                return false;
            }
            i = i + 1;
        }
        true
    }
}

/// The width and sign of an integer column.
#[derive(Debug, PartialEq, Eq, Clone, Copy, Structural)]
pub enum IntWidth {
    Int8,
    Int16,
    Int32,
    Int64,
    UInt8,
    UInt16,
    UInt32,
    UInt64,
}

impl IntWidth {
    /// The physical type of a column of this width.
    pub open spec fn spec_type(self) -> PhysicalType {
        match self {
            IntWidth::Int8 => PhysicalType::Int8,
            IntWidth::Int16 => PhysicalType::Int16,
            IntWidth::Int32 => PhysicalType::Int32,
            IntWidth::Int64 => PhysicalType::Int64,
            IntWidth::UInt8 => PhysicalType::UInt8,
            IntWidth::UInt16 => PhysicalType::UInt16,
            IntWidth::UInt32 => PhysicalType::UInt32,
            IntWidth::UInt64 => PhysicalType::UInt64,
        }
    }

    /// The physical type of a column of this width.
    pub fn physical_type(&self) -> (t: PhysicalType)
        ensures
            t == self.spec_type(),
    {
        match self {
            IntWidth::Int8 => PhysicalType::Int8,
            IntWidth::Int16 => PhysicalType::Int16,
            IntWidth::Int32 => PhysicalType::Int32,
            IntWidth::Int64 => PhysicalType::Int64,
            IntWidth::UInt8 => PhysicalType::UInt8,
            IntWidth::UInt16 => PhysicalType::UInt16,
            IntWidth::UInt32 => PhysicalType::UInt32,
            IntWidth::UInt64 => PhysicalType::UInt64,
        }
    }

    /// Whether `v` is representable at this width.
    pub open spec fn spec_in_range(self, v: int) -> bool {
        match self {
            IntWidth::Int8 => -0x80 <= v <= 0x7f,
            IntWidth::Int16 => -0x8000 <= v <= 0x7fff,
            IntWidth::Int32 => -0x8000_0000 <= v <= 0x7fff_ffff,
            IntWidth::Int64 => -0x8000_0000_0000_0000 <= v <= 0x7fff_ffff_ffff_ffff,
            IntWidth::UInt8 => 0 <= v <= 0xff,
            IntWidth::UInt16 => 0 <= v <= 0xffff,
            IntWidth::UInt32 => 0 <= v <= 0xffff_ffff,
            IntWidth::UInt64 => 0 <= v <= 0xffff_ffff_ffff_ffff,
        }
    }

    /// Decides whether `v` is representable at this width.
    pub fn in_range(&self, v: i128) -> (r: bool)
        ensures
            r == self.spec_in_range(v as int),
    {
        match self {
            IntWidth::Int8 => -0x80 <= v && v <= 0x7f,
            IntWidth::Int16 => -0x8000 <= v && v <= 0x7fff,
            IntWidth::Int32 => -0x8000_0000 <= v && v <= 0x7fff_ffff,
            IntWidth::Int64 => -0x8000_0000_0000_0000 <= v && v <= 0x7fff_ffff_ffff_ffff,
            IntWidth::UInt8 => 0 <= v && v <= 0xff,
            IntWidth::UInt16 => 0 <= v && v <= 0xffff,
            IntWidth::UInt32 => 0 <= v && v <= 0xffff_ffff,
            IntWidth::UInt64 => 0 <= v && v <= 0xffff_ffff_ffff_ffff,
        }
    }
}

/// The storage width of a floating-point column.
#[derive(Debug, PartialEq, Eq, Clone, Copy, Structural)]
pub enum FloatWidth {
    Half,
    Single,
    Double,
}

impl FloatWidth {
    /// The physical type of a column of this width.
    pub open spec fn spec_type(self) -> PhysicalType {
        match self {
            FloatWidth::Half => PhysicalType::Float16,
            FloatWidth::Single => PhysicalType::Float32,
            FloatWidth::Double => PhysicalType::Float64,
        }
    }

    /// The physical type of a column of this width.
    pub fn physical_type(&self) -> (t: PhysicalType)
        ensures
            t == self.spec_type(),
    {
        match self {
            FloatWidth::Half => PhysicalType::Float16,
            FloatWidth::Single => PhysicalType::Float32,
            FloatWidth::Double => PhysicalType::Float64,
        }
    }
}

/// The storage width of a UTF-8 text column.
#[derive(Debug, PartialEq, Eq, Clone, Copy, Structural)]
pub enum TextKind {
    Utf8,
    LargeUtf8,
    Utf8View,
}

impl TextKind {
    /// The physical type of a column of this kind.
    pub open spec fn spec_type(self) -> PhysicalType {
        match self {
            TextKind::Utf8 => PhysicalType::Utf8,
            TextKind::LargeUtf8 => PhysicalType::LargeUtf8,
            TextKind::Utf8View => PhysicalType::Utf8View,
        }
    }

    /// The physical type of a column of this kind.
    pub fn physical_type(&self) -> (t: PhysicalType)
        ensures
            t == self.spec_type(),
    {
        match self {
            TextKind::Utf8 => PhysicalType::Utf8,
            TextKind::LargeUtf8 => PhysicalType::LargeUtf8,
            TextKind::Utf8View => PhysicalType::Utf8View,
        }
    }
}

/// Whether `t` is one of the types rendered by the engine's generic default
/// formatter rather than by a dedicated rule.
pub open spec fn is_fallback_type(t: PhysicalType) -> bool {
    match t {
        PhysicalType::Date32
        | PhysicalType::Date64
        | PhysicalType::Time32
        | PhysicalType::Time64
        | PhysicalType::Timestamp
        | PhysicalType::Other => true,
        _ => false,
    }
}

/// One column of a batch, column-major: a typed vector with one optional
/// value per row, `None` marking a null cell.
///
/// Columns of date, time, timestamp or unrecognized type carry the text the
/// engine's generic default formatter produced for each cell (`Fallback`),
/// or only a validity vector when that formatter cannot render the type at
/// all (`Unsupported`).
#[derive(Debug)]
pub enum Column {
    Boolean { cells: Vec<Option<bool>> },
    Int { width: IntWidth, cells: Vec<Option<i128>> },
    Float { width: FloatWidth, cells: Vec<Option<FloatValue>> },
    Decimal128 { precision: u8, scale: i8, cells: Vec<Option<i128>> },
    Decimal256 { precision: u8, scale: i8, cells: Vec<Option<String>> },
    Text { kind: TextKind, cells: Vec<Option<String>> },
    Dictionary { key_width: IntWidth, keys: Vec<Option<usize>>, values: Box<Column> },
    Null { len: usize },
    Fallback { data_type: PhysicalType, cells: Vec<Option<String>> },
    Unsupported { data_type: PhysicalType, valid: Vec<bool> },
}

impl Column {
    /// The number of rows in this column.
    pub open spec fn spec_len(self) -> nat {
        match self {
            Column::Boolean { cells } => cells@.len(),
            Column::Int { cells, .. } => cells@.len(),
            Column::Float { cells, .. } => cells@.len(),
            Column::Decimal128 { cells, .. } => cells@.len(),
            Column::Decimal256 { cells, .. } => cells@.len(),
            Column::Text { cells, .. } => cells@.len(),
            Column::Dictionary { keys, .. } => keys@.len(),
            Column::Null { len } => len as nat,
            Column::Fallback { cells, .. } => cells@.len(),
            Column::Unsupported { valid, .. } => valid@.len(),
        }
    }

    /// The number of rows in this column.
    pub fn len(&self) -> (r: usize)
        ensures
            r as nat == self.spec_len(),
    {
        match self {
            Column::Boolean { cells } => cells.len(),
            Column::Int { cells, .. } => cells.len(),
            Column::Float { cells, .. } => cells.len(),
            Column::Decimal128 { cells, .. } => cells.len(),
            Column::Decimal256 { cells, .. } => cells.len(),
            Column::Text { cells, .. } => cells.len(),
            Column::Dictionary { keys, .. } => keys.len(),
            Column::Null { len } => *len,
            Column::Fallback { cells, .. } => cells.len(),
            Column::Unsupported { valid, .. } => valid.len(),
        }
    }

    /// Whether this column declares physical type `t`.
    pub open spec fn spec_matches_type(self, t: PhysicalType) -> bool
        decreases self,
    {
        match self {
            Column::Boolean { .. } => t == PhysicalType::Boolean,
            Column::Int { width, .. } => t == width.spec_type(),
            Column::Float { width, .. } => t == width.spec_type(),
            Column::Decimal128 { precision, scale, .. } => t == PhysicalType::Decimal128(
                precision,
                scale,
            ),
            Column::Decimal256 { precision, scale, .. } => t == PhysicalType::Decimal256(
                precision,
                scale,
            ),
            Column::Text { kind, .. } => t == kind.spec_type(),
            Column::Dictionary { key_width, values, .. } => match t {
                PhysicalType::Dictionary(key_type, value_type) => {
                    &&& *key_type == key_width.spec_type()
                    &&& values.spec_matches_type(*value_type)
                },
                _ => false,
            },
            Column::Null { .. } => t == PhysicalType::Null,
            Column::Fallback { data_type, .. } => t == data_type,
            Column::Unsupported { data_type, .. } => t == data_type,
        }
    }

    /// The structural soundness of a column: integer values fit their
    /// declared width, finite floats and raw decimal digits carry decimal
    /// text, dictionary keys point into the values column, and fallback
    /// columns carry only types without a dedicated rendering rule.
    pub open spec fn wf(self) -> bool
        decreases self,
    {
        match self {
            Column::Boolean { .. } => true,
            Column::Int { width, cells } => forall|i: int|
                0 <= i < cells@.len() && #[trigger] cells@[i] is Some ==> width.spec_in_range(
                    cells@[i]->0 as int,
                ),
            Column::Float { cells, .. } => forall|i: int|
                0 <= i < cells@.len() && #[trigger] cells@[i] is Some ==> cells@[i]->0.wf(),
            Column::Decimal128 { .. } => true,
            Column::Decimal256 { cells, .. } => forall|i: int|
                0 <= i < cells@.len() && #[trigger] cells@[i] is Some ==> is_int_literal(
                    cells@[i]->0@,
                ),
            Column::Text { .. } => true,
            Column::Dictionary { keys, values, .. } => {
                &&& values.wf()
                &&& forall|i: int|
                    0 <= i < keys@.len() && #[trigger] keys@[i] is Some ==> (keys@[i]->0 as nat)
                        < values.spec_len()
            },
            Column::Null { .. } => true,
            Column::Fallback { data_type, .. } => is_fallback_type(data_type),
            Column::Unsupported { data_type, .. } => is_fallback_type(data_type),
        }
    }
}

/// A rectangular slice of rows for one schema: one column per declared
/// field, each with one cell per row.
#[derive(Debug)]
pub struct Batch {
    pub schema: Schema,
    pub columns: Vec<Column>,
    pub num_rows: usize,
}

impl Batch {
    /// The structural soundness of a batch: one well-formed column per
    /// field, each of the declared type and with one cell per row.
    pub open spec fn wf(self) -> bool {
        &&& self.columns@.len() == self.schema.fields@.len()
        &&& forall|j: int| 0 <= j < self.columns@.len() ==> (#[trigger] self.columns@[j]).wf()
        &&& forall|j: int|
            0 <= j < self.columns@.len() ==> (#[trigger] self.columns@[j]).spec_len()
                == self.num_rows as nat
        &&& forall|j: int|
            0 <= j < self.columns@.len() ==> (#[trigger] self.columns@[j]).spec_matches_type(
                self.schema.fields@[j].data_type,
            )
    }
}

} // verus!

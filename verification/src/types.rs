//! The physical type universe of result columns and the coarse logical
//! categories used for comparison, together with the single-character tag
//! encoding persisted in expectation files.

use vstd::prelude::*;

verus! {

/// The physical data type of a result column, as reported by the engine.
///
/// Decimal variants carry the declared precision and scale.  A dictionary
/// type wraps the key type and the value type of the encoding.  `Other`
/// stands for every engine-reported type that the normalizer has no special
/// handling for; such columns are rendered by the engine's generic default
/// formatter.
#[derive(Debug, PartialEq, Eq)]
pub enum PhysicalType {
    Null,
    Boolean,
    Int8,
    Int16,
    Int32,
    Int64,
    UInt8,
    UInt16,
    UInt32,
    UInt64,
    Float16,
    Float32,
    Float64,
    Decimal128(u8, i8),
    Decimal256(u8, i8),
    Utf8,
    LargeUtf8,
    Utf8View,
    Date32,
    Date64,
    Time32,
    Time64,
    Timestamp,
    Dictionary(Box<PhysicalType>, Box<PhysicalType>),
    Other,
}

impl PhysicalType {
    /// An owned copy of this type, equal to it.
    pub fn duplicate(&self) -> (r: Self)
        ensures
            r == *self,
        decreases *self,
    {
        match self {
            PhysicalType::Null => PhysicalType::Null,
            PhysicalType::Boolean => PhysicalType::Boolean,
            PhysicalType::Int8 => PhysicalType::Int8,
            PhysicalType::Int16 => PhysicalType::Int16,
            PhysicalType::Int32 => PhysicalType::Int32,
            PhysicalType::Int64 => PhysicalType::Int64,
            PhysicalType::UInt8 => PhysicalType::UInt8,
            PhysicalType::UInt16 => PhysicalType::UInt16,
            PhysicalType::UInt32 => PhysicalType::UInt32,
            PhysicalType::UInt64 => PhysicalType::UInt64,
            PhysicalType::Float16 => PhysicalType::Float16,
            PhysicalType::Float32 => PhysicalType::Float32,
            PhysicalType::Float64 => PhysicalType::Float64,
            PhysicalType::Decimal128(p, s) => PhysicalType::Decimal128(*p, *s),
            PhysicalType::Decimal256(p, s) => PhysicalType::Decimal256(*p, *s),
            PhysicalType::Utf8 => PhysicalType::Utf8,
            PhysicalType::LargeUtf8 => PhysicalType::LargeUtf8,
            PhysicalType::Utf8View => PhysicalType::Utf8View,
            PhysicalType::Date32 => PhysicalType::Date32,
            PhysicalType::Date64 => PhysicalType::Date64,
            PhysicalType::Time32 => PhysicalType::Time32,
            PhysicalType::Time64 => PhysicalType::Time64,
            PhysicalType::Timestamp => PhysicalType::Timestamp,
            PhysicalType::Dictionary(key_type, value_type) => PhysicalType::Dictionary(
                Box::new(key_type.duplicate()),
                Box::new(value_type.duplicate()),
            ),
            PhysicalType::Other => PhysicalType::Other,
        }
    }

    /// Structural equality of two physical types.
    pub fn equals(&self, other: &Self) -> (r: bool)
        ensures
            r == (*self == *other),
        decreases *self,
    {
        match (self, other) {
            (PhysicalType::Null, PhysicalType::Null) => true,
            (PhysicalType::Boolean, PhysicalType::Boolean) => true,
            (PhysicalType::Int8, PhysicalType::Int8) => true,
            (PhysicalType::Int16, PhysicalType::Int16) => true,
            (PhysicalType::Int32, PhysicalType::Int32) => true,
            (PhysicalType::Int64, PhysicalType::Int64) => true,
            (PhysicalType::UInt8, PhysicalType::UInt8) => true,
            (PhysicalType::UInt16, PhysicalType::UInt16) => true,
            (PhysicalType::UInt32, PhysicalType::UInt32) => true,
            (PhysicalType::UInt64, PhysicalType::UInt64) => true,
            (PhysicalType::Float16, PhysicalType::Float16) => true,
            (PhysicalType::Float32, PhysicalType::Float32) => true,
            (PhysicalType::Float64, PhysicalType::Float64) => true,
            (PhysicalType::Decimal128(p1, s1), PhysicalType::Decimal128(p2, s2)) => p1 == p2
                && s1 == s2,
            (PhysicalType::Decimal256(p1, s1), PhysicalType::Decimal256(p2, s2)) => p1 == p2
                && s1 == s2,
            (PhysicalType::Utf8, PhysicalType::Utf8) => true,
            (PhysicalType::LargeUtf8, PhysicalType::LargeUtf8) => true,
            (PhysicalType::Utf8View, PhysicalType::Utf8View) => true,
            (PhysicalType::Date32, PhysicalType::Date32) => true,
            (PhysicalType::Date64, PhysicalType::Date64) => true,
            (PhysicalType::Time32, PhysicalType::Time32) => true,
            (PhysicalType::Time64, PhysicalType::Time64) => true,
            (PhysicalType::Timestamp, PhysicalType::Timestamp) => true,
            (
                PhysicalType::Dictionary(key_type, value_type),
                PhysicalType::Dictionary(other_key, other_value),
            ) => key_type.equals(other_key) && value_type.equals(other_value),
            (PhysicalType::Other, PhysicalType::Other) => true,
            _ => false,
        }
    }
}

/// The coarse logical category of a column, used to build the per-column
/// tags of an expectation file.
#[derive(Debug, PartialEq, Eq, Clone, Structural)]
pub enum ArrowColumnType {
    Boolean,
    DateTime,
    Integer,
    Float,
    Text,
    Timestamp,
    Another,
}

/// Whether `t` is one of the integer physical types, of any width or sign.
pub open spec fn spec_is_integer_type(t: PhysicalType) -> bool {
    match t {
        PhysicalType::Int8
        | PhysicalType::Int16
        | PhysicalType::Int32
        | PhysicalType::Int64
        | PhysicalType::UInt8
        | PhysicalType::UInt16
        | PhysicalType::UInt32
        | PhysicalType::UInt64 => true,
        _ => false,
    }
}

/// Whether `t` is one of the UTF-8 text physical types, of any storage width.
pub open spec fn spec_is_text_type(t: PhysicalType) -> bool {
    match t {
        PhysicalType::Utf8 | PhysicalType::LargeUtf8 | PhysicalType::Utf8View => true,
        _ => false,
    }
}

/// The category of each physical type: a total, deterministic table.
///
/// Dictionary types map through their value type: integer keys over UTF-8
/// values give `Text`, every other dictionary shape gives `Another`.
/// Unrecognized types give `Another` rather than failing, so that new
/// engine-reported types remain acceptable.
pub open spec fn spec_classify(t: PhysicalType) -> ArrowColumnType {
    match t {
        PhysicalType::Boolean => ArrowColumnType::Boolean,
        PhysicalType::Int8
        | PhysicalType::Int16
        | PhysicalType::Int32
        | PhysicalType::Int64
        | PhysicalType::UInt8
        | PhysicalType::UInt16
        | PhysicalType::UInt32
        | PhysicalType::UInt64 => ArrowColumnType::Integer,
        PhysicalType::Float16
        | PhysicalType::Float32
        | PhysicalType::Float64
        | PhysicalType::Decimal128(_, _)
        | PhysicalType::Decimal256(_, _) => ArrowColumnType::Float,
        PhysicalType::Utf8 | PhysicalType::LargeUtf8 | PhysicalType::Utf8View => {
            ArrowColumnType::Text
        },
        PhysicalType::Date32 | PhysicalType::Date64 | PhysicalType::Time32
        | PhysicalType::Time64 => ArrowColumnType::DateTime,
        PhysicalType::Timestamp => ArrowColumnType::Timestamp,
        PhysicalType::Dictionary(key_type, value_type) => {
            if spec_is_integer_type(*key_type) && spec_is_text_type(*value_type) {
                ArrowColumnType::Text
            } else {
                ArrowColumnType::Another
            }
        },
        _ => ArrowColumnType::Another,
    }
}

/// Maps a physical type to its logical category.
pub fn classify(t: &PhysicalType) -> (r: ArrowColumnType)
    ensures
        r == spec_classify(*t),
{
    match t {
        PhysicalType::Boolean => ArrowColumnType::Boolean,
        PhysicalType::Int8
        | PhysicalType::Int16
        | PhysicalType::Int32
        | PhysicalType::Int64
        | PhysicalType::UInt8
        | PhysicalType::UInt16
        | PhysicalType::UInt32
        | PhysicalType::UInt64 => ArrowColumnType::Integer,
        PhysicalType::Float16
        | PhysicalType::Float32
        | PhysicalType::Float64
        | PhysicalType::Decimal128(_, _)
        | PhysicalType::Decimal256(_, _) => ArrowColumnType::Float,
        PhysicalType::Utf8 | PhysicalType::LargeUtf8 | PhysicalType::Utf8View => {
            ArrowColumnType::Text
        },
        PhysicalType::Date32 | PhysicalType::Date64 | PhysicalType::Time32
        | PhysicalType::Time64 => ArrowColumnType::DateTime,
        PhysicalType::Timestamp => ArrowColumnType::Timestamp,
        PhysicalType::Dictionary(key_type, value_type) => {
            let key_is_integer = match &**key_type {
                PhysicalType::Int8
                | PhysicalType::Int16
                | PhysicalType::Int32
                | PhysicalType::Int64
                | PhysicalType::UInt8
                | PhysicalType::UInt16
                | PhysicalType::UInt32
                | PhysicalType::UInt64 => true,
                _ => false,
            };
            let value_is_text = match &**value_type {
                PhysicalType::Utf8 | PhysicalType::LargeUtf8 | PhysicalType::Utf8View => true,
                _ => false,
            };
            if key_is_integer && value_is_text {
                ArrowColumnType::Text
            } else {
                ArrowColumnType::Another
            }
        },
        _ => ArrowColumnType::Another,
    }
}

/// The single-character tag of a category.
pub open spec fn spec_to_char(t: ArrowColumnType) -> char {
    match t {
        ArrowColumnType::Boolean => 'B',
        ArrowColumnType::DateTime => 'D',
        ArrowColumnType::Integer => 'I',
        ArrowColumnType::Timestamp => 'P',
        ArrowColumnType::Float => 'R',
        ArrowColumnType::Text => 'T',
        ArrowColumnType::Another => '?',
    }
}

/// The category a tag character decodes to.  Every character outside the six
/// named tags decodes to `Another`, so tags written by other producers are
/// accepted rather than rejected.
pub open spec fn spec_from_char(value: char) -> Option<ArrowColumnType> {
    match value {
        'B' => Some(ArrowColumnType::Boolean),
        'D' => Some(ArrowColumnType::DateTime),
        'I' => Some(ArrowColumnType::Integer),
        'P' => Some(ArrowColumnType::Timestamp),
        'R' => Some(ArrowColumnType::Float),
        'T' => Some(ArrowColumnType::Text),
        _ => Some(ArrowColumnType::Another),
    }
}

impl ArrowColumnType {
    /// Decodes a tag character; total, never `None`.
    pub fn from_char(value: char) -> (r: Option<Self>)
        ensures
            r == spec_from_char(value),
    {
        match value {
            'B' => Some(Self::Boolean),
            'D' => Some(Self::DateTime),
            'I' => Some(Self::Integer),
            'P' => Some(Self::Timestamp),
            'R' => Some(Self::Float),
            'T' => Some(Self::Text),
            _ => Some(Self::Another),
        }
    }

    /// Encodes this category as its tag character.
    pub fn to_char(&self) -> (r: char)
        ensures
            r == spec_to_char(*self),
    {
        match self {
            Self::Boolean => 'B',
            Self::DateTime => 'D',
            Self::Integer => 'I',
            Self::Timestamp => 'P',
            Self::Float => 'R',
            Self::Text => 'T',
            Self::Another => '?',
        }
    }
}

/// Every category round-trips through its tag character: encoding a category
/// and decoding the character yields the same category again.
pub proof fn lemma_category_char_round_trip(t: ArrowColumnType)
    ensures
        spec_from_char(spec_to_char(t)) == Some(t),
{
}

/// Each of the six named tag characters round-trips through its category:
/// decoding the character and encoding the resulting category yields the
/// same character again.
pub proof fn lemma_char_category_round_trip(value: char)
    requires
        value == 'B' || value == 'D' || value == 'I' || value == 'P' || value == 'R' || value
            == 'T',
    ensures
        spec_from_char(value) is Some,
        spec_to_char(spec_from_char(value)->0) == value,
{
}

} // verus!

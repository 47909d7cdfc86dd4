//! Cell values as the workspace holds them.
use vstd::prelude::*;

verus! {

/// One cell of a result row. Floating-point values are held by their IEEE
/// 754 bit pattern, and dates and times by the ISO 8601 text that renders
/// them, so that every value is plain data.
#[derive(Debug, PartialEq, Eq)]
pub enum CellValue {
    Null,
    Boolean(bool),
    Integer(i64),
    Unsigned(u64),
    Float(u64),
    Text(String),
    Bytes(Vec<u8>),
    Date(String),
    Time(String),
    DateTime(String),
    Timestamp(String),
    Unsupported { data_type: String, preview: String },
}

/// A cell by value.
#[allow(inconsistent_fields)]
pub enum CellView {
    Null,
    Boolean(bool),
    Integer(i64),
    Unsigned(u64),
    Float(u64),
    Text(Seq<char>),
    Bytes(Seq<u8>),
    Date(Seq<char>),
    Time(Seq<char>),
    DateTime(Seq<char>),
    Timestamp(Seq<char>),
    Unsupported { data_type: Seq<char>, preview: Seq<char> },
}

impl View for CellValue {
    type V = CellView;

    open spec fn view(&self) -> CellView {
        match *self {
            CellValue::Null => CellView::Null,
            CellValue::Boolean(b) => CellView::Boolean(b),
            CellValue::Integer(i) => CellView::Integer(i),
            CellValue::Unsigned(u) => CellView::Unsigned(u),
            CellValue::Float(f) => CellView::Float(f),
            CellValue::Text(t) => CellView::Text(t@),
            CellValue::Bytes(b) => CellView::Bytes(b@),
            CellValue::Date(t) => CellView::Date(t@),
            CellValue::Time(t) => CellView::Time(t@),
            CellValue::DateTime(t) => CellView::DateTime(t@),
            CellValue::Timestamp(t) => CellView::Timestamp(t@),
            CellValue::Unsupported { data_type, preview } => CellView::Unsupported {
                data_type: data_type@,
                preview: preview@,
            },
        }
    }
}

/// Cells by value.
pub open spec fn cells_view(s: Seq<CellValue>) -> Seq<CellView> {
    s.map_values(|c: CellValue| c@)
}

impl Clone for CellValue {
    fn clone(&self) -> (r: Self)
        ensures
            r@ == self@,
    {
        match self {
            CellValue::Null => CellValue::Null,
            CellValue::Boolean(b) => CellValue::Boolean(*b),
            CellValue::Integer(i) => CellValue::Integer(*i),
            CellValue::Unsigned(u) => CellValue::Unsigned(*u),
            CellValue::Float(f) => CellValue::Float(*f),
            CellValue::Text(t) => CellValue::Text(t.clone()),
            CellValue::Bytes(b) => {
                let c = b.clone();
                assert(c@ =~= b@);
                CellValue::Bytes(c)
            },
            CellValue::Date(t) => CellValue::Date(t.clone()),
            CellValue::Time(t) => CellValue::Time(t.clone()),
            CellValue::DateTime(t) => CellValue::DateTime(t.clone()),
            CellValue::Timestamp(t) => CellValue::Timestamp(t.clone()),
            CellValue::Unsupported { data_type, preview } => CellValue::Unsupported {
                data_type: data_type.clone(),
                preview: preview.clone(),
            },
        }
    }
}

impl CellValue {
    /// Whether the driver could not decode this value.
    pub fn is_unsupported(&self) -> (r: bool)
        ensures
            r == (*self is Unsupported),
    {
        matches!(self, CellValue::Unsupported { .. })
    }
}

} // verus!

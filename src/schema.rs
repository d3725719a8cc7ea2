//! The fixed record layout of the prescribing extracts.
use vstd::prelude::*;

verus! {

/// The logical type of a column.
#[derive(Clone, Copy, Debug, PartialEq, Eq, Structural)]
pub enum ColumnType {
    /// Signed 64-bit integer.
    Int64,
    /// 64-bit floating point.
    Float64,
    /// UTF-8 text.
    Utf8,
}

/// One column of the record: its header name and its logical type.
#[derive(Clone, Debug)]
pub struct ColumnDef {
    pub name: String,
    pub kind: ColumnType,
}

impl View for ColumnDef {
    type V = (Seq<char>, ColumnType);

    open spec fn view(&self) -> (Seq<char>, ColumnType) {
        (self.name@, self.kind)
    }
}

/// The record layout, in header order.
pub open spec fn record_layout() -> Seq<(Seq<char>, ColumnType)> {
    seq![
        ("YEAR_MONTH"@, ColumnType::Int64),
        ("REGIONAL_OFFICE_NAME"@, ColumnType::Utf8),
        ("REGIONAL_OFFICE_CODE"@, ColumnType::Utf8),
        ("ICB_NAME"@, ColumnType::Utf8),
        ("ICB_CODE"@, ColumnType::Utf8),
        ("PCO_NAME"@, ColumnType::Utf8),
        ("PCO_CODE"@, ColumnType::Utf8),
        ("PRACTICE_NAME"@, ColumnType::Utf8),
        ("PRACTICE_CODE"@, ColumnType::Utf8),
        ("ADDRESS_1"@, ColumnType::Utf8),
        ("ADDRESS_2"@, ColumnType::Utf8),
        ("ADDRESS_3"@, ColumnType::Utf8),
        ("ADDRESS_4"@, ColumnType::Utf8),
        ("POSTCODE"@, ColumnType::Utf8),
        ("BNF_CHEMICAL_SUBSTANCE"@, ColumnType::Utf8),
        ("CHEMICAL_SUBSTANCE_BNF_DESCR"@, ColumnType::Utf8),
        ("BNF_CODE"@, ColumnType::Utf8),
        ("BNF_DESCRIPTION"@, ColumnType::Utf8),
        ("BNF_CHAPTER_PLUS_CODE"@, ColumnType::Utf8),
        ("QUANTITY"@, ColumnType::Float64),
        ("ITEMS"@, ColumnType::Int64),
        ("TOTAL_QUANTITY"@, ColumnType::Float64),
        ("ADQUSAGE"@, ColumnType::Float64),
        ("NIC"@, ColumnType::Float64),
        ("ACTUAL_COST"@, ColumnType::Float64),
        ("UNIDENTIFIED"@, ColumnType::Utf8),
    ]
}

fn column(name: &str, kind: ColumnType) -> (r: ColumnDef)
    ensures
        r@ == (name@, kind),
{
    ColumnDef { name: name.to_owned(), kind }
}

/// The record layout as a table of columns; both the CSV reader and any
/// check of a header consult it.
pub fn record_schema() -> (r: Vec<ColumnDef>)
    ensures
        r@.map_values(|c: ColumnDef| c@) == record_layout(),
{
    let mut cols: Vec<ColumnDef> = Vec::new();
    cols.push(column("YEAR_MONTH", ColumnType::Int64));
    cols.push(column("REGIONAL_OFFICE_NAME", ColumnType::Utf8));
    cols.push(column("REGIONAL_OFFICE_CODE", ColumnType::Utf8));
    cols.push(column("ICB_NAME", ColumnType::Utf8));
    cols.push(column("ICB_CODE", ColumnType::Utf8));
    cols.push(column("PCO_NAME", ColumnType::Utf8));
    cols.push(column("PCO_CODE", ColumnType::Utf8));
    cols.push(column("PRACTICE_NAME", ColumnType::Utf8));
    cols.push(column("PRACTICE_CODE", ColumnType::Utf8));
    cols.push(column("ADDRESS_1", ColumnType::Utf8));
    cols.push(column("ADDRESS_2", ColumnType::Utf8));
    cols.push(column("ADDRESS_3", ColumnType::Utf8));
    cols.push(column("ADDRESS_4", ColumnType::Utf8));
    cols.push(column("POSTCODE", ColumnType::Utf8));
    cols.push(column("BNF_CHEMICAL_SUBSTANCE", ColumnType::Utf8));
    cols.push(column("CHEMICAL_SUBSTANCE_BNF_DESCR", ColumnType::Utf8));
    cols.push(column("BNF_CODE", ColumnType::Utf8));
    cols.push(column("BNF_DESCRIPTION", ColumnType::Utf8));
    cols.push(column("BNF_CHAPTER_PLUS_CODE", ColumnType::Utf8));
    cols.push(column("QUANTITY", ColumnType::Float64));
    cols.push(column("ITEMS", ColumnType::Int64));
    cols.push(column("TOTAL_QUANTITY", ColumnType::Float64));
    cols.push(column("ADQUSAGE", ColumnType::Float64));
    cols.push(column("NIC", ColumnType::Float64));
    cols.push(column("ACTUAL_COST", ColumnType::Float64));
    cols.push(column("UNIDENTIFIED", ColumnType::Utf8));
    assert(cols@.map_values(|c: ColumnDef| c@) =~= record_layout());
    cols
}

} // verus!

//! Typing CSV text under the record layout and encoding it as Parquet.
use vstd::prelude::*;
use std::io::Cursor;
use std::sync::Arc;
use polars::prelude::{
    CsvReadOptions, DataFrame, DataType, Field, ParquetWriter, PolarsError, Schema, SerReader,
};
use crate::error::ConvertError;
use crate::schema::{record_layout, record_schema, ColumnDef, ColumnType};

verus! {

#[verifier::external_type_specification]
#[verifier::external_body]
pub struct ExDataFrame(DataFrame);

// A data frame indexes into its columns, so their type must be known too.
#[verifier::external_type_specification]
#[verifier::external_body]
pub struct ExFrameColumn(polars::prelude::Column);

#[verifier::external_type_specification]
#[verifier::external_body]
pub struct ExPolarsError(PolarsError);

#[verifier::external_type_specification]
#[verifier::external_body]
pub struct ExDataType(DataType);

/// Whether polars' CSV reader accepts `text`, with a header row, typing each
/// field by the column table `layout` (names and types in order).
pub uninterp spec fn csv_parses(text: Seq<u8>, layout: Seq<(Seq<char>, ColumnType)>) -> bool;

/// Relies on polars' CsvReader::finish, configured to expect a header row
/// and to type every field by the schema of `cols` (Int64, Float64 and
/// String for the three column types) rather than by inference. Whether it
/// accepts the text depends on the text and the schema alone: the reader
/// splits the text into chunks only at line ends outside quotes
/// (polars-io csv/read/parser.rs, `CountLines`), and each row is typed the
/// same whichever chunk holds it. How many chunks there are depends on the
/// thread count, so nothing is claimed of the frame's layout.
#[verifier::external_body]
fn read_csv(text: Vec<u8>, cols: &Vec<ColumnDef>) -> (r: Result<DataFrame, PolarsError>)
    ensures
        r is Ok == csv_parses(text@, cols@.map_values(|c: ColumnDef| c@)),
{
    let fields = cols.iter().map(|c| Field::new(c.name.as_str().into(), match c.kind {
        ColumnType::Int64 => DataType::Int64,
        ColumnType::Float64 => DataType::Float64,
        ColumnType::Utf8 => DataType::String,
    }));
    let schema = Schema::from_iter(fields);
    let reader = CsvReadOptions::default().with_has_header(true).with_schema(Some(Arc::new(schema)));
    reader.into_reader_with_file_handle(Cursor::new(text)).finish()
}

/// Relies on polars' ParquetWriter::finish, writing into memory. Its row
/// groups follow the frame's chunks, so the bytes are not named here.
#[verifier::external_body]
fn write_parquet(df: &mut DataFrame) -> (r: Result<Vec<u8>, PolarsError>) {
    let mut out: Vec<u8> = Vec::new();
    ParquetWriter::new(&mut out).finish(df)?;
    Ok(out)
}

/// Reads CSV `text` under the record layout and encodes the whole table as
/// Parquet. Text without even a header gives `ParseError`, as does a field
/// that does not fit its column's type; a table the encoder rejects gives
/// `EncodeError`, and otherwise the encoder's bytes are returned.
pub fn convert_data(text: Vec<u8>) -> (r: Result<Vec<u8>, ConvertError>)
    ensures
        text@.len() == 0 ==> r == Err::<Vec<u8>, ConvertError>(ConvertError::ParseError),
        text@.len() > 0 && !csv_parses(text@, record_layout()) ==> r == Err::<
            Vec<u8>,
            ConvertError,
        >(ConvertError::ParseError),
        text@.len() > 0 && csv_parses(text@, record_layout()) ==> (r is Ok || r == Err::<
            Vec<u8>,
            ConvertError,
        >(ConvertError::EncodeError)),
        r is Ok ==> text@.len() > 0 && csv_parses(text@, record_layout()),
        r == Err::<Vec<u8>, ConvertError>(ConvertError::ParseError) <==> (text@.len() == 0
            || !csv_parses(text@, record_layout())),
{
    if text.len() == 0 {
        return Err(ConvertError::ParseError);
    }
    let cols = record_schema();
    let mut frame = match read_csv(text, &cols) {
        Ok(f) => f,
        Err(_) => return Err(ConvertError::ParseError),
    };
    encoded(write_parquet(&mut frame))
}

/// The result of a conversion once the table was read, from what the
/// Parquet writer returned: its bytes, or `EncodeError` when it failed.
pub fn encoded(written: Result<Vec<u8>, PolarsError>) -> (r: Result<Vec<u8>, ConvertError>)
    ensures
        match written {
            Ok(b) => r matches Ok(v) && v@ == b@,
            Err(_) => r == Err::<Vec<u8>, ConvertError>(ConvertError::EncodeError),
        },
{
    match written {
        Ok(bytes) => Ok(bytes),
        Err(_) => Err(ConvertError::EncodeError),
    }
}

/// The header names of a column table.
pub fn column_names(cols: &Vec<ColumnDef>) -> (r: Vec<String>)
    ensures
        r@.map_values(|n: String| n@) == cols@.map_values(|c: ColumnDef| c@.0),
{
    let mut out: Vec<String> = Vec::new();
    let mut i: usize = 0;
    while i < cols.len()
        invariant
            i <= cols@.len(),
            out@.map_values(|n: String| n@) == cols@.subrange(0, i as int).map_values(
                |c: ColumnDef| c@.0,
            ),
        decreases cols.len() - i,
    {
        let n = cols[i].name.clone();
        out.push(n);
        assert(cols@.subrange(0, i + 1).map_values(|c: ColumnDef| c@.0) =~= cols@.subrange(
            0,
            i as int,
        ).map_values(|c: ColumnDef| c@.0).push(cols@[i as int]@.0));
        assert(out@.map_values(|n: String| n@) =~= cols@.subrange(0, i + 1).map_values(
            |c: ColumnDef| c@.0,
        ));
        i = i + 1;
    }
    assert(cols@.subrange(0, i as int) =~= cols@);
    out
}

} // verus!

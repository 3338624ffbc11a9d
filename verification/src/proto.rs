use vstd::prelude::*;

verus! {

/// One partition column of a wire record: its name and, where the record
/// carries one, the column's type. A carried type is either resolved to the
/// engine's representation or comes with the reason why it could not be.
#[derive(Debug, Clone, PartialEq, Eq)]
pub struct PartitionColumn<T> {
    pub name: String,
    pub arrow_type: Option<Result<T, String>>,
}

/// One sort key of a wire record. A carried expression is either resolved
/// against the built-in function registry or comes with the reason why it
/// could not be.
#[derive(Debug, Clone, PartialEq, Eq)]
pub struct SortExprNode<E> {
    pub expr: Option<Result<E, String>>,
    pub asc: bool,
    pub nulls_first: bool,
}

/// One lexicographic ordering of a wire record: its sort keys, most
/// significant first.
#[derive(Debug, Clone, PartialEq, Eq)]
pub struct SortOrder<E> {
    pub sort_expr_nodes: Vec<SortExprNode<E>>,
}

/// CSV read options as they arrive on the wire. Single-character settings are
/// short byte strings; text is raw bytes; compression is a number.
#[derive(Debug, Clone, PartialEq, Eq)]
pub struct CsvReadOptions<T, E> {
    pub has_header: Option<bool>,
    pub delimiter: Option<Vec<u8>>,
    pub quote: Option<Vec<u8>>,
    pub terminator: Option<Vec<u8>>,
    pub escape: Option<Vec<u8>>,
    pub comment: Option<Vec<u8>>,
    pub newlines_in_values: bool,
    pub schema_infer_max_records: Option<u64>,
    pub file_extension: Option<Vec<u8>>,
    pub table_partition_cols: Vec<PartitionColumn<T>>,
    pub file_compression_type: Option<i32>,
    pub file_sort_order: Vec<SortOrder<E>>,
    pub null_regex: Option<Vec<u8>>,
    pub truncated_rows: bool,
}

/// The byte string of an optional wire field, as a sequence.
pub open spec fn opt_bytes(field: Option<Vec<u8>>) -> Option<Seq<u8>> {
    match field {
        Some(b) => Some(b@),
        None => None,
    }
}

} // verus!

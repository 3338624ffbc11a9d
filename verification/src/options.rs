use vstd::prelude::*;

verus! {

/// How a data file is compressed.
#[derive(Debug, Clone, Copy, PartialEq, Eq, Structural)]
pub enum FileCompressionType {
    Gzip,
    Bzip2,
    Xz,
    Zstd,
    Uncompressed,
}

/// One resolved sort key.
#[derive(Debug, Clone, PartialEq, Eq)]
pub struct SortExpr<E> {
    pub expr: E,
    pub asc: bool,
    pub nulls_first: bool,
}

/// Native CSV read configuration. `S`, `T` and `E` are the engine's schema,
/// column type and expression; the configuration only carries them.
#[derive(Debug, Clone, PartialEq, Eq)]
pub struct CsvReadOptions<S, T, E> {
    pub has_header: bool,
    pub delimiter: u8,
    pub quote: u8,
    pub terminator: Option<u8>,
    pub escape: Option<u8>,
    pub comment: Option<u8>,
    pub newlines_in_values: bool,
    pub schema: Option<S>,
    pub schema_infer_max_records: usize,
    pub file_extension: String,
    pub table_partition_cols: Vec<(String, T)>,
    pub file_compression_type: FileCompressionType,
    pub file_sort_order: Vec<Vec<SortExpr<E>>>,
    pub null_regex: Option<String>,
    pub truncated_rows: bool,
}

/// The mathematical content of a [`CsvReadOptions`].
pub struct CsvReadOptionsView<S, T, E> {
    pub has_header: bool,
    pub delimiter: u8,
    pub quote: u8,
    pub terminator: Option<u8>,
    pub escape: Option<u8>,
    pub comment: Option<u8>,
    pub newlines_in_values: bool,
    pub schema: Option<S>,
    pub schema_infer_max_records: usize,
    pub file_extension: Seq<char>,
    pub table_partition_cols: Seq<(String, T)>,
    pub file_compression_type: FileCompressionType,
    pub file_sort_order: Seq<Seq<SortExpr<E>>>,
    pub null_regex: Option<Seq<char>>,
    pub truncated_rows: bool,
}

/// The rows of a vector of vectors, each as a sequence.
pub open spec fn rows<X>(v: Vec<Vec<X>>) -> Seq<Seq<X>> {
    Seq::new(v@.len(), |i: int| v@[i]@)
}

/// The characters of an optional string.
pub open spec fn opt_text(s: Option<String>) -> Option<Seq<char>> {
    match s {
        Some(t) => Some(t@),
        None => None,
    }
}

impl<S, T, E> View for CsvReadOptions<S, T, E> {
    type V = CsvReadOptionsView<S, T, E>;

    open spec fn view(&self) -> CsvReadOptionsView<S, T, E> {
        CsvReadOptionsView {
            has_header: self.has_header,
            delimiter: self.delimiter,
            quote: self.quote,
            terminator: self.terminator,
            escape: self.escape,
            comment: self.comment,
            newlines_in_values: self.newlines_in_values,
            schema: self.schema,
            schema_infer_max_records: self.schema_infer_max_records,
            file_extension: self.file_extension@,
            table_partition_cols: self.table_partition_cols@,
            file_compression_type: self.file_compression_type,
            file_sort_order: rows(self.file_sort_order),
            null_regex: opt_text(self.null_regex),
            truncated_rows: self.truncated_rows,
        }
    }
}

} // verus!

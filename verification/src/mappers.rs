use vstd::prelude::*;
use vstd::slice::slice_to_vec;
use vstd::string::*;
use vstd::utf8::{decode_utf8, valid_utf8};
use crate::error::{ErrorCode, ErrorInfo};
use crate::options::{rows, CsvReadOptions, CsvReadOptionsView, FileCompressionType, SortExpr};
use crate::proto;
use crate::proto::opt_bytes;

verus! {

/// Why a wire record could not be decoded.
#[derive(Debug, Clone, PartialEq, Eq)]
pub enum DecodeError {
    /// A single-character field held no byte or more than one.
    NotOneByte { field: &'static str },
    /// A text field was not UTF-8.
    InvalidUtf8 { field: &'static str },
    /// A partition column carried no type.
    MissingPartitionType { column: String },
    /// A partition column's type could not be resolved.
    UnresolvedPartitionType { column: String, reason: String },
    /// The compression number names no compression.
    InvalidCompression { value: i32 },
    /// A sort key carried no expression.
    MissingSortExpression,
    /// A sort key's expression could not be resolved.
    UnresolvedSortExpression { reason: String },
}

/// The error of std for bytes that are not UTF-8.
#[verifier::external_type_specification]
#[verifier::external_body]
pub struct ExFromUtf8Error(std::string::FromUtf8Error);

/// `String::from_utf8` of std: the text that the bytes encode where they are
/// valid UTF-8, and an error otherwise.
#[verifier::external_body]
fn string_from_utf8(bytes: Vec<u8>) -> (r: Result<String, std::string::FromUtf8Error>)
    ensures
        r is Ok <==> valid_utf8(bytes@),
        r matches Ok(s) ==> s@ == decode_utf8(bytes@),
{
    String::from_utf8(bytes)
}

impl DecodeError {
    /// Every decode failure is reported as an invalid argument.
    pub open spec fn spec_code(&self) -> ErrorCode {
        ErrorCode::InvalidArgument
    }

    /// The text of the failure, but for the digits of a compression number.
    pub open spec fn spec_message(&self) -> Seq<char> {
        match *self {
            DecodeError::NotOneByte { field } => field@ + " must contain exactly one byte"@,
            DecodeError::InvalidUtf8 { field } => field@ + " must be valid UTF-8"@,
            DecodeError::MissingPartitionType { column } => "Partition column '"@ + column@
                + "' missing arrow type"@,
            DecodeError::UnresolvedPartitionType { column, reason } => reason@,
            DecodeError::InvalidCompression { value } => "invalid CompressionTypeVariant value: "@,
            DecodeError::MissingSortExpression => "Missing sort expression"@,
            DecodeError::UnresolvedSortExpression { reason } => reason@,
        }
    }

    /// The status code under which the failure is reported.
    pub fn code(&self) -> (r: ErrorCode)
        ensures
            r == self.spec_code(),
    {
        ErrorCode::InvalidArgument
    }

    /// A human-readable account of the failure. For a single-character field
    /// it names the field.
    pub fn message(&self) -> (r: String)
        ensures
            !(self is InvalidCompression) ==> r@ == self.spec_message(),
            self matches DecodeError::InvalidCompression { value } ==> exists|digits: String|
                #[trigger] to_string_from_display_ensures::<i32>(&value, digits) && r@
                    == self.spec_message() + digits@,
    {
        match self {
            DecodeError::NotOneByte { field } => String::from_str(field).concat(
                " must contain exactly one byte",
            ),
            DecodeError::InvalidUtf8 { field } => String::from_str(field).concat(
                " must be valid UTF-8",
            ),
            DecodeError::MissingPartitionType { column } => String::from_str(
                "Partition column '",
            ).concat(column.as_str()).concat("' missing arrow type"),
            DecodeError::UnresolvedPartitionType { column, reason } => reason.clone(),
            DecodeError::InvalidCompression { value } => {
                let digits = value.to_string();
                String::from_str("invalid CompressionTypeVariant value: ").concat(digits.as_str())
            },
            DecodeError::MissingSortExpression => String::from_str("Missing sort expression"),
            DecodeError::UnresolvedSortExpression { reason } => reason.clone(),
        }
    }

    /// The error record that reports the failure across the boundary.
    pub fn to_error_info(&self) -> (r: ErrorInfo)
        ensures
            r.code == ErrorCode::InvalidArgument,
            !(self is InvalidCompression) ==> r.message@ == self.spec_message(),
            self matches DecodeError::InvalidCompression { value } ==> exists|digits: String|
                #[trigger] to_string_from_display_ensures::<i32>(&value, digits) && r.message@
                    == self.spec_message() + digits@,
    {
        ErrorInfo { code: self.code(), message: self.message() }
    }
}

/// The single byte of `bytes`, or the error that names `field`.
pub open spec fn spec_first_byte(field: &'static str, bytes: Seq<u8>) -> Result<u8, DecodeError> {
    if bytes.len() == 1 {
        Ok(bytes[0])
    } else {
        Err(DecodeError::NotOneByte { field })
    }
}

/// An absent field stays absent, and a field that is present without a byte
/// counts as absent; any other must hold exactly one byte.
pub open spec fn spec_opt_first_byte(field: &'static str, bytes: Option<Seq<u8>>) -> Result<
    Option<u8>,
    DecodeError,
> {
    match bytes {
        Some(b) => if b.len() == 0 {
            Ok(None)
        } else {
            match spec_first_byte(field, b) {
                Ok(v) => Ok(Some(v)),
                Err(e) => Err(e),
            }
        },
        None => Ok(None),
    }
}

/// An absent or empty field means `default`; any other must hold exactly one
/// byte.
pub open spec fn spec_byte_or_default(field: &'static str, bytes: Option<Seq<u8>>, default: u8) -> Result<
    u8,
    DecodeError,
> {
    match bytes {
        Some(b) => if b.len() == 0 {
            Ok(default)
        } else {
            spec_first_byte(field, b)
        },
        None => Ok(default),
    }
}

/// The text that `bytes` encode, or the error that names `field`.
pub open spec fn spec_text(field: &'static str, bytes: Seq<u8>) -> Result<Seq<char>, DecodeError> {
    if valid_utf8(bytes) {
        Ok(decode_utf8(bytes))
    } else {
        Err(DecodeError::InvalidUtf8 { field })
    }
}

/// An absent or empty field means `default`; any other must be UTF-8.
pub open spec fn spec_text_or_default(field: &'static str, bytes: Option<Seq<u8>>, default: Seq<char>) -> Result<
    Seq<char>,
    DecodeError,
> {
    match bytes {
        Some(b) => if b.len() == 0 {
            Ok(default)
        } else {
            spec_text(field, b)
        },
        None => Ok(default),
    }
}

/// An absent field stays absent; a present one, empty or not, must be UTF-8.
pub open spec fn spec_opt_text(field: &'static str, bytes: Option<Seq<u8>>) -> Result<
    Option<Seq<char>>,
    DecodeError,
> {
    match bytes {
        Some(b) => match spec_text(field, b) {
            Ok(t) => Ok(Some(t)),
            Err(e) => Err(e),
        },
        None => Ok(None),
    }
}

/// The compression that a wire number names.
pub open spec fn spec_file_compression(v: i32) -> Result<FileCompressionType, DecodeError> {
    if v == 0 {
        Ok(FileCompressionType::Gzip)
    } else if v == 1 {
        Ok(FileCompressionType::Bzip2)
    } else if v == 2 {
        Ok(FileCompressionType::Xz)
    } else if v == 3 {
        Ok(FileCompressionType::Zstd)
    } else if v == 4 {
        Ok(FileCompressionType::Uncompressed)
    } else {
        Err(DecodeError::InvalidCompression { value: v })
    }
}

/// The single byte of a single-character field.
pub fn first_byte(field: &'static str, bytes: &[u8]) -> (r: Result<u8, DecodeError>)
    ensures
        r == spec_first_byte(field, bytes@),
{
    if bytes.len() != 1 {
        return Err(DecodeError::NotOneByte { field });
    }
    Ok(bytes[0])
}

/// The single byte of a single-character field that may be absent. A field
/// that is present without a byte is not set; one with two bytes or more is
/// refused.
pub fn opt_first_byte(field: &'static str, bytes: &Option<Vec<u8>>) -> (r: Result<Option<u8>, DecodeError>)
    ensures
        r == spec_opt_first_byte(field, opt_bytes(*bytes)),
{
    match bytes {
        Some(b) => if b.len() == 0 {
            Ok(None)
        } else {
            match first_byte(field, b.as_slice()) {
                Ok(v) => Ok(Some(v)),
                Err(e) => Err(e),
            }
        },
        None => Ok(None),
    }
}

/// The single byte of a single-character field for which an absent or empty
/// value means `default`.
pub fn byte_or_default(field: &'static str, bytes: &Option<Vec<u8>>, default: u8) -> (r: Result<u8, DecodeError>)
    ensures
        r == spec_byte_or_default(field, opt_bytes(*bytes), default),
{
    match bytes {
        Some(b) => if b.len() == 0 {
            Ok(default)
        } else {
            first_byte(field, b.as_slice())
        },
        None => Ok(default),
    }
}

/// The text of a field that must be UTF-8.
pub fn text(field: &'static str, bytes: &[u8]) -> (r: Result<String, DecodeError>)
    ensures
        match spec_text(field, bytes@) {
            Ok(t) => r matches Ok(s) && s@ == t,
            Err(e) => r == Err::<String, DecodeError>(e),
        },
{
    match string_from_utf8(slice_to_vec(bytes)) {
        Ok(s) => Ok(s),
        Err(_) => Err(DecodeError::InvalidUtf8 { field }),
    }
}

/// Maps the wire number of a compression to the compression it names.
pub fn from_proto_file_compression(v: i32) -> (r: Result<FileCompressionType, DecodeError>)
    ensures
        r == spec_file_compression(v),
{
    match v {
        0 => Ok(FileCompressionType::Gzip),
        1 => Ok(FileCompressionType::Bzip2),
        2 => Ok(FileCompressionType::Xz),
        3 => Ok(FileCompressionType::Zstd),
        4 => Ok(FileCompressionType::Uncompressed),
        _ => Err(DecodeError::InvalidCompression { value: v }),
    }
}


/// The elements of `v` in reverse order, so that taking from the back walks
/// `v` from the front.
fn reversed<X>(v: Vec<X>) -> (r: Vec<X>)
    ensures
        r@.len() == v@.len(),
        forall|k: int| 0 <= k < r@.len() ==> #[trigger] r@[k] == v@[v@.len() - 1 - k],
{
    let ghost all = v@;
    let mut rest = v;
    let mut out: Vec<X> = Vec::new();
    while rest.len() > 0
        invariant
            all == v@,
            rest@.len() + out@.len() == all.len(),
            rest@ == all.subrange(0, rest@.len() as int),
            forall|k: int| 0 <= k < out@.len() ==> #[trigger] out@[k] == all[all.len() - 1 - k],
        decreases rest.len(),
    {
        match rest.pop() {
            Some(x) => out.push(x),
            None => {},
        }
    }
    out
}

/// A partition column whose type is carried and resolved.
pub open spec fn partition_ok<T>(c: proto::PartitionColumn<T>) -> bool {
    c.arrow_type matches Some(Ok(_))
}

/// Why a partition column without a resolved type is refused.
pub open spec fn partition_error<T>(c: proto::PartitionColumn<T>) -> DecodeError {
    match c.arrow_type {
        Some(Err(reason)) => DecodeError::UnresolvedPartitionType { column: c.name, reason },
        _ => DecodeError::MissingPartitionType { column: c.name },
    }
}

/// The native form of a partition column whose type is resolved.
pub open spec fn partition_entry<T>(c: proto::PartitionColumn<T>) -> (String, T) {
    (c.name, c.arrow_type->Some_0->Ok_0)
}

/// `i` is the first partition column without a resolved type.
pub open spec fn is_first_bad_partition<T>(cols: Seq<proto::PartitionColumn<T>>, i: int) -> bool {
    &&& 0 <= i < cols.len()
    &&& !partition_ok(cols[i])
    &&& forall|j: int| 0 <= j < i ==> partition_ok(#[trigger] cols[j])
}

/// The index of the first partition column without a resolved type.
pub open spec fn first_bad_partition<X>(items: Seq<proto::PartitionColumn<X>>) -> int {
    choose|i: int| is_first_bad_partition(items, i)
}

/// The native partition columns, in wire order; or, where some column has no
/// resolved type, the error of the first such column.
pub open spec fn spec_partition_cols<T>(cols: Seq<proto::PartitionColumn<T>>) -> Result<
    Seq<(String, T)>,
    DecodeError,
> {
    if forall|i: int| 0 <= i < cols.len() ==> partition_ok(#[trigger] cols[i]) {
        Ok(Seq::new(cols.len(), |i: int| partition_entry(cols[i])))
    } else {
        Err(partition_error(cols[first_bad_partition(cols)]))
    }
}

/// Resolves the partition column list. A single column without a resolved
/// type fails the whole list.
pub fn resolve_partition_cols<T>(cols: Vec<proto::PartitionColumn<T>>) -> (r: Result<
    Vec<(String, T)>,
    DecodeError,
>)
    ensures
        match spec_partition_cols(cols@) {
            Ok(s) => r matches Ok(v) && v@ == s,
            Err(e) => r == Err::<Vec<(String, T)>, DecodeError>(e),
        },
{
    let ghost all = cols@;
    let n: usize = cols.len();
    let mut rest = reversed(cols);
    let mut out: Vec<(String, T)> = Vec::new();
    let mut i: usize = 0;
    while rest.len() > 0
        invariant
            all == cols@,
            all.len() == n,
            i <= all.len(),
            rest@.len() == all.len() - i,
            forall|k: int| 0 <= k < rest@.len() ==> #[trigger] rest@[k] == all[all.len() - 1 - k],
            out@.len() == i,
            forall|j: int| 0 <= j < i ==> partition_ok(#[trigger] all[j]),
            forall|j: int| 0 <= j < i ==> #[trigger] out@[j] == partition_entry(all[j]),
        decreases rest.len(),
    {
        let last: usize = rest.len() - 1;
        assert(rest@[last as int] == all[i as int]);
        let column = rest.pop().unwrap();
        let proto::PartitionColumn { name, arrow_type } = column;
        match arrow_type {
            Some(Ok(data_type)) => {
                out.push((name, data_type));
            },
            Some(Err(reason)) => {
                proof {
                    assert(is_first_bad_partition(all, i as int));
                    assert(first_bad_partition(all) == i);
                }
                return Err(DecodeError::UnresolvedPartitionType { column: name, reason });
            },
            None => {
                proof {
                    assert(is_first_bad_partition(all, i as int));
                    assert(first_bad_partition(all) == i);
                }
                return Err(DecodeError::MissingPartitionType { column: name });
            },
        }
        i += 1;
    }
    assert(out@ =~= Seq::new(all.len(), |i: int| partition_entry(all[i])));
    Ok(out)
}

/// A sort key whose expression is carried and resolved.
pub open spec fn sort_node_ok<E>(n: proto::SortExprNode<E>) -> bool {
    n.expr matches Some(Ok(_))
}

/// Why a sort key without a resolved expression is refused.
pub open spec fn sort_node_error<E>(n: proto::SortExprNode<E>) -> DecodeError {
    match n.expr {
        Some(Err(reason)) => DecodeError::UnresolvedSortExpression { reason },
        _ => DecodeError::MissingSortExpression,
    }
}

/// The native form of a sort key whose expression is resolved.
pub open spec fn sort_entry<E>(n: proto::SortExprNode<E>) -> SortExpr<E> {
    SortExpr { expr: n.expr->Some_0->Ok_0, asc: n.asc, nulls_first: n.nulls_first }
}

/// `i` is the first sort key without a resolved expression.
pub open spec fn is_first_bad_node<E>(nodes: Seq<proto::SortExprNode<E>>, i: int) -> bool {
    &&& 0 <= i < nodes.len()
    &&& !sort_node_ok(nodes[i])
    &&& forall|j: int| 0 <= j < i ==> sort_node_ok(#[trigger] nodes[j])
}

/// The index of the first sort key without a resolved expression.
pub open spec fn first_bad_node<X>(items: Seq<proto::SortExprNode<X>>) -> int {
    choose|i: int| is_first_bad_node(items, i)
}

/// The native sort keys of one ordering, in wire order; or, where some key has
/// no resolved expression, the error of the first such key.
pub open spec fn spec_sort_exprs<E>(nodes: Seq<proto::SortExprNode<E>>) -> Result<
    Seq<SortExpr<E>>,
    DecodeError,
> {
    if forall|i: int| 0 <= i < nodes.len() ==> sort_node_ok(#[trigger] nodes[i]) {
        Ok(Seq::new(nodes.len(), |i: int| sort_entry(nodes[i])))
    } else {
        Err(sort_node_error(nodes[first_bad_node(nodes)]))
    }
}

/// Resolves the sort keys of one ordering.
pub fn resolve_sort_exprs<E>(nodes: Vec<proto::SortExprNode<E>>) -> (r: Result<
    Vec<SortExpr<E>>,
    DecodeError,
>)
    ensures
        match spec_sort_exprs(nodes@) {
            Ok(s) => r matches Ok(v) && v@ == s,
            Err(e) => r == Err::<Vec<SortExpr<E>>, DecodeError>(e),
        },
{
    let ghost all = nodes@;
    let n: usize = nodes.len();
    let mut rest = reversed(nodes);
    let mut out: Vec<SortExpr<E>> = Vec::new();
    let mut i: usize = 0;
    while rest.len() > 0
        invariant
            all == nodes@,
            all.len() == n,
            i <= all.len(),
            rest@.len() == all.len() - i,
            forall|k: int| 0 <= k < rest@.len() ==> #[trigger] rest@[k] == all[all.len() - 1 - k],
            out@.len() == i,
            forall|j: int| 0 <= j < i ==> sort_node_ok(#[trigger] all[j]),
            forall|j: int| 0 <= j < i ==> #[trigger] out@[j] == sort_entry(all[j]),
        decreases rest.len(),
    {
        let last: usize = rest.len() - 1;
        assert(rest@[last as int] == all[i as int]);
        let node = rest.pop().unwrap();
        let proto::SortExprNode { expr, asc, nulls_first } = node;
        match expr {
            Some(Ok(expr)) => {
                out.push(SortExpr { expr, asc, nulls_first });
            },
            Some(Err(reason)) => {
                proof {
                    assert(is_first_bad_node(all, i as int));
                    assert(first_bad_node(all) == i);
                }
                return Err(DecodeError::UnresolvedSortExpression { reason });
            },
            None => {
                proof {
                    assert(is_first_bad_node(all, i as int));
                    assert(first_bad_node(all) == i);
                }
                return Err(DecodeError::MissingSortExpression);
            },
        }
        i += 1;
    }
    assert(out@ =~= Seq::new(all.len(), |i: int| sort_entry(all[i])));
    Ok(out)
}

/// An ordering all of whose keys resolve.
pub open spec fn sort_order_ok<E>(o: proto::SortOrder<E>) -> bool {
    spec_sort_exprs(o.sort_expr_nodes@) is Ok
}

/// `i` is the first ordering with a key that does not resolve.
pub open spec fn is_first_bad_order<E>(orders: Seq<proto::SortOrder<E>>, i: int) -> bool {
    &&& 0 <= i < orders.len()
    &&& !sort_order_ok(orders[i])
    &&& forall|j: int| 0 <= j < i ==> sort_order_ok(#[trigger] orders[j])
}

/// The index of the first ordering with a key that does not resolve.
pub open spec fn first_bad_order<X>(items: Seq<proto::SortOrder<X>>) -> int {
    choose|i: int| is_first_bad_order(items, i)
}

/// The native orderings, in wire order; or, where some key does not resolve,
/// the error of the first such key of the first such ordering.
pub open spec fn spec_sort_orders<E>(orders: Seq<proto::SortOrder<E>>) -> Result<
    Seq<Seq<SortExpr<E>>>,
    DecodeError,
> {
    if forall|i: int| 0 <= i < orders.len() ==> sort_order_ok(#[trigger] orders[i]) {
        Ok(Seq::new(orders.len(), |i: int| spec_sort_exprs(orders[i].sort_expr_nodes@)->Ok_0))
    } else {
        Err(
            spec_sort_exprs(
                orders[first_bad_order(orders)].sort_expr_nodes@,
            )->Err_0,
        )
    }
}

/// Resolves every ordering of the sort order list.
pub fn resolve_sort_orders<E>(orders: Vec<proto::SortOrder<E>>) -> (r: Result<
    Vec<Vec<SortExpr<E>>>,
    DecodeError,
>)
    ensures
        match spec_sort_orders(orders@) {
            Ok(s) => r matches Ok(v) && rows(v) == s,
            Err(e) => r == Err::<Vec<Vec<SortExpr<E>>>, DecodeError>(e),
        },
{
    let ghost all = orders@;
    let n: usize = orders.len();
    let mut rest = reversed(orders);
    let mut out: Vec<Vec<SortExpr<E>>> = Vec::new();
    let mut i: usize = 0;
    while rest.len() > 0
        invariant
            all == orders@,
            all.len() == n,
            i <= all.len(),
            rest@.len() == all.len() - i,
            forall|k: int| 0 <= k < rest@.len() ==> #[trigger] rest@[k] == all[all.len() - 1 - k],
            out@.len() == i,
            forall|j: int| 0 <= j < i ==> sort_order_ok(#[trigger] all[j]),
            forall|j: int|
                0 <= j < i ==> (#[trigger] out@[j])@ == spec_sort_exprs(
                    all[j].sort_expr_nodes@,
                )->Ok_0,
        decreases rest.len(),
    {
        let last: usize = rest.len() - 1;
        assert(rest@[last as int] == all[i as int]);
        let order = rest.pop().unwrap();
        match resolve_sort_exprs(order.sort_expr_nodes) {
            Ok(keys) => {
                out.push(keys);
            },
            Err(e) => {
                proof {
                    assert(is_first_bad_order(all, i as int));
                    assert(first_bad_order(all) == i);
                }
                return Err(e);
            },
        }
        i += 1;
    }
    assert(rows(out) =~= Seq::new(
        all.len(),
        |i: int| spec_sort_exprs(all[i].sort_expr_nodes@)->Ok_0,
    ));
    Ok(out)
}


/// What a wire record decodes to, given the configuration `d` that holds the
/// engine's defaults and the schema to attach.
///
/// The fields are examined in a fixed order and the first that cannot be
/// decoded decides the error: delimiter, quote, terminator, escape, comment,
/// file extension, partition columns, compression, sort order, null pattern.
pub open spec fn spec_decode_csv<S, T, E>(
    p: proto::CsvReadOptions<T, E>,
    schema: Option<S>,
    d: CsvReadOptionsView<S, T, E>,
) -> Result<CsvReadOptionsView<S, T, E>, DecodeError> {
    match spec_byte_or_default("delimiter", opt_bytes(p.delimiter), d.delimiter) {
        Err(e) => Err(e),
        Ok(delimiter) => match spec_byte_or_default("quote", opt_bytes(p.quote), d.quote) {
            Err(e) => Err(e),
            Ok(quote) => match spec_opt_first_byte("terminator", opt_bytes(p.terminator)) {
                Err(e) => Err(e),
                Ok(terminator) => match spec_opt_first_byte("escape", opt_bytes(p.escape)) {
                    Err(e) => Err(e),
                    Ok(escape) => match spec_opt_first_byte("comment", opt_bytes(p.comment)) {
                        Err(e) => Err(e),
                        Ok(comment) => match spec_text_or_default(
                            "file_extension",
                            opt_bytes(p.file_extension),
                            d.file_extension,
                        ) {
                            Err(e) => Err(e),
                            Ok(file_extension) => match spec_partition_cols(
                                p.table_partition_cols@,
                            ) {
                                Err(e) => Err(e),
                                Ok(table_partition_cols) => match spec_opt_compression(
                                    p.file_compression_type,
                                    d.file_compression_type,
                                ) {
                                    Err(e) => Err(e),
                                    Ok(file_compression_type) => match spec_sort_orders(
                                        p.file_sort_order@,
                                    ) {
                                        Err(e) => Err(e),
                                        Ok(file_sort_order) => match spec_opt_text(
                                            "null_regex",
                                            opt_bytes(p.null_regex),
                                        ) {
                                            Err(e) => Err(e),
                                            Ok(null_regex) => Ok(
                                                CsvReadOptionsView {
                                                    has_header: match p.has_header {
                                                        Some(h) => h,
                                                        None => d.has_header,
                                                    },
                                                    delimiter,
                                                    quote,
                                                    terminator,
                                                    escape,
                                                    comment,
                                                    newlines_in_values: p.newlines_in_values,
                                                    schema,
                                                    schema_infer_max_records: match p.schema_infer_max_records {
                                                        Some(n) => n as usize,
                                                        None => d.schema_infer_max_records,
                                                    },
                                                    file_extension,
                                                    table_partition_cols,
                                                    file_compression_type,
                                                    file_sort_order,
                                                    null_regex,
                                                    truncated_rows: p.truncated_rows,
                                                },
                                            ),
                                        },
                                    },
                                },
                            },
                        },
                    },
                },
            },
        },
    }
}

/// An absent compression means `default`; a present one must name a
/// compression.
pub open spec fn spec_opt_compression(v: Option<i32>, default: FileCompressionType) -> Result<
    FileCompressionType,
    DecodeError,
> {
    match v {
        Some(n) => spec_file_compression(n),
        None => Ok(default),
    }
}

/// What decoding an optional wire record gives: without a record, the
/// defaults as they are.
pub open spec fn spec_from_proto_csv_options<S, T, E>(
    pbo: Option<proto::CsvReadOptions<T, E>>,
    schema: Option<S>,
    d: CsvReadOptionsView<S, T, E>,
) -> Result<CsvReadOptionsView<S, T, E>, DecodeError> {
    match pbo {
        Some(p) => spec_decode_csv(p, schema, d),
        None => Ok(d),
    }
}

/// Decodes CSV read options from their wire record.
///
/// `defaults` is the engine's default configuration: every setting that the
/// record leaves open is taken from it. Without a record the defaults are
/// returned as they are and `schema` is not attached.
pub fn from_proto_csv_options<S, T, E>(
    pbo: Option<proto::CsvReadOptions<T, E>>,
    schema: Option<S>,
    defaults: CsvReadOptions<S, T, E>,
) -> (r: Result<CsvReadOptions<S, T, E>, DecodeError>)
    ensures
        match spec_from_proto_csv_options(pbo, schema, defaults@) {
            Ok(v) => r matches Ok(o) && o@ == v,
            Err(e) => r == Err::<CsvReadOptions<S, T, E>, DecodeError>(e),
        },
{
    let Some(pbo) = pbo else {
        return Ok(defaults);
    };
    let mut dfo = defaults;

    if let Some(has_header) = pbo.has_header {
        dfo.has_header = has_header;
    }
    dfo.delimiter = match byte_or_default("delimiter", &pbo.delimiter, dfo.delimiter) {
        Ok(b) => b,
        Err(e) => return Err(e),
    };
    dfo.quote = match byte_or_default("quote", &pbo.quote, dfo.quote) {
        Ok(b) => b,
        Err(e) => return Err(e),
    };
    dfo.terminator = match opt_first_byte("terminator", &pbo.terminator) {
        Ok(b) => b,
        Err(e) => return Err(e),
    };
    dfo.escape = match opt_first_byte("escape", &pbo.escape) {
        Ok(b) => b,
        Err(e) => return Err(e),
    };
    dfo.comment = match opt_first_byte("comment", &pbo.comment) {
        Ok(b) => b,
        Err(e) => return Err(e),
    };
    dfo.newlines_in_values = pbo.newlines_in_values;
    dfo.schema = schema;
    if let Some(schema_infer_max_records) = pbo.schema_infer_max_records {
        dfo.schema_infer_max_records = record_limit(schema_infer_max_records);
    }
    if let Some(file_extension) = &pbo.file_extension {
        if file_extension.len() != 0 {
            dfo.file_extension = match text("file_extension", file_extension.as_slice()) {
                Ok(t) => t,
                Err(e) => return Err(e),
            };
        }
    }
    dfo.table_partition_cols = match resolve_partition_cols(pbo.table_partition_cols) {
        Ok(cols) => cols,
        Err(e) => return Err(e),
    };
    if let Some(file_compression_type) = pbo.file_compression_type {
        dfo.file_compression_type = match from_proto_file_compression(file_compression_type) {
            Ok(c) => c,
            Err(e) => return Err(e),
        };
    }
    dfo.file_sort_order = match resolve_sort_orders(pbo.file_sort_order) {
        Ok(orders) => orders,
        Err(e) => return Err(e),
    };
    dfo.null_regex = match &pbo.null_regex {
        Some(b) => match text("null_regex", b.as_slice()) {
            Ok(t) => Some(t),
            Err(e) => return Err(e),
        },
        None => None,
    };
    dfo.truncated_rows = pbo.truncated_rows;

    Ok(dfo)
}

/// A 64-bit record count in the machine's word, keeping the low bits where
/// the word is narrower.
pub fn record_limit(n: u64) -> (r: usize)
    ensures
        r == n as usize,
{
    #[verifier::truncate]
    (n as usize)
}


/// A single-character field of the wire record that is present with two
/// bytes or more.
pub open spec fn refused_single_character<T, E>(p: proto::CsvReadOptions<T, E>) -> bool {
    ||| (p.delimiter matches Some(b) && b@.len() >= 2)
    ||| (p.quote matches Some(b) && b@.len() >= 2)
    ||| (p.terminator matches Some(b) && b@.len() >= 2)
    ||| (p.escape matches Some(b) && b@.len() >= 2)
    ||| (p.comment matches Some(b) && b@.len() >= 2)
}

/// A record with a single-character field of two bytes or more does not
/// decode, whatever else it holds: the failure is that of a field that does
/// not hold exactly one byte, and it is reported as an invalid argument.
pub proof fn lemma_refused_single_character_fails<S, T, E>(
    p: proto::CsvReadOptions<T, E>,
    schema: Option<S>,
    d: CsvReadOptionsView<S, T, E>,
)
    requires
        refused_single_character(p),
    ensures
        spec_decode_csv(p, schema, d) is Err,
        spec_decode_csv(p, schema, d)->Err_0 is NotOneByte,
        spec_decode_csv(p, schema, d)->Err_0.spec_code() == ErrorCode::InvalidArgument,
{
}

/// A byte string that does not hold exactly one byte is refused by
/// `first_byte`, under the field's name; one that does gives that byte.
pub proof fn lemma_first_byte_exactly_one(field: &'static str, bytes: Seq<u8>)
    ensures
        bytes.len() != 1 ==> spec_first_byte(field, bytes) == Err::<u8, DecodeError>(
            DecodeError::NotOneByte { field },
        ),
        bytes.len() == 1 ==> spec_first_byte(field, bytes) == Ok::<u8, DecodeError>(bytes[0]),
{
}

/// Single-character fields of one byte arrive unchanged: where a record
/// decodes, each such field of the result is the byte that the record holds.
pub proof fn lemma_single_characters_round_trip<S, T, E>(
    p: proto::CsvReadOptions<T, E>,
    schema: Option<S>,
    d: CsvReadOptionsView<S, T, E>,
)
    requires
        spec_decode_csv(p, schema, d) is Ok,
    ensures
        ({
            let v = spec_decode_csv(p, schema, d)->Ok_0;
            &&& (p.delimiter matches Some(b) ==> b@.len() == 1 ==> v.delimiter == b@[0])
            &&& (p.quote matches Some(b) ==> b@.len() == 1 ==> v.quote == b@[0])
            &&& (p.terminator matches Some(b) ==> b@.len() == 1 ==> v.terminator == Some(b@[0]))
            &&& (p.escape matches Some(b) ==> b@.len() == 1 ==> v.escape == Some(b@[0]))
            &&& (p.comment matches Some(b) ==> b@.len() == 1 ==> v.comment == Some(b@[0]))
            &&& (p.delimiter matches Some(b) ==> b@.len() <= 1)
            &&& (p.quote matches Some(b) ==> b@.len() <= 1)
            &&& (p.terminator matches Some(b) ==> b@.len() <= 1)
            &&& (p.escape matches Some(b) ==> b@.len() <= 1)
            &&& (p.comment matches Some(b) ==> b@.len() <= 1)
        }),
{
}

/// `b` is `a`, or `a` is present without a byte and `b` is absent.
pub open spec fn same_or_emptied(a: Option<Vec<u8>>, b: Option<Vec<u8>>) -> bool {
    a == b || (a matches Some(bytes) && bytes@.len() == 0 && b is None)
}

/// A single-character field that is present without a byte counts as not
/// set, and raises no error: a record decodes exactly as the record in which
/// such fields are absent.
pub proof fn lemma_empty_single_character_is_not_set<S, T, E>(
    p: proto::CsvReadOptions<T, E>,
    q: proto::CsvReadOptions<T, E>,
    schema: Option<S>,
    d: CsvReadOptionsView<S, T, E>,
)
    requires
        same_or_emptied(p.delimiter, q.delimiter),
        same_or_emptied(p.quote, q.quote),
        same_or_emptied(p.terminator, q.terminator),
        same_or_emptied(p.escape, q.escape),
        same_or_emptied(p.comment, q.comment),
        q == (proto::CsvReadOptions {
            delimiter: q.delimiter,
            quote: q.quote,
            terminator: q.terminator,
            escape: q.escape,
            comment: q.comment,
            ..p
        }),
    ensures
        spec_decode_csv(p, schema, d) == spec_decode_csv(q, schema, d),
{
}

/// Where a record with a single-character field that is present without a
/// byte decodes, that setting is the one of an unset field: the default's
/// delimiter and quote, and no terminator, escape or comment.
pub proof fn lemma_empty_single_character_is_default<S, T, E>(
    p: proto::CsvReadOptions<T, E>,
    schema: Option<S>,
    d: CsvReadOptionsView<S, T, E>,
)
    requires
        spec_decode_csv(p, schema, d) is Ok,
    ensures
        ({
            let v = spec_decode_csv(p, schema, d)->Ok_0;
            &&& (p.delimiter matches Some(b) ==> b@.len() == 0 ==> v.delimiter == d.delimiter)
            &&& (p.quote matches Some(b) ==> b@.len() == 0 ==> v.quote == d.quote)
            &&& (p.terminator matches Some(b) ==> b@.len() == 0 ==> v.terminator is None)
            &&& (p.escape matches Some(b) ==> b@.len() == 0 ==> v.escape is None)
            &&& (p.comment matches Some(b) ==> b@.len() == 0 ==> v.comment is None)
        }),
{
}

/// Settings that the record leaves open are the defaults': the header flag,
/// the record limit and the compression where absent; the delimiter, the
/// quote and the file extension where absent or empty.
pub proof fn lemma_open_settings_are_defaults<S, T, E>(
    p: proto::CsvReadOptions<T, E>,
    schema: Option<S>,
    d: CsvReadOptionsView<S, T, E>,
)
    requires
        spec_decode_csv(p, schema, d) is Ok,
    ensures
        ({
            let v = spec_decode_csv(p, schema, d)->Ok_0;
            &&& (p.has_header is None ==> v.has_header == d.has_header)
            &&& (p.schema_infer_max_records is None ==> v.schema_infer_max_records
                == d.schema_infer_max_records)
            &&& (p.file_compression_type is None ==> v.file_compression_type
                == d.file_compression_type)
            &&& (p.delimiter is None ==> v.delimiter == d.delimiter)
            &&& (p.quote is None ==> v.quote == d.quote)
            &&& (p.file_extension is None ==> v.file_extension == d.file_extension)
            &&& (p.file_extension matches Some(b) ==> b@.len() == 0 ==> v.file_extension
                == d.file_extension)
            &&& v.schema == schema
        }),
{
}

/// A compression number decodes exactly when it is one of the five that name
/// a compression, and distinct numbers name distinct compressions.
pub proof fn lemma_compression_is_one_to_one(a: i32, b: i32)
    ensures
        spec_file_compression(a) is Ok <==> 0 <= a <= 4,
        spec_file_compression(a) is Ok && spec_file_compression(a) == spec_file_compression(b)
            ==> a == b,
{
}

/// A partition list with a column that carries no resolved type does not
/// resolve: there is no partial list.
pub proof fn lemma_unresolved_partition_fails_list<T>(
    cols: Seq<proto::PartitionColumn<T>>,
    i: int,
)
    requires
        0 <= i < cols.len(),
        !partition_ok(cols[i]),
    ensures
        spec_partition_cols(cols) is Err,
{
}

/// A sort order with a key that carries no resolved expression does not
/// resolve, wherever the key stands.
pub proof fn lemma_unresolved_sort_key_fails_list<E>(
    orders: Seq<proto::SortOrder<E>>,
    i: int,
    j: int,
)
    requires
        0 <= i < orders.len(),
        0 <= j < orders[i].sort_expr_nodes@.len(),
        !sort_node_ok(orders[i].sort_expr_nodes@[j]),
    ensures
        spec_sort_exprs(orders[i].sort_expr_nodes@) is Err,
        spec_sort_orders(orders) is Err,
{
    assert(!sort_order_ok(orders[i]));
}

/// A record does not decode where one of its parts does not: a partition
/// list or a sort order that does not resolve, a compression number that
/// names no compression, a file extension or a null pattern that is not
/// UTF-8.
pub proof fn lemma_failing_part_fails_record<S, T, E>(
    p: proto::CsvReadOptions<T, E>,
    schema: Option<S>,
    d: CsvReadOptionsView<S, T, E>,
)
    ensures
        spec_partition_cols(p.table_partition_cols@) is Err ==> spec_decode_csv(p, schema, d) is Err,
        spec_sort_orders(p.file_sort_order@) is Err ==> spec_decode_csv(p, schema, d) is Err,
        p.file_compression_type matches Some(v) ==> !(0 <= v <= 4) ==> spec_decode_csv(
            p,
            schema,
            d,
        ) is Err,
        p.file_extension matches Some(b) ==> b@.len() > 0 && !valid_utf8(b@) ==> spec_decode_csv(
            p,
            schema,
            d,
        ) is Err,
        p.null_regex matches Some(b) ==> !valid_utf8(b@) ==> spec_decode_csv(p, schema, d) is Err,
{
}

} // verus!

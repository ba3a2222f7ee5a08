//! Arrow's schema, as far as plans need it: a value that is carried from node
//! to node and compared, never taken apart.

use arrow::datatypes::Schema;
use vstd::prelude::*;

verus! {

/// Arrow's `Schema`, opaque to Verus: a contract can speak of a schema
/// as a value, and of nothing inside it.
#[verifier::external_type_specification]
#[verifier::external_body]
pub struct ExSchema(arrow::datatypes::Schema);

/// What `==` of Arrow's `Schema` gives on two schemas. Arrow compares the
/// fields in their order, each by its name, data type, nullability and
/// metadata, and then the metadata of the schema. It leaves out the
/// dictionary id of a field and whether its dictionary is ordered, so two
/// schemas that differ there are equal to Arrow and are still two values.
pub uninterp spec fn arrow_equal(a: Schema, b: Schema) -> bool;

/// Whether two schemas agree: they are one value, or Arrow calls them equal.
pub open spec fn schemas_agree(a: Schema, b: Schema) -> bool {
    a == b || arrow_equal(a, b)
}

/// Calls `==` of Arrow's `Schema`, whose `PartialEq` and `Eq` are derived over
/// the comparison of fields that Arrow wrote by hand. The contract names the
/// answer and claims one thing of it: a schema compared with itself gives
/// `true`.
#[verifier::external_body]
pub(crate) fn same_schema(a: &Schema, b: &Schema) -> (same: bool)
    ensures
        same == (*a == *b || arrow_equal(*a, *b)),
{
    a == b
}

} // verus!

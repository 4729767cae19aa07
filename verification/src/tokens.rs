//! The ABI tuple token that the encoder produces: an ordered sequence of
//! typed leaves, mirrored by a mathematical model for contracts.

use vstd::prelude::*;

use crate::batch::spec_bytes_view;

verus! {

/// Mathematical model of one tuple field.
pub enum FieldModel {
    /// An unsigned integer, widened to the contract's word on the wire.
    Uint(u64),
    /// A fixed-length byte string (here always a 32-byte hash).
    FixedBytes(Seq<u8>),
    /// A variable-length byte string.
    Bytes(Seq<u8>),
    /// An array whose elements are variable-length byte strings.
    BytesArray(Seq<Seq<u8>>),
}

/// One field of the commitment tuple.  The encoder emits only these leaf
/// shapes; field order is significant and must match the contract's declared
/// parameter order for the active protocol version.
#[derive(Clone, PartialEq, Eq, Debug)]
pub enum FieldValue {
    Uint(u64),
    FixedBytes(Vec<u8>),
    Bytes(Vec<u8>),
    BytesArray(Vec<Vec<u8>>),
}

impl View for FieldValue {
    type V = FieldModel;

    open spec fn view(&self) -> FieldModel {
        match self {
            FieldValue::Uint(x) => FieldModel::Uint(*x),
            FieldValue::FixedBytes(b) => FieldModel::FixedBytes(b@),
            FieldValue::Bytes(b) => FieldModel::Bytes(b@),
            FieldValue::BytesArray(items) => FieldModel::BytesArray(spec_bytes_view(items@)),
        }
    }
}

/// The single top-level tuple the encoder returns, viewed as the sequence of
/// its field models.
#[derive(Clone, PartialEq, Eq, Debug)]
pub struct TupleToken {
    pub fields: Vec<FieldValue>,
}

/// The view of a sequence of tuple fields.
pub open spec fn spec_fields_view(fields: Seq<FieldValue>) -> Seq<FieldModel> {
    fields.map_values(|f: FieldValue| f@)
}

impl View for TupleToken {
    type V = Seq<FieldModel>;

    open spec fn view(&self) -> Seq<FieldModel> {
        spec_fields_view(self.fields@)
    }
}

} // verus!

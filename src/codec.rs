use vstd::prelude::*;

use crate::value::{AstarteData, DataView};

verus! {

/// The 64-bit integer a value holds, if it is tagged as one.
pub open spec fn long_integer_of(v: DataView) -> Option<i64> {
    match v {
        DataView::LongInteger(x) => Some(x),
        _ => None,
    }
}

/// The list of 64-bit integers a value holds, if it is tagged as one.
pub open spec fn long_integer_array_of(v: DataView) -> Option<Seq<i64>> {
    match v {
        DataView::LongIntegerArray(x) => Some(x),
        _ => None,
    }
}

/// The blob a value holds, if it is tagged as one.
pub open spec fn blob_of(v: DataView) -> Option<Seq<u8>> {
    match v {
        DataView::BinaryBlob(x) => Some(x),
        _ => None,
    }
}

/// The list of blobs a value holds, if it is tagged as one.
pub open spec fn blob_array_of(v: DataView) -> Option<Seq<Seq<u8>>> {
    match v {
        DataView::BinaryBlobArray(x) => Some(x),
        _ => None,
    }
}

/// A 64-bit integer as an aggregate value: tagged as a long integer, so that it
/// is told apart from a 32-bit integer or a double.
pub fn encode_long_integer(x: i64) -> (r: AstarteData)
    ensures
        r@ == DataView::LongInteger(x),
{
    AstarteData::LongInteger(x)
}

/// The 64-bit integer that an aggregate value holds, if it is tagged as one.
pub fn decode_long_integer(v: &AstarteData) -> (r: Option<i64>)
    ensures
        r == long_integer_of(v@),
{
    match v {
        AstarteData::LongInteger(x) => Some(*x),
        _ => None,
    }
}

/// A list of 64-bit integers as an aggregate value.
pub fn encode_long_integer_array(x: Vec<i64>) -> (r: AstarteData)
    ensures
        r@ == DataView::LongIntegerArray(x@),
{
    AstarteData::LongIntegerArray(x)
}

/// The list of 64-bit integers that an aggregate value holds, if it is tagged as one.
pub fn decode_long_integer_array(v: &AstarteData) -> (r: Option<Vec<i64>>)
    ensures
        r is None <==> long_integer_array_of(v@) is None,
        r matches Some(y) ==> long_integer_array_of(v@) == Some(y@),
{
    match v {
        AstarteData::LongIntegerArray(x) => Some(x.clone()),
        _ => None,
    }
}

/// A blob as an aggregate value: tagged as binary, so that it is told apart from text.
pub fn encode_blob(b: Vec<u8>) -> (r: AstarteData)
    ensures
        r@ == DataView::BinaryBlob(b@),
{
    AstarteData::BinaryBlob(b)
}

/// The blob that an aggregate value holds, if it is tagged as one.
pub fn decode_blob(v: &AstarteData) -> (r: Option<Vec<u8>>)
    ensures
        r is None <==> blob_of(v@) is None,
        r matches Some(y) ==> blob_of(v@) == Some(y@),
{
    match v {
        AstarteData::BinaryBlob(x) => Some(x.clone()),
        _ => None,
    }
}

/// A list of blobs as an aggregate value.
pub fn encode_blob_array(b: Vec<Vec<u8>>) -> (r: AstarteData)
    ensures
        r@ == DataView::BinaryBlobArray(b.deep_view()),
{
    AstarteData::BinaryBlobArray(b)
}

/// The list of blobs that an aggregate value holds, if it is tagged as one.
pub fn decode_blob_array(v: &AstarteData) -> (r: Option<Vec<Vec<u8>>>)
    ensures
        r is None <==> blob_array_of(v@) is None,
        r matches Some(y) ==> blob_array_of(v@) == Some(y.deep_view()),
{
    match v {
        AstarteData::BinaryBlobArray(x) => Some(x.clone()),
        _ => None,
    }
}

/// Decoding undoes encoding, for every 64-bit integer (negative ones and those
/// beyond 32 bits included), every blob (the empty one included), and every
/// list of either.
pub proof fn lemma_codec_round_trip(x: i64, xs: Seq<i64>, b: Seq<u8>, bs: Seq<Seq<u8>>)
    ensures
        long_integer_of(DataView::LongInteger(x)) == Some(x),
        long_integer_array_of(DataView::LongIntegerArray(xs)) == Some(xs),
        blob_of(DataView::BinaryBlob(b)) == Some(b),
        blob_array_of(DataView::BinaryBlobArray(bs)) == Some(bs),
{
}

} // verus!

use vstd::prelude::*;

verus! {

/// The kind of data an endpoint carries.
#[derive(PartialEq, Eq, Structural, Clone, Copy, Debug)]
pub enum Kind {
    Double,
    Integer,
    Boolean,
    LongInteger,
    String,
    BinaryBlob,
    DateTime,
    DoubleArray,
    IntegerArray,
    BooleanArray,
    LongIntegerArray,
    StringArray,
    BinaryBlobArray,
    DateTimeArray,
}

/// A dynamically typed value of a generic aggregate.
///
/// A double is held as its IEEE-754 bit pattern, so that equality is exact;
/// a date-time is held as milliseconds since the Unix epoch (UTC).
#[derive(Clone, Debug)]
pub enum AstarteData {
    Double(u64),
    Integer(i32),
    Boolean(bool),
    LongInteger(i64),
    String(String),
    BinaryBlob(Vec<u8>),
    DateTime(i64),
    DoubleArray(Vec<u64>),
    IntegerArray(Vec<i32>),
    BooleanArray(Vec<bool>),
    LongIntegerArray(Vec<i64>),
    StringArray(Vec<String>),
    BinaryBlobArray(Vec<Vec<u8>>),
    DateTimeArray(Vec<i64>),
}

/// The mathematical value of an [`AstarteData`].
pub enum DataView {
    Double(u64),
    Integer(i32),
    Boolean(bool),
    LongInteger(i64),
    String(Seq<char>),
    BinaryBlob(Seq<u8>),
    DateTime(i64),
    DoubleArray(Seq<u64>),
    IntegerArray(Seq<i32>),
    BooleanArray(Seq<bool>),
    LongIntegerArray(Seq<i64>),
    StringArray(Seq<Seq<char>>),
    BinaryBlobArray(Seq<Seq<u8>>),
    DateTimeArray(Seq<i64>),
}

impl DataView {
    pub open spec fn kind(self) -> Kind {
        match self {
            DataView::Double(_) => Kind::Double,
            DataView::Integer(_) => Kind::Integer,
            DataView::Boolean(_) => Kind::Boolean,
            DataView::LongInteger(_) => Kind::LongInteger,
            DataView::String(_) => Kind::String,
            DataView::BinaryBlob(_) => Kind::BinaryBlob,
            DataView::DateTime(_) => Kind::DateTime,
            DataView::DoubleArray(_) => Kind::DoubleArray,
            DataView::IntegerArray(_) => Kind::IntegerArray,
            DataView::BooleanArray(_) => Kind::BooleanArray,
            DataView::LongIntegerArray(_) => Kind::LongIntegerArray,
            DataView::StringArray(_) => Kind::StringArray,
            DataView::BinaryBlobArray(_) => Kind::BinaryBlobArray,
            DataView::DateTimeArray(_) => Kind::DateTimeArray,
        }
    }
}

impl View for AstarteData {
    type V = DataView;

    open spec fn view(&self) -> DataView {
        match self {
            AstarteData::Double(x) => DataView::Double(*x),
            AstarteData::Integer(x) => DataView::Integer(*x),
            AstarteData::Boolean(x) => DataView::Boolean(*x),
            AstarteData::LongInteger(x) => DataView::LongInteger(*x),
            AstarteData::String(x) => DataView::String(x@),
            AstarteData::BinaryBlob(x) => DataView::BinaryBlob(x@),
            AstarteData::DateTime(x) => DataView::DateTime(*x),
            AstarteData::DoubleArray(x) => DataView::DoubleArray(x@),
            AstarteData::IntegerArray(x) => DataView::IntegerArray(x@),
            AstarteData::BooleanArray(x) => DataView::BooleanArray(x@),
            AstarteData::LongIntegerArray(x) => DataView::LongIntegerArray(x@),
            AstarteData::StringArray(x) => DataView::StringArray(x.deep_view()),
            AstarteData::BinaryBlobArray(x) => DataView::BinaryBlobArray(x.deep_view()),
            AstarteData::DateTimeArray(x) => DataView::DateTimeArray(x@),
        }
    }
}

impl AstarteData {
    /// The kind of this value.
    pub fn kind(&self) -> (r: Kind)
        ensures
            r == self@.kind(),
    {
        match self {
            AstarteData::Double(_) => Kind::Double,
            AstarteData::Integer(_) => Kind::Integer,
            AstarteData::Boolean(_) => Kind::Boolean,
            AstarteData::LongInteger(_) => Kind::LongInteger,
            AstarteData::String(_) => Kind::String,
            AstarteData::BinaryBlob(_) => Kind::BinaryBlob,
            AstarteData::DateTime(_) => Kind::DateTime,
            AstarteData::DoubleArray(_) => Kind::DoubleArray,
            AstarteData::IntegerArray(_) => Kind::IntegerArray,
            AstarteData::BooleanArray(_) => Kind::BooleanArray,
            AstarteData::LongIntegerArray(_) => Kind::LongIntegerArray,
            AstarteData::StringArray(_) => Kind::StringArray,
            AstarteData::BinaryBlobArray(_) => Kind::BinaryBlobArray,
            AstarteData::DateTimeArray(_) => Kind::DateTimeArray,
        }
    }

    /// A copy of this value, equal to it in every element.
    pub fn duplicate(&self) -> (r: AstarteData)
        ensures
            r@ == self@,
    {
        match self {
            AstarteData::Double(x) => AstarteData::Double(*x),
            AstarteData::Integer(x) => AstarteData::Integer(*x),
            AstarteData::Boolean(x) => AstarteData::Boolean(*x),
            AstarteData::LongInteger(x) => AstarteData::LongInteger(*x),
            AstarteData::String(x) => AstarteData::String(x.clone()),
            AstarteData::BinaryBlob(x) => AstarteData::BinaryBlob(x.clone()),
            AstarteData::DateTime(x) => AstarteData::DateTime(*x),
            AstarteData::DoubleArray(x) => AstarteData::DoubleArray(x.clone()),
            AstarteData::IntegerArray(x) => AstarteData::IntegerArray(x.clone()),
            AstarteData::BooleanArray(x) => AstarteData::BooleanArray(x.clone()),
            AstarteData::LongIntegerArray(x) => AstarteData::LongIntegerArray(x.clone()),
            AstarteData::StringArray(x) => AstarteData::StringArray(x.clone()),
            AstarteData::BinaryBlobArray(x) => AstarteData::BinaryBlobArray(x.clone()),
            AstarteData::DateTimeArray(x) => AstarteData::DateTimeArray(x.clone()),
        }
    }

    /// Whether two values are equal: same kind and same contents.
    pub fn equals(&self, other: &AstarteData) -> (r: bool)
        ensures
            r == (self@ == other@),
    {
        match (self, other) {
            (AstarteData::Double(a), AstarteData::Double(b)) => *a == *b,
            (AstarteData::Integer(a), AstarteData::Integer(b)) => *a == *b,
            (AstarteData::Boolean(a), AstarteData::Boolean(b)) => *a == *b,
            (AstarteData::LongInteger(a), AstarteData::LongInteger(b)) => *a == *b,
            (AstarteData::String(a), AstarteData::String(b)) => *a == *b,
            (AstarteData::BinaryBlob(a), AstarteData::BinaryBlob(b)) => {
                let r = *a == *b;
                proof {
                    if r {
                        assert(a@ =~= b@);
                    }
                }
                r
            },
            (AstarteData::DateTime(a), AstarteData::DateTime(b)) => *a == *b,
            (AstarteData::DoubleArray(a), AstarteData::DoubleArray(b)) => {
                let r = *a == *b;
                proof {
                    if r {
                        assert(a@ =~= b@);
                    }
                }
                r
            },
            (AstarteData::IntegerArray(a), AstarteData::IntegerArray(b)) => {
                let r = *a == *b;
                proof {
                    if r {
                        assert(a@ =~= b@);
                    }
                }
                r
            },
            (AstarteData::BooleanArray(a), AstarteData::BooleanArray(b)) => {
                let r = *a == *b;
                proof {
                    if r {
                        assert(a@ =~= b@);
                    }
                }
                r
            },
            (AstarteData::LongIntegerArray(a), AstarteData::LongIntegerArray(b)) => {
                let r = *a == *b;
                proof {
                    if r {
                        assert(a@ =~= b@);
                    }
                }
                r
            },
            (AstarteData::StringArray(a), AstarteData::StringArray(b)) => strings_equal(a, b),
            (AstarteData::BinaryBlobArray(a), AstarteData::BinaryBlobArray(b)) => blobs_equal(a, b),
            (AstarteData::DateTimeArray(a), AstarteData::DateTimeArray(b)) => {
                let r = *a == *b;
                proof {
                    if r {
                        assert(a@ =~= b@);
                    }
                }
                r
            },
            _ => false,
        }
    }
}

/// Whether two lists of strings hold the same strings in the same order.
fn strings_equal(a: &Vec<String>, b: &Vec<String>) -> (r: bool)
    ensures
        r == (a.deep_view() == b.deep_view()),
{
    if a.len() != b.len() {
        assert(a.deep_view().len() != b.deep_view().len());
        return false;
    }
    let mut i: usize = 0;
    while i < a.len()
        invariant
            a.len() == b.len(),
            0 <= i <= a.len(),
            forall|j: int| 0 <= j < i ==> a@[j]@ == b@[j]@,
        decreases a.len() - i,
    {
        if a[i] != b[i] {
            assert(a.deep_view()[i as int] != b.deep_view()[i as int]);
            return false;
        }
        i = i + 1;
    }
    assert(a.deep_view() =~= b.deep_view());
    true
}

/// Whether two lists of blobs hold the same blobs in the same order.
fn blobs_equal(a: &Vec<Vec<u8>>, b: &Vec<Vec<u8>>) -> (r: bool)
    ensures
        r == (a.deep_view() == b.deep_view()),
{
    if a.len() != b.len() {
        assert(a.deep_view().len() != b.deep_view().len());
        return false;
    }
    let mut i: usize = 0;
    while i < a.len()
        invariant
            a.len() == b.len(),
            0 <= i <= a.len(),
            forall|j: int| 0 <= j < i ==> a.deep_view()[j] == b.deep_view()[j],
        decreases a.len() - i,
    {
        assert(a.deep_view()[i as int] =~= a@[i as int]@);
        assert(b.deep_view()[i as int] =~= b@[i as int]@);
        if !bytes_equal(&a[i], &b[i]) {
            assert(a.deep_view()[i as int] != b.deep_view()[i as int]);
            return false;
        }
        i = i + 1;
    }
    assert(a.deep_view() =~= b.deep_view());
    true
}

/// Whether two blobs hold the same bytes.
fn bytes_equal(a: &Vec<u8>, b: &Vec<u8>) -> (r: bool)
    ensures
        r == (a@ == b@),
{
    if a.len() != b.len() {
        return false;
    }
    let mut i: usize = 0;
    while i < a.len()
        invariant
            a.len() == b.len(),
            0 <= i <= a.len(),
            forall|j: int| 0 <= j < i ==> a@[j] == b@[j],
        decreases a.len() - i,
    {
        if a[i] != b[i] {
            return false;
        }
        i = i + 1;
    }
    assert(a@ =~= b@);
    true
}

} // verus!

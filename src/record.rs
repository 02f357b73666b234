use vstd::prelude::*;

use crate::aggregate::{has_key, keys_unique, lemma_value_at, value_of, Aggregate, Entry};
use crate::value::{AstarteData, DataView, Kind};

verus! {

/// Number of endpoints of the catalog.
pub const ENDPOINT_COUNT: usize = 14;

/// Name of the endpoint at position `i` of the catalog.
pub open spec fn endpoint_name(i: int) -> Seq<char> {
    if i == 0 {
        "double_endpoint"@
    } else if i == 1 {
        "integer_endpoint"@
    } else if i == 2 {
        "boolean_endpoint"@
    } else if i == 3 {
        "longinteger_endpoint"@
    } else if i == 4 {
        "string_endpoint"@
    } else if i == 5 {
        "binaryblob_endpoint"@
    } else if i == 6 {
        "datetime_endpoint"@
    } else if i == 7 {
        "doublearray_endpoint"@
    } else if i == 8 {
        "integerarray_endpoint"@
    } else if i == 9 {
        "booleanarray_endpoint"@
    } else if i == 10 {
        "longintegerarray_endpoint"@
    } else if i == 11 {
        "stringarray_endpoint"@
    } else if i == 12 {
        "binaryblobarray_endpoint"@
    } else {
        "datetimearray_endpoint"@
    }
}

/// Kind of the endpoint at position `i` of the catalog.
pub open spec fn endpoint_kind(i: int) -> Kind {
    if i == 0 {
        Kind::Double
    } else if i == 1 {
        Kind::Integer
    } else if i == 2 {
        Kind::Boolean
    } else if i == 3 {
        Kind::LongInteger
    } else if i == 4 {
        Kind::String
    } else if i == 5 {
        Kind::BinaryBlob
    } else if i == 6 {
        Kind::DateTime
    } else if i == 7 {
        Kind::DoubleArray
    } else if i == 8 {
        Kind::IntegerArray
    } else if i == 9 {
        Kind::BooleanArray
    } else if i == 10 {
        Kind::LongIntegerArray
    } else if i == 11 {
        Kind::StringArray
    } else if i == 12 {
        Kind::BinaryBlobArray
    } else {
        Kind::DateTimeArray
    }
}

/// Whether `k` names an endpoint of the catalog.
pub open spec fn is_endpoint_name(k: Seq<char>) -> bool {
    exists|i: int| 0 <= i < ENDPOINT_COUNT && #[trigger] endpoint_name(i) == k
}

/// The names of the catalog are pairwise distinct.
pub proof fn lemma_endpoint_names_distinct()
    ensures
        forall|i: int, j: int|
            0 <= i < ENDPOINT_COUNT && 0 <= j < ENDPOINT_COUNT && i != j ==> endpoint_name(i)
                != endpoint_name(j),
{
    assert(endpoint_name(0).len() == 15 && endpoint_name(0)[0] == 'd') by {
        reveal_strlit("double_endpoint");
    }
    assert(endpoint_name(1).len() == 16 && endpoint_name(1)[0] == 'i') by {
        reveal_strlit("integer_endpoint");
    }
    assert(endpoint_name(2).len() == 16 && endpoint_name(2)[0] == 'b') by {
        reveal_strlit("boolean_endpoint");
    }
    assert(endpoint_name(3).len() == 20 && endpoint_name(3)[0] == 'l') by {
        reveal_strlit("longinteger_endpoint");
    }
    assert(endpoint_name(4).len() == 15 && endpoint_name(4)[0] == 's') by {
        reveal_strlit("string_endpoint");
    }
    assert(endpoint_name(5).len() == 19 && endpoint_name(5)[0] == 'b') by {
        reveal_strlit("binaryblob_endpoint");
    }
    assert(endpoint_name(6).len() == 17 && endpoint_name(6)[0] == 'd') by {
        reveal_strlit("datetime_endpoint");
    }
    assert(endpoint_name(7).len() == 20 && endpoint_name(7)[0] == 'd') by {
        reveal_strlit("doublearray_endpoint");
    }
    assert(endpoint_name(8).len() == 21 && endpoint_name(8)[0] == 'i') by {
        reveal_strlit("integerarray_endpoint");
    }
    assert(endpoint_name(9).len() == 21 && endpoint_name(9)[0] == 'b') by {
        reveal_strlit("booleanarray_endpoint");
    }
    assert(endpoint_name(10).len() == 25 && endpoint_name(10)[0] == 'l') by {
        reveal_strlit("longintegerarray_endpoint");
    }
    assert(endpoint_name(11).len() == 20 && endpoint_name(11)[0] == 's') by {
        reveal_strlit("stringarray_endpoint");
    }
    assert(endpoint_name(12).len() == 24 && endpoint_name(12)[0] == 'b') by {
        reveal_strlit("binaryblobarray_endpoint");
    }
    assert(endpoint_name(13).len() == 22 && endpoint_name(13)[0] == 'd') by {
        reveal_strlit("datetimearray_endpoint");
    }
    assert forall|i: int, j: int|
        0 <= i < ENDPOINT_COUNT && 0 <= j < ENDPOINT_COUNT && i != j implies endpoint_name(i)
            != endpoint_name(j) by {
        if endpoint_name(i) == endpoint_name(j) {
            assert(endpoint_name(i).len() == endpoint_name(j).len());
            assert(endpoint_name(i)[0] == endpoint_name(j)[0]);
        }
    }
}

/// Name of the endpoint at position `i` of the catalog.
pub fn endpoint(i: usize) -> (r: &'static str)
    requires
        i < ENDPOINT_COUNT,
    ensures
        r@ == endpoint_name(i as int),
{
    if i == 0 {
        "double_endpoint"
    } else if i == 1 {
        "integer_endpoint"
    } else if i == 2 {
        "boolean_endpoint"
    } else if i == 3 {
        "longinteger_endpoint"
    } else if i == 4 {
        "string_endpoint"
    } else if i == 5 {
        "binaryblob_endpoint"
    } else if i == 6 {
        "datetime_endpoint"
    } else if i == 7 {
        "doublearray_endpoint"
    } else if i == 8 {
        "integerarray_endpoint"
    } else if i == 9 {
        "booleanarray_endpoint"
    } else if i == 10 {
        "longintegerarray_endpoint"
    } else if i == 11 {
        "stringarray_endpoint"
    } else if i == 12 {
        "binaryblobarray_endpoint"
    } else {
        "datetimearray_endpoint"
    }
}

/// The names of the catalog, in catalog order.
pub fn endpoints() -> (r: Vec<String>)
    ensures
        r@.len() == ENDPOINT_COUNT,
        forall|i: int| 0 <= i < ENDPOINT_COUNT ==> #[trigger] r@[i]@ == endpoint_name(i),
{
    let mut r: Vec<String> = Vec::new();
    let mut i: usize = 0;
    while i < ENDPOINT_COUNT
        invariant
            0 <= i <= ENDPOINT_COUNT,
            r@.len() == i,
            forall|j: int| 0 <= j < i ==> #[trigger] r@[j]@ == endpoint_name(j),
        decreases ENDPOINT_COUNT - i,
    {
        r.push(endpoint(i).to_owned());
        i = i + 1;
    }
    r
}

/// Record with one value for each endpoint of the catalog.
///
/// Doubles are held as IEEE-754 bit patterns, date-times as milliseconds since
/// the Unix epoch (UTC).
#[derive(Clone, Debug)]
pub struct Data {
    pub double_endpoint: u64,
    pub integer_endpoint: i32,
    pub boolean_endpoint: bool,
    pub longinteger_endpoint: i64,
    pub string_endpoint: String,
    pub binaryblob_endpoint: Vec<u8>,
    pub datetime_endpoint: i64,
    pub doublearray_endpoint: Vec<u64>,
    pub integerarray_endpoint: Vec<i32>,
    pub booleanarray_endpoint: Vec<bool>,
    pub longintegerarray_endpoint: Vec<i64>,
    pub stringarray_endpoint: Vec<String>,
    pub binaryblobarray_endpoint: Vec<Vec<u8>>,
    pub datetimearray_endpoint: Vec<i64>,
}

impl View for Data {
    type V = Seq<DataView>;

    /// The values of the record in catalog order.
    open spec fn view(&self) -> Seq<DataView> {
        seq![
            DataView::Double(self.double_endpoint),
            DataView::Integer(self.integer_endpoint),
            DataView::Boolean(self.boolean_endpoint),
            DataView::LongInteger(self.longinteger_endpoint),
            DataView::String(self.string_endpoint@),
            DataView::BinaryBlob(self.binaryblob_endpoint@),
            DataView::DateTime(self.datetime_endpoint),
            DataView::DoubleArray(self.doublearray_endpoint@),
            DataView::IntegerArray(self.integerarray_endpoint@),
            DataView::BooleanArray(self.booleanarray_endpoint@),
            DataView::LongIntegerArray(self.longintegerarray_endpoint@),
            DataView::StringArray(self.stringarray_endpoint.deep_view()),
            DataView::BinaryBlobArray(self.binaryblobarray_endpoint.deep_view()),
            DataView::DateTimeArray(self.datetimearray_endpoint@),
        ]
    }
}

/// A sequence of values fits the catalog: one per endpoint, each of the endpoint's kind.
pub open spec fn fits_catalog(d: Seq<DataView>) -> bool {
    &&& d.len() == ENDPOINT_COUNT
    &&& forall|i: int| 0 <= i < ENDPOINT_COUNT ==> (#[trigger] d[i]).kind() == endpoint_kind(i)
}

/// The aggregate of a record: each endpoint name with its value, in catalog order.
pub open spec fn aggregate_of(d: Seq<DataView>) -> Seq<(Seq<char>, DataView)> {
    Seq::new(ENDPOINT_COUNT as nat, |i: int| (endpoint_name(i), d[i]))
}

/// Every name of the aggregate is an endpoint name.
pub open spec fn all_known(s: Seq<(Seq<char>, DataView)>) -> bool {
    forall|i: int| 0 <= i < s.len() ==> is_endpoint_name(#[trigger] s[i].0)
}

/// The aggregate holds endpoint `i` with a value of the endpoint's kind.
pub open spec fn holds_endpoint(s: Seq<(Seq<char>, DataView)>, i: int) -> bool {
    &&& has_key(s, endpoint_name(i))
    &&& value_of(s, endpoint_name(i)).kind() == endpoint_kind(i)
}

/// The aggregate converts to a record: no unknown name, every endpoint present and well typed.
pub open spec fn convertible(s: Seq<(Seq<char>, DataView)>) -> bool {
    &&& all_known(s)
    &&& forall|i: int| 0 <= i < ENDPOINT_COUNT ==> #[trigger] holds_endpoint(s, i)
}

/// The record that a convertible aggregate stands for.
pub open spec fn record_of(s: Seq<(Seq<char>, DataView)>) -> Seq<DataView> {
    Seq::new(ENDPOINT_COUNT as nat, |i: int| value_of(s, endpoint_name(i)))
}

/// Why an aggregate does not convert to a record.
#[derive(Clone, Debug)]
pub enum RecordError {
    /// The aggregate holds a name outside the catalog.
    UnknownField(String),
    /// The endpoint at this catalog position is absent.
    Missing(usize),
    /// The endpoint at this catalog position holds a value of another kind.
    WrongType(usize),
}

/// What `Data::from_aggregate` owes on aggregate `s`.
pub open spec fn from_aggregate_result(s: Seq<(Seq<char>, DataView)>, r: Result<Data, RecordError>) -> bool {
    &&& (r is Ok <==> convertible(s))
    &&& match r {
        Ok(d) => d@ == record_of(s),
        Err(RecordError::UnknownField(k)) => exists|i: int|
            0 <= i < s.len() && s[i].0 == k@ && !is_endpoint_name(k@) && forall|j: int|
                0 <= j < i ==> is_endpoint_name(#[trigger] s[j].0),
        Err(RecordError::Missing(e)) => {
            &&& all_known(s)
            &&& e < ENDPOINT_COUNT
            &&& !has_key(s, endpoint_name(e as int))
            &&& forall|j: int| 0 <= j < e ==> #[trigger] holds_endpoint(s, j)
        },
        Err(RecordError::WrongType(e)) => {
            &&& all_known(s)
            &&& e < ENDPOINT_COUNT
            &&& has_key(s, endpoint_name(e as int))
            &&& value_of(s, endpoint_name(e as int)).kind() != endpoint_kind(e as int)
            &&& forall|j: int| 0 <= j < e ==> #[trigger] holds_endpoint(s, j)
        },
    }
}

/// Whether `k` names an endpoint of the catalog.
pub fn is_endpoint(k: &String) -> (r: bool)
    ensures
        r == is_endpoint_name(k@),
{
    let mut i: usize = 0;
    while i < ENDPOINT_COUNT
        invariant
            0 <= i <= ENDPOINT_COUNT,
            forall|j: int| 0 <= j < i ==> endpoint_name(j) != k@,
        decreases ENDPOINT_COUNT - i,
    {
        if endpoint(i).to_owned() == *k {
            return true;
        }
        i = i + 1;
    }
    false
}

impl Data {
    /// The aggregate holding each endpoint's name with its value, in catalog order.
    pub fn to_aggregate(&self) -> (r: Aggregate)
        ensures
            r.wf(),
            r@ == aggregate_of(self@),
    {
        let entries = vec![
            Entry { key: endpoint(0).to_owned(), value: AstarteData::Double(self.double_endpoint) },
            Entry { key: endpoint(1).to_owned(), value: AstarteData::Integer(self.integer_endpoint) },
            Entry { key: endpoint(2).to_owned(), value: AstarteData::Boolean(self.boolean_endpoint) },
            Entry { key: endpoint(3).to_owned(), value: AstarteData::LongInteger(self.longinteger_endpoint) },
            Entry { key: endpoint(4).to_owned(), value: AstarteData::String(self.string_endpoint.clone()) },
            Entry { key: endpoint(5).to_owned(), value: AstarteData::BinaryBlob(self.binaryblob_endpoint.clone()) },
            Entry { key: endpoint(6).to_owned(), value: AstarteData::DateTime(self.datetime_endpoint) },
            Entry { key: endpoint(7).to_owned(), value: AstarteData::DoubleArray(self.doublearray_endpoint.clone()) },
            Entry { key: endpoint(8).to_owned(), value: AstarteData::IntegerArray(self.integerarray_endpoint.clone()) },
            Entry { key: endpoint(9).to_owned(), value: AstarteData::BooleanArray(self.booleanarray_endpoint.clone()) },
            Entry { key: endpoint(10).to_owned(), value: AstarteData::LongIntegerArray(self.longintegerarray_endpoint.clone()) },
            Entry { key: endpoint(11).to_owned(), value: AstarteData::StringArray(self.stringarray_endpoint.clone()) },
            Entry { key: endpoint(12).to_owned(), value: AstarteData::BinaryBlobArray(self.binaryblobarray_endpoint.clone()) },
            Entry { key: endpoint(13).to_owned(), value: AstarteData::DateTimeArray(self.datetimearray_endpoint.clone()) },
        ];
        let r = Aggregate { entries };
        proof {
            lemma_endpoint_names_distinct();
            assert(r@ =~= aggregate_of(self@));
        }
        r
    }

    /// The value of endpoint `i` in `agg`.
    fn lookup(agg: &Aggregate, i: usize) -> (r: Result<&AstarteData, RecordError>)
        requires
            agg.wf(),
            i < ENDPOINT_COUNT,
        ensures
            r is Err <==> !has_key(agg@, endpoint_name(i as int)),
            r matches Err(e) ==> e == RecordError::Missing(i),
            r matches Ok(v) ==> v@ == value_of(agg@, endpoint_name(i as int)),
    {
        match agg.get(&endpoint(i).to_owned()) {
            Some(v) => Ok(v),
            None => Err(RecordError::Missing(i)),
        }
    }

    /// The record that `agg` holds: fails on a name outside the catalog (the
    /// first such entry), then on the first endpoint, in catalog order, that is
    /// absent or holds a value of another kind.
    pub fn from_aggregate(agg: &Aggregate) -> (r: Result<Data, RecordError>)
        requires
            agg.wf(),
        ensures
            from_aggregate_result(agg@, r),
    {
        let mut k: usize = 0;
        while k < agg.entries.len()
            invariant
                0 <= k <= agg@.len(),
                forall|j: int| 0 <= j < k ==> is_endpoint_name(#[trigger] agg@[j].0),
            decreases agg@.len() - k,
        {
            if !is_endpoint(&agg.entries[k].key) {
                assert(agg@[k as int].0 == agg.entries@[k as int].key@);
                assert(!all_known(agg@));
                return Err(RecordError::UnknownField(agg.entries[k].key.clone()));
            }
            k = k + 1;
        }
        assert(all_known(agg@));
        let v = match Self::lookup(agg, 0) {
            Ok(v) => v,
            Err(e) => {
                assert(!holds_endpoint(agg@, 0));
                return Err(e);
            },
        };
        let double_endpoint = match v {
            AstarteData::Double(x) => *x,
            _ => {
                assert(!holds_endpoint(agg@, 0));
                return Err(RecordError::WrongType(0));
            },
        };
        assert(holds_endpoint(agg@, 0));
        let v = match Self::lookup(agg, 1) {
            Ok(v) => v,
            Err(e) => {
                assert(!holds_endpoint(agg@, 1));
                return Err(e);
            },
        };
        let integer_endpoint = match v {
            AstarteData::Integer(x) => *x,
            _ => {
                assert(!holds_endpoint(agg@, 1));
                return Err(RecordError::WrongType(1));
            },
        };
        assert(holds_endpoint(agg@, 1));
        let v = match Self::lookup(agg, 2) {
            Ok(v) => v,
            Err(e) => {
                assert(!holds_endpoint(agg@, 2));
                return Err(e);
            },
        };
        let boolean_endpoint = match v {
            AstarteData::Boolean(x) => *x,
            _ => {
                assert(!holds_endpoint(agg@, 2));
                return Err(RecordError::WrongType(2));
            },
        };
        assert(holds_endpoint(agg@, 2));
        let v = match Self::lookup(agg, 3) {
            Ok(v) => v,
            Err(e) => {
                assert(!holds_endpoint(agg@, 3));
                return Err(e);
            },
        };
        let longinteger_endpoint = match v {
            AstarteData::LongInteger(x) => *x,
            _ => {
                assert(!holds_endpoint(agg@, 3));
                return Err(RecordError::WrongType(3));
            },
        };
        assert(holds_endpoint(agg@, 3));
        let v = match Self::lookup(agg, 4) {
            Ok(v) => v,
            Err(e) => {
                assert(!holds_endpoint(agg@, 4));
                return Err(e);
            },
        };
        let string_endpoint = match v {
            AstarteData::String(x) => x.clone(),
            _ => {
                assert(!holds_endpoint(agg@, 4));
                return Err(RecordError::WrongType(4));
            },
        };
        assert(holds_endpoint(agg@, 4));
        let v = match Self::lookup(agg, 5) {
            Ok(v) => v,
            Err(e) => {
                assert(!holds_endpoint(agg@, 5));
                return Err(e);
            },
        };
        let binaryblob_endpoint = match v {
            AstarteData::BinaryBlob(x) => x.clone(),
            _ => {
                assert(!holds_endpoint(agg@, 5));
                return Err(RecordError::WrongType(5));
            },
        };
        assert(holds_endpoint(agg@, 5));
        let v = match Self::lookup(agg, 6) {
            Ok(v) => v,
            Err(e) => {
                assert(!holds_endpoint(agg@, 6));
                return Err(e);
            },
        };
        let datetime_endpoint = match v {
            AstarteData::DateTime(x) => *x,
            _ => {
                assert(!holds_endpoint(agg@, 6));
                return Err(RecordError::WrongType(6));
            },
        };
        assert(holds_endpoint(agg@, 6));
        let v = match Self::lookup(agg, 7) {
            Ok(v) => v,
            Err(e) => {
                assert(!holds_endpoint(agg@, 7));
                return Err(e);
            },
        };
        let doublearray_endpoint = match v {
            AstarteData::DoubleArray(x) => x.clone(),
            _ => {
                assert(!holds_endpoint(agg@, 7));
                return Err(RecordError::WrongType(7));
            },
        };
        assert(holds_endpoint(agg@, 7));
        let v = match Self::lookup(agg, 8) {
            Ok(v) => v,
            Err(e) => {
                assert(!holds_endpoint(agg@, 8));
                return Err(e);
            },
        };
        let integerarray_endpoint = match v {
            AstarteData::IntegerArray(x) => x.clone(),
            _ => {
                assert(!holds_endpoint(agg@, 8));
                return Err(RecordError::WrongType(8));
            },
        };
        assert(holds_endpoint(agg@, 8));
        let v = match Self::lookup(agg, 9) {
            Ok(v) => v,
            Err(e) => {
                assert(!holds_endpoint(agg@, 9));
                return Err(e);
            },
        };
        let booleanarray_endpoint = match v {
            AstarteData::BooleanArray(x) => x.clone(),
            _ => {
                assert(!holds_endpoint(agg@, 9));
                return Err(RecordError::WrongType(9));
            },
        };
        assert(holds_endpoint(agg@, 9));
        let v = match Self::lookup(agg, 10) {
            Ok(v) => v,
            Err(e) => {
                assert(!holds_endpoint(agg@, 10));
                return Err(e);
            },
        };
        let longintegerarray_endpoint = match v {
            AstarteData::LongIntegerArray(x) => x.clone(),
            _ => {
                assert(!holds_endpoint(agg@, 10));
                return Err(RecordError::WrongType(10));
            },
        };
        assert(holds_endpoint(agg@, 10));
        let v = match Self::lookup(agg, 11) {
            Ok(v) => v,
            Err(e) => {
                assert(!holds_endpoint(agg@, 11));
                return Err(e);
            },
        };
        let stringarray_endpoint = match v {
            AstarteData::StringArray(x) => x.clone(),
            _ => {
                assert(!holds_endpoint(agg@, 11));
                return Err(RecordError::WrongType(11));
            },
        };
        assert(holds_endpoint(agg@, 11));
        let v = match Self::lookup(agg, 12) {
            Ok(v) => v,
            Err(e) => {
                assert(!holds_endpoint(agg@, 12));
                return Err(e);
            },
        };
        let binaryblobarray_endpoint = match v {
            AstarteData::BinaryBlobArray(x) => x.clone(),
            _ => {
                assert(!holds_endpoint(agg@, 12));
                return Err(RecordError::WrongType(12));
            },
        };
        assert(holds_endpoint(agg@, 12));
        let v = match Self::lookup(agg, 13) {
            Ok(v) => v,
            Err(e) => {
                assert(!holds_endpoint(agg@, 13));
                return Err(e);
            },
        };
        let datetimearray_endpoint = match v {
            AstarteData::DateTimeArray(x) => x.clone(),
            _ => {
                assert(!holds_endpoint(agg@, 13));
                return Err(RecordError::WrongType(13));
            },
        };
        assert(holds_endpoint(agg@, 13));
        let d = Data {
            double_endpoint,
            integer_endpoint,
            boolean_endpoint,
            longinteger_endpoint,
            string_endpoint,
            binaryblob_endpoint,
            datetime_endpoint,
            doublearray_endpoint,
            integerarray_endpoint,
            booleanarray_endpoint,
            longintegerarray_endpoint,
            stringarray_endpoint,
            binaryblobarray_endpoint,
            datetimearray_endpoint,
        };
        assert forall|i: int| 0 <= i < ENDPOINT_COUNT implies #[trigger] holds_endpoint(agg@, i) by {
            assert(i == 0 || i == 1 || i == 2 || i == 3 || i == 4 || i == 5 || i == 6 || i == 7 || i == 8 || i == 9 || i == 10 || i == 11 || i == 12 || i == 13);
        }
        assert(d@ =~= record_of(agg@));
        Ok(d)
    }
}

/// Round trip: the aggregate of a record converts back, and to that same record.
/// Whatever `Data::from_aggregate` returns on `to_aggregate`'s result is `Ok` of
/// a record equal to the one converted.
pub proof fn lemma_round_trip(d: Data, r: Result<Data, RecordError>)
    requires
        from_aggregate_result(aggregate_of(d@), r),
    ensures
        r matches Ok(e) && e@ == d@,
{
    let s = aggregate_of(d@);
    lemma_endpoint_names_distinct();
    assert(keys_unique(s));
    assert forall|i: int| 0 <= i < s.len() implies is_endpoint_name(#[trigger] s[i].0) by {
        assert(endpoint_name(i) == s[i].0);
    }
    assert forall|i: int| 0 <= i < ENDPOINT_COUNT implies #[trigger] holds_endpoint(s, i)
        && value_of(s, endpoint_name(i)) == d@[i] by {
        lemma_value_at(s, i);
        assert(0 <= i < 14 ==> i == 0 || i == 1 || i == 2 || i == 3 || i == 4 || i == 5 || i == 6
            || i == 7 || i == 8 || i == 9 || i == 10 || i == 11 || i == 12 || i == 13);
    }
    assert(convertible(s));
    assert forall|i: int| 0 <= i < ENDPOINT_COUNT implies #[trigger] record_of(s)[i] == d@[i] by {
        lemma_value_at(s, i);
    }
    assert(record_of(s) =~= d@);
}

impl Default for Data {
    /// The fixture used as the expected value of every exchange.
    fn default() -> (r: Data)
        ensures
            r@ == default_record(),
    {
        let hello: Vec<u8> = vec![104, 101, 108, 108, 111];
        let doubles: Vec<u64> = vec![4631318898052956160, 4622100592565682176, 4622888722500472013];
        let integers: Vec<i32> = vec![-4, 123, -2222, 30];
        let booleans: Vec<bool> = vec![true, false];
        let longs: Vec<i64> = vec![53267895478, 53267895428, 53267895118];
        let strings: Vec<String> = vec!["Test ".to_owned(), "String".to_owned()];
        let blobs: Vec<Vec<u8>> = vec![hello.clone(), hello.clone()];
        let dates: Vec<i64> = vec![1635011208000, 1636652808000];
        let r = Data {
            double_endpoint: 4616572424023084892,
            integer_endpoint: 1,
            boolean_endpoint: true,
            longinteger_endpoint: 45543543534,
            string_endpoint: "Hello".to_owned(),
            binaryblob_endpoint: hello,
            datetime_endpoint: 1632937608000,
            doublearray_endpoint: doubles,
            integerarray_endpoint: integers,
            booleanarray_endpoint: booleans,
            longintegerarray_endpoint: longs,
            stringarray_endpoint: strings,
            binaryblobarray_endpoint: blobs,
            datetimearray_endpoint: dates,
        };
        proof {
            let h = seq![104u8, 101u8, 108u8, 108u8, 111u8];
            assert(r.binaryblob_endpoint@ =~= h);
            assert(r.doublearray_endpoint@ =~= seq![4631318898052956160u64, 4622100592565682176u64, 4622888722500472013u64]);
            assert(r.integerarray_endpoint@ =~= seq![-4i32, 123i32, -2222i32, 30i32]);
            assert(r.booleanarray_endpoint@ =~= seq![true, false]);
            assert(r.longintegerarray_endpoint@ =~= seq![53267895478i64, 53267895428i64, 53267895118i64]);
            assert(r.stringarray_endpoint.deep_view() =~= seq!["Test "@, "String"@]);
            assert(r.binaryblobarray_endpoint@[0]@ =~= h);
            assert(r.binaryblobarray_endpoint@[1]@ =~= h);
            assert(r.binaryblobarray_endpoint.deep_view()[0] =~= h);
            assert(r.binaryblobarray_endpoint.deep_view()[1] =~= h);
            assert(r.binaryblobarray_endpoint.deep_view() =~= seq![h, h]);
            assert(r.datetimearray_endpoint@ =~= seq![1635011208000i64, 1636652808000i64]);
            assert(r@ =~= default_record());
        }
        r
    }
}

/// The fixture: 4.34, 1, true, 45543543534, "Hello", the bytes of "hello",
/// 2021-09-29T17:46:48Z, [43.5, 10.5, 11.9], [-4, 123, -2222, 30], [true, false],
/// three long integers, ["Test ", "String"], two blobs "hello", and
/// 2021-10-23T17:46:48Z, 2021-11-11T17:46:48Z (doubles as bit patterns, date-times
/// as milliseconds since the epoch).
pub open spec fn default_record() -> Seq<DataView> {
    let hello = seq![104u8, 101u8, 108u8, 108u8, 111u8];
    seq![
        DataView::Double(4616572424023084892),
        DataView::Integer(1),
        DataView::Boolean(true),
        DataView::LongInteger(45543543534),
        DataView::String("Hello"@),
        DataView::BinaryBlob(hello),
        DataView::DateTime(1632937608000),
        DataView::DoubleArray(seq![4631318898052956160u64, 4622100592565682176u64, 4622888722500472013u64]),
        DataView::IntegerArray(seq![-4i32, 123i32, -2222i32, 30i32]),
        DataView::BooleanArray(seq![true, false]),
        DataView::LongIntegerArray(seq![53267895478i64, 53267895428i64, 53267895118i64]),
        DataView::StringArray(seq!["Test "@, "String"@]),
        DataView::BinaryBlobArray(seq![hello, hello]),
        DataView::DateTimeArray(seq![1635011208000i64, 1636652808000i64]),
    ]
}

} // verus!

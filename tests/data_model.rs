use e2e_test::aggregate::{Aggregate, Entry};
use e2e_test::codec::{
    decode_blob, decode_blob_array, decode_long_integer, decode_long_integer_array, encode_blob,
    encode_blob_array, encode_long_integer, encode_long_integer_array,
};
use e2e_test::interfaces::{
    additional_interface_names, interface_names, AdditionalServerDatastream, DeviceAggregate, DeviceDatastream,
    ServerAggregate,
};
use e2e_test::record::{endpoint, endpoints, is_endpoint, Data, RecordError, ENDPOINT_COUNT};
use e2e_test::value::{AstarteData, Kind};

fn same(a: &Data, b: &Data) -> bool {
    a.to_aggregate().entries.iter().zip(b.to_aggregate().entries.iter()).all(|(x, y)| {
        x.key == y.key && x.value.equals(&y.value)
    })
}

#[test]
fn default_fixture_values() {
    let d = Data::default();
    assert_eq!(f64::from_bits(d.double_endpoint), 4.34);
    assert_eq!(d.integer_endpoint, 1);
    assert!(d.boolean_endpoint);
    assert_eq!(d.longinteger_endpoint, 45543543534);
    assert_eq!(d.string_endpoint, "Hello");
    assert_eq!(d.binaryblob_endpoint, b"hello".to_vec());
    assert_eq!(d.datetime_endpoint, 1632937608000);
    let doubles: Vec<f64> = d.doublearray_endpoint.iter().map(|b| f64::from_bits(*b)).collect();
    assert_eq!(doubles, vec![43.5, 10.5, 11.9]);
    assert_eq!(d.integerarray_endpoint, vec![-4, 123, -2222, 30]);
    assert_eq!(d.booleanarray_endpoint, vec![true, false]);
    assert_eq!(d.longintegerarray_endpoint, vec![53267895478, 53267895428, 53267895118]);
    assert_eq!(d.stringarray_endpoint, vec!["Test ".to_string(), "String".to_string()]);
    assert_eq!(d.binaryblobarray_endpoint, vec![b"hello".to_vec(), b"hello".to_vec()]);
    assert_eq!(d.datetimearray_endpoint, vec![1635011208000, 1636652808000]);
}

#[test]
fn catalog_has_fourteen_names_in_order() {
    let names = endpoints();
    assert_eq!(names.len(), ENDPOINT_COUNT);
    assert_eq!(names[0], "double_endpoint");
    assert_eq!(names[1], "integer_endpoint");
    assert_eq!(names[13], "datetimearray_endpoint");
    let mut sorted = names.clone();
    sorted.sort();
    sorted.dedup();
    assert_eq!(sorted.len(), ENDPOINT_COUNT);
    assert!(is_endpoint(&"stringarray_endpoint".to_string()));
    assert!(!is_endpoint(&"/stringarray_endpoint".to_string()));
}

#[test]
fn aggregate_follows_catalog_order() {
    let agg = Data::default().to_aggregate();
    assert_eq!(agg.len(), ENDPOINT_COUNT);
    for i in 0..ENDPOINT_COUNT {
        assert_eq!(agg.entries[i].key, endpoint(i));
    }
    let v = agg.get(&"integer_endpoint".to_string()).unwrap();
    assert!(v.equals(&AstarteData::Integer(1)));
    assert_eq!(v.kind(), Kind::Integer);
    let v = agg.get(&"longinteger_endpoint".to_string()).unwrap();
    assert!(v.equals(&AstarteData::LongInteger(45543543534)));
    assert!(!v.equals(&AstarteData::Integer(1)));
}

#[test]
fn round_trip_default_record() {
    let d = Data::default();
    let back = Data::from_aggregate(&d.to_aggregate()).unwrap();
    assert!(same(&d, &back));
    assert_eq!(back.string_endpoint, "Hello");
    assert_eq!(back.binaryblobarray_endpoint, d.binaryblobarray_endpoint);
}

#[test]
fn round_trip_edge_values() {
    let mut d = Data::default();
    d.longinteger_endpoint = i64::MIN;
    d.integer_endpoint = i32::MIN;
    d.binaryblob_endpoint = Vec::new();
    d.binaryblobarray_endpoint = vec![Vec::new(), vec![0, 255]];
    d.stringarray_endpoint = Vec::new();
    d.longintegerarray_endpoint = vec![i64::MAX, -1];
    d.double_endpoint = (-0.0f64).to_bits();
    let back = Data::from_aggregate(&d.to_aggregate()).unwrap();
    assert!(same(&d, &back));
    assert_eq!(back.longinteger_endpoint, i64::MIN);
    assert_eq!(back.binaryblob_endpoint, Vec::<u8>::new());
    assert_eq!(back.longintegerarray_endpoint, vec![i64::MAX, -1]);
}

#[test]
fn round_trip_is_order_independent() {
    let agg = Data::default().to_aggregate();
    let mut reversed = Aggregate::new();
    for e in agg.entries.iter().rev() {
        reversed.insert(e.key.clone(), e.value.duplicate());
    }
    assert_eq!(reversed.entries[0].key, "datetimearray_endpoint");
    let back = Data::from_aggregate(&reversed).unwrap();
    assert!(same(&back, &Data::default()));
}

#[test]
fn unknown_field_is_rejected() {
    let mut agg = Data::default().to_aggregate();
    agg.insert("extra".to_string(), AstarteData::Boolean(false));
    match Data::from_aggregate(&agg) {
        Err(RecordError::UnknownField(k)) => assert_eq!(k, "extra"),
        other => panic!("unexpected {:?}", other),
    }
}

#[test]
fn missing_field_is_rejected() {
    let full = Data::default().to_aggregate();
    let mut agg = Aggregate::new();
    for e in full.entries.iter() {
        if e.key != "boolean_endpoint" && e.key != "string_endpoint" {
            agg.insert(e.key.clone(), e.value.duplicate());
        }
    }
    match Data::from_aggregate(&agg) {
        Err(RecordError::Missing(i)) => assert_eq!(i, 2),
        other => panic!("unexpected {:?}", other),
    }
    assert!(matches!(
        Data::from_aggregate(&Aggregate::new()),
        Err(RecordError::Missing(0))
    ));
}

#[test]
fn wrong_type_is_rejected() {
    let mut agg = Data::default().to_aggregate();
    agg.insert("longinteger_endpoint".to_string(), AstarteData::Integer(7));
    assert_eq!(agg.len(), ENDPOINT_COUNT);
    match Data::from_aggregate(&agg) {
        Err(RecordError::WrongType(i)) => assert_eq!(i, 3),
        other => panic!("unexpected {:?}", other),
    }
}

#[test]
fn unknown_field_reported_before_missing() {
    let mut agg = Aggregate::new();
    agg.insert("double_endpoint".to_string(), AstarteData::Integer(1));
    agg.insert("nope".to_string(), AstarteData::Integer(1));
    assert!(matches!(Data::from_aggregate(&agg), Err(RecordError::UnknownField(_))));
}

#[test]
fn insert_replaces_existing_name() {
    let mut agg = Aggregate::new();
    assert!(agg.is_empty());
    agg.insert("a".to_string(), AstarteData::Integer(1));
    agg.insert("b".to_string(), AstarteData::Integer(2));
    agg.insert("a".to_string(), AstarteData::Integer(3));
    assert_eq!(agg.len(), 2);
    assert_eq!(agg.entries[0].key, "a");
    assert!(agg.get(&"a".to_string()).unwrap().equals(&AstarteData::Integer(3)));
    assert!(agg.get(&"c".to_string()).is_none());
    assert!(agg.wf_check());
    let dup = Aggregate {
        entries: vec![
            Entry { key: "a".to_string(), value: AstarteData::Integer(1) },
            Entry { key: "a".to_string(), value: AstarteData::Integer(2) },
        ],
    };
    assert!(!dup.wf_check());
}

#[test]
fn long_integer_codec_round_trip() {
    for x in [0i64, -1, 1, i64::MIN, i64::MAX, 45543543534, -(1i64 << 40)] {
        assert_eq!(decode_long_integer(&encode_long_integer(x)), Some(x));
    }
    assert_eq!(decode_long_integer(&AstarteData::Integer(5)), None);
    let xs = vec![i64::MIN, 0, 53267895478];
    assert_eq!(decode_long_integer_array(&encode_long_integer_array(xs.clone())), Some(xs));
    assert_eq!(decode_long_integer_array(&AstarteData::IntegerArray(vec![1])), None);
}

#[test]
fn blob_codec_round_trip() {
    for b in [Vec::new(), vec![0u8], b"hello".to_vec(), (0..=255).collect::<Vec<u8>>()] {
        assert_eq!(decode_blob(&encode_blob(b.clone())), Some(b));
    }
    assert_eq!(decode_blob(&AstarteData::String("aGVsbG8=".to_string())), None);
    let bs = vec![Vec::new(), b"hello".to_vec()];
    assert_eq!(decode_blob_array(&encode_blob_array(bs.clone())), Some(bs));
    assert_eq!(decode_blob_array(&AstarteData::BinaryBlob(vec![1])), None);
}

#[test]
fn interface_identities() {
    assert_eq!(DeviceAggregate::name(), "org.astarte-platform.rust.e2etest.DeviceAggregate");
    assert_eq!(DeviceAggregate::path(), "/sendor_1");
    assert_eq!(ServerAggregate::path(), "/sendor_1");
    assert_eq!(
        AdditionalServerDatastream::name(),
        "org.astarte-platform.rust.e2etest.AdditionalServerDatastream"
    );
    assert_eq!(
        additional_interface_names(),
        vec![
            "org.astarte-platform.rust.e2etest.AdditionalDeviceDatastream".to_string(),
            "org.astarte-platform.rust.e2etest.AdditionalServerDatastream".to_string(),
        ]
    );
    let names = interface_names();
    let mut sorted = names.clone();
    sorted.sort();
    assert_eq!(names, sorted);
    assert_eq!(names.len(), 6);
    let obj = DeviceDatastream::default().into_object();
    assert_eq!(obj.len(), ENDPOINT_COUNT);
    assert!(Data::from_aggregate(&obj).is_ok());
}

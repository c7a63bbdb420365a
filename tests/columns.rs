use fire_postgres::column::{Column, ColumnKind, ColumnType, IndexKind};
use fire_postgres::data::{ColumnData, FromDataError, Text, TextArray};
use fire_postgres::filter::ParamData;
use fire_postgres::json::Json;
use fire_postgres::time::{Date, DateTime, Duration, FullDuration, Timeout};
use fire_postgres::uid::UniqueId;

fn round_trip<T: ColumnType + PartialEq + std::fmt::Debug>(x: T) {
    let data = x.to_data();
    let back = T::from_data(data).unwrap();
    assert_eq!(back, x);
}

#[test]
fn round_trip_of_every_column_type() {
    round_trip(true);
    round_trip(false);
    round_trip(0i64);
    round_trip(-1i64);
    round_trip(i64::MAX);
    round_trip(i64::MIN);
    round_trip(0i32);
    round_trip(-7i32);
    round_trip(i32::MAX);
    round_trip(i32::MIN);
    round_trip(0i16);
    round_trip(i16::MAX);
    round_trip(i16::MIN);
    round_trip(String::new());
    round_trip("some text".to_string());
    round_trip(Some(5i32));
    round_trip(None::<i32>);
    round_trip(Some(String::new()));
    round_trip(Some(None::<bool>));
    round_trip(Date::from_days_since_1970(19581));
    round_trip(Date::from_days_since_1970(-1));
    round_trip(DateTime::from_microsecs_since_2000(0));
    round_trip(DateTime::from_microsecs_since_2000(i64::MIN));
}

#[test]
fn nullable_accepts_bare_value() {
    let v = Option::<i32>::from_data(ColumnData::I32(4)).unwrap();
    assert_eq!(v, Some(4));
    let v = Option::<i32>::from_data(ColumnData::Option(None)).unwrap();
    assert_eq!(v, None);
}

#[test]
fn from_data_expected_type() {
    assert_eq!(i32::from_data(ColumnData::I64(1)), Err(FromDataError::ExpectedType("i32")));
    assert_eq!(bool::from_data(ColumnData::I16(1)), Err(FromDataError::ExpectedType("bool")));
    assert_eq!(
        String::from_data(ColumnData::Boolean(true)),
        Err(FromDataError::ExpectedType("text"))
    );
    assert_eq!(
        Option::<i16>::from_data(ColumnData::Boolean(true)),
        Err(FromDataError::ExpectedType("i16"))
    );
    assert_eq!(String::from_data(ColumnData::Text(Text::Borrowed("b"))), Ok("b".to_string()));
}

#[test]
fn column_kinds_of_types() {
    assert_eq!(bool::column_kind(), ColumnKind::Boolean);
    assert_eq!(i64::column_kind(), ColumnKind::I64);
    assert_eq!(String::column_kind(), ColumnKind::Text);
    assert_eq!(
        Option::<i16>::column_kind(),
        ColumnKind::Option(Box::new(ColumnKind::I16))
    );
    assert_eq!(UniqueId::column_kind(), ColumnKind::FixedText(14));
    assert_eq!(Timeout::column_kind(), ColumnKind::I64);
}

#[test]
fn column_kind_text() {
    assert_eq!(ColumnKind::Varchar(20).to_string("n"), "varchar(20)");
    assert_eq!(ColumnKind::FixedText(14).to_string("id"), "text CHECK (length(id)=14)");
    assert_eq!(
        ColumnKind::Option(Box::new(ColumnKind::FixedText(3))).to_string("c"),
        "text CHECK (length(c)=3)"
    );
    assert_eq!(ColumnKind::F64.short(), "float8");
    assert_eq!(ColumnKind::F32.short(), "float4");
    assert_eq!(ColumnKind::TextArray.short(), "text []");
    assert_eq!(ColumnKind::Json.to_string("j"), "json");
    assert_eq!(ColumnKind::Bytea.value("b"), "");
    assert_eq!(ColumnKind::Date.not_null_str(), "not null");
    assert_eq!(ColumnKind::Option(Box::new(ColumnKind::Date)).not_null_str(), "null");
    assert_eq!(ColumnKind::Timestamp.short(), "timestamp");
}

#[test]
fn column_with_length_is_varchar() {
    let c = Column::new::<String>("name", Some(30), IndexKind::Unique);
    assert_eq!(c.kind, ColumnKind::Varchar(30));
    assert_eq!(c.name, "name");
    assert!(!c.index.is_none());
    assert!(IndexKind::NoIndex.is_none());
    let c = Column::new::<i32>("n", None, IndexKind::NoIndex);
    assert_eq!(c.kind, ColumnKind::I32);
}

#[test]
fn text_and_arrays() {
    let t = Text::Borrowed("héllo");
    assert_eq!(t.len(), 6);
    assert_eq!(t.as_str(), "héllo");
    assert_eq!(Text::Owned("x".to_string()).into_string(), "x");
    let owned = vec!["a".to_string(), "b".to_string()];
    let arr = TextArray::SliceOwned(&owned);
    assert_eq!(arr.len(), 2);
    assert_eq!(arr.into_vec_owned(), owned);
    let strs = vec!["c", "d", "e"];
    assert_eq!(TextArray::VecStr(strs.clone()).into_vec_owned(), vec!["c", "d", "e"]);
    assert_eq!(TextArray::VecStr(strs.clone()).unwrap_vec_str(), strs);
    assert_eq!(TextArray::SliceStr(&strs).len(), 3);
    assert!(ColumnData::Option(None).is_null());
    assert!(!ColumnData::I32(0).is_null());
    assert_eq!(ColumnData::Text(Text::Borrowed("q")).unwrap_text(), Text::Borrowed("q"));
}

#[test]
fn param_data_nullness() {
    assert!(ParamData::is_null(&None::<i32>));
    assert!(!ParamData::is_null(&Some(1)));
    assert!(!ParamData::is_null(&Vec::<i32>::new()));
    assert!(!ParamData::is_null(&String::new()));
    assert!(!ParamData::is_null(&0i64));
}

#[test]
fn unique_id_text() {
    let id = UniqueId::parse_from_b64("AGCGeWIDTlipbg").unwrap();
    assert_eq!(id.to_b64(), "AGCGeWIDTlipbg");
    let raw = UniqueId::from_raw([1, 2, 3, 4, 5, 6, 7, 8, 9, 10]);
    let text = raw.to_b64();
    assert_eq!(text.len(), 14);
    assert_ne!(text, "AQIDBAUGBwgJCg=");
    assert_eq!(text, "AQIDBAUGBwgJCg");
    assert_eq!(UniqueId::parse_from_b64(&text).unwrap(), raw);
    assert_eq!(UniqueId::try_parse("short"), None);
    assert_eq!(UniqueId::try_parse("AQIDBAUGBwgJCg"), Some(raw));
    assert_eq!(UniqueId::from_data(raw.to_data()), Ok(raw));
    assert_eq!(
        UniqueId::from_data(ColumnData::I32(1)),
        Err(FromDataError::ExpectedType("char with 14 chars for unique id"))
    );
    assert!(matches!(
        UniqueId::from_data(ColumnData::Text(Text::Borrowed("!!!!!!!!!!!!!!"))),
        Err(FromDataError::CustomString(_))
    ));
}

#[test]
fn unique_id_bytes_and_seconds() {
    let id = UniqueId::from_parts(0x01_0203_0405, [9, 8, 7, 6, 5]);
    assert_eq!(id.into_bytes(), [1, 2, 3, 4, 5, 9, 8, 7, 6, 5]);
    assert_eq!(id.since_unix_secs(), 0x01_0203_0405);
    assert_eq!(id.as_slice(), &[1, 2, 3, 4, 5, 9, 8, 7, 6, 5]);
    assert_eq!(UniqueId::from_slice_unchecked(id.as_slice()), id);
    assert_eq!(UniqueId::from_bytes(id.into_bytes()), id);
    let big = UniqueId::from_parts(0xff_01_0203_0405, [0; 5]);
    assert_eq!(big.since_unix_secs(), 0x01_0203_0405);
    let fresh = UniqueId::new(1_700_000_000).unwrap();
    assert_eq!(fresh.since_unix_secs(), 1_700_000_000);
}

#[test]
fn timeouts() {
    let t = Timeout::from_secs(100).unwrap();
    assert_eq!(t.as_secs(), 100);
    assert!(Timeout::from_secs(u64::MAX).is_none());
    let now = Timeout::from_parts(90, 500).unwrap();
    assert!(!t.has_elapsed(&now));
    let later = Timeout::from_parts(100, 1).unwrap();
    assert!(t.has_elapsed(&later));
    let rem = t.remaining(&now).unwrap();
    assert_eq!(rem.as_secs(), 9);
    assert_eq!(rem.subsec_nanos(), 999_999_500);
    assert!(t.remaining(&later).is_none());
    let after = Timeout::new(&now, &FullDuration::new(5, 1_000_000_100)).unwrap();
    assert_eq!(after.as_secs(), 96);
    assert_eq!(after.subsec_nanos(), 600);
    assert_eq!(Timeout::from_data(t.to_data()), Ok(t));
    assert!(matches!(
        Timeout::from_data(ColumnData::I64(-1)),
        Err(FromDataError::CustomString(_))
    ));
    assert_eq!(
        Timeout::from_data(ColumnData::I32(1)),
        Err(FromDataError::ExpectedType("expected i64 for u64"))
    );
}

#[test]
fn durations() {
    let d = Duration::new(42);
    assert_eq!(d.as_secs(), 42);
    assert_eq!(d.into_std(), std::time::Duration::from_secs(42));
    let f = FullDuration::new(1, 2_500_000_000);
    assert_eq!(f.as_secs(), 3);
    assert_eq!(f.subsec_nanos(), 500_000_000);
}

#[test]
fn json_holds_its_value() {
    let j = Json::new(vec![1, 2]);
    assert_eq!(j.into_inner(), vec![1, 2]);
}

#[test]
fn dates_as_numbers() {
    let d = Date::from_days_since_1970(19581);
    assert_eq!(d.to_days_since_1970(), 19581);
    assert_eq!(d.to_data(), ColumnData::Date(19581));
    assert_eq!(Date::column_kind(), ColumnKind::Date);
    assert_eq!(Date::from_data(ColumnData::I32(1)), Err(FromDataError::ExpectedType("Date")));
    let t = DateTime::from_microsecs_since_2000(5);
    assert_eq!(t.to_microsecs_since_2000(), 5);
    assert_eq!(DateTime::column_kind(), ColumnKind::Timestamp);
    assert_eq!(
        DateTime::from_data(ColumnData::I64(1)),
        Err(FromDataError::ExpectedType("Timestamp"))
    );
}

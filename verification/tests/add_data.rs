use poem::endpoint::{DataProbe, Endpoint, Error, Fail, ReadData};
use poem::middleware::{AddData, Middleware};
use poem::request::Request;
use poem::store::Extensions;

#[test]
fn test_add_data() {
    let ep = AddData::new(100i32).transform(DataProbe::<i32>::new());
    let r = ep.call(Request::new());
    assert_eq!(r, Ok(Some(100)));
}

#[test]
fn overwrite_last_wins() {
    let first = AddData::new("first".to_string());
    let second = AddData::new("second".to_string());
    let ep = first.transform(second.transform(DataProbe::<String>::new()));
    let r = ep.call(Request::new());
    assert_eq!(r, Ok(Some("second".to_string())));
}

#[test]
fn isolation_across_types() {
    let mut ext = Extensions::new();
    ext.insert(5i32);
    assert_eq!(ext.get::<String>(), None);
    assert_eq!(ext.get::<u64>(), None);
    assert_eq!(ext.get::<i32>(), Some(&5));
}

#[test]
fn wrapping_does_not_hide_other_types() {
    let ep = AddData::new(5i32).transform(DataProbe::<String>::new());
    let r = ep.call(Request::new());
    assert_eq!(r, Ok(None));
}

#[test]
fn error_passes_through_unchanged() {
    let ep = AddData::new(1u8).transform(Fail::new(7));
    let r = ep.call(Request::new());
    assert_eq!(r, Err(Error::new(7)));
}

#[test]
fn success_passes_through_unchanged() {
    let ep = AddData::new(3u16).transform(DataProbe::<u16>::new());
    let r = ep.call(Request::new());
    assert_eq!(r, Ok(Some(3)));
}

#[test]
fn no_cross_request_leakage() {
    let ep = AddData::new(9i32).transform(DataProbe::<String>::new());

    let mut req1 = Request::new();
    req1.extensions_mut().insert("one".to_string());
    let mut req2 = Request::new();
    req2.extensions_mut().insert("two".to_string());

    assert_eq!(ep.call(req1), Ok(Some("one".to_string())));
    assert_eq!(ep.call(req2), Ok(Some("two".to_string())));
}

#[test]
fn store_overwrites_per_type() {
    let mut ext = Extensions::new();
    ext.insert(1i32);
    ext.insert(2i32);
    assert_eq!(ext.get::<i32>(), Some(&2));
}

#[test]
fn empty_store_has_nothing() {
    let ext = Extensions::new();
    assert_eq!(ext.get::<i32>(), None);
    assert_eq!(ext.get::<String>(), None);
}

#[test]
fn store_holds_many_types_at_once() {
    let mut ext = Extensions::new();
    ext.insert(5i32);
    ext.insert("text".to_string());
    ext.insert(true);
    assert_eq!(ext.get::<i32>(), Some(&5));
    assert_eq!(ext.get::<String>(), Some(&"text".to_string()));
    assert_eq!(ext.get::<bool>(), Some(&true));
}

#[test]
fn reader_sees_installed_slot() {
    let ep = AddData::new(42u32).transform(ReadData::of::<u32>());
    let r = ep.call(Request::new());
    assert!(matches!(r, Ok(Some(_))));

    let bare = ReadData::of::<u32>();
    assert!(matches!(bare.call(Request::new()), Ok(None)));
}

#[test]
fn shared_handle_duplicates_value() {
    let ep = AddData::new("shared".to_string()).transform(DataProbe::<String>::new());
    assert_eq!(ep.call(Request::new()), Ok(Some("shared".to_string())));
    assert_eq!(ep.call(Request::new()), Ok(Some("shared".to_string())));
}

use timesman::store::json::JsonStore;
use timesman::store::remote::{latest_post, request_result, status_result, RemoteStore};
use timesman::store::{Post, Times};
use timesman::text::{decimal_string, parse_u64_str, signed_decimal_string, zero_padded_string};
use timesman::time::DateTime;

fn at(secs: i64) -> DateTime {
    DateTime::from_timestamp(secs, 0).unwrap()
}

fn post(id: i64, text: &str) -> Post {
    Post { id, post: text.to_string(), created_at: at(0), updated_at: None }
}

#[test]
fn it_works() {}

#[test]
fn json_store_only_reads() {
    let times = Times { id: 7, title: "t".to_string(), created_at: at(0), updated_at: None };
    let mut s = JsonStore::new(times, vec![post(1, "a")]);
    assert!(s.check().is_ok());
    assert_eq!(s.get_times().unwrap()[0].id, 7);
    assert_eq!(s.get_posts(7).unwrap().len(), 1);
    assert_eq!(s.get_posts(8).unwrap_err(), "unknown tid found");
    assert_eq!(s.create_times("x".to_string()).unwrap_err(), "not supported to create times");
    assert_eq!(s.delete_times(7).unwrap_err(), "not supported to delete times");
    assert_eq!(s.create_post(8, "x".to_string()).unwrap_err(), "unknown tid found");
    assert_eq!(s.create_post(7, "x".to_string()).unwrap_err(), "not supported to create post");
    assert_eq!(s.update_post(7, post(1, "b")).unwrap_err(), "not supported to update post");
    assert_eq!(s.delete_post(7, 1).unwrap_err(), "not supported to delete post");
    assert!(s.get_latest_post(7).is_none());
}

#[test]
fn remote_store_trims_the_address() {
    let s = RemoteStore::new("http://host/".to_string());
    assert_eq!(s.times_url(), "http://host/times");
    assert_eq!(s.times_id_url(12), "http://host/times/12");
    let s = RemoteStore::new("http://host".to_string());
    assert_eq!(s.times_url(), "http://host/times");
    let s = RemoteStore::new("http://host//".to_string());
    assert_eq!(s.times_url(), "http://host//times");
}

#[test]
fn remote_answers() {
    assert_eq!(status_result(0, "Ok".to_string(), 5), Ok(5));
    assert_eq!(status_result(1, "bad".to_string(), 5), Err("bad".to_string()));
    assert_eq!(request_result(2, "bad"), Err("request error: bad".to_string()));
    let s = RemoteStore::new("h".to_string());
    let p = s.create_post("x".to_string(), 0, "Ok", 3).unwrap();
    assert_eq!(p.id, 3);
    assert_eq!(s.create_post("x".to_string(), 1, "no", 3).unwrap_err(), "request error: no");
    assert!(s.check(Ok(vec![])).is_ok());
    assert_eq!(s.check(Err("down".to_string())).unwrap_err(), "down");
}

#[test]
fn latest_post_is_the_last_largest() {
    assert!(latest_post(&vec![]).is_none());
    let v = vec![post(1, "a"), post(5, "b"), post(5, "c"), post(2, "d")];
    assert_eq!(latest_post(&v).unwrap().post, "c");
}

#[test]
fn numbers_are_written_and_read() {
    assert_eq!(decimal_string(0), "0");
    assert_eq!(decimal_string(1234567890), "1234567890");
    assert_eq!(signed_decimal_string(i64::MIN), "-9223372036854775808");
    assert_eq!(signed_decimal_string(-7), "-7");
    assert_eq!(zero_padded_string(7, 3), "007");
    assert_eq!(zero_padded_string(1234, 2), "1234");
    assert_eq!(parse_u64_str("42"), Some(42));
    assert_eq!(parse_u64_str("+42"), Some(42));
    assert_eq!(parse_u64_str("+"), None);
    assert_eq!(parse_u64_str(""), None);
    assert_eq!(parse_u64_str("-1"), None);
    assert_eq!(parse_u64_str("18446744073709551615"), Some(u64::MAX));
    assert_eq!(parse_u64_str("18446744073709551616"), None);
    for s in ["0", "007", "+5", "x", "1 2", "99999999999999999999"] {
        assert_eq!(parse_u64_str(s), s.parse::<u64>().ok());
    }
}

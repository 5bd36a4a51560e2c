use forensic_rs::bitacora::{Bitacora, ErrorList};
use forensic_rs::err::ForensicError;
use forensic_rs::strmap::StrMap;
use forensic_rs::utils::time::Filetime;

fn entry(element: &str, message: &str) -> (String, ForensicError) {
    (element.to_string(), ForensicError::Other(message.to_string()))
}

fn errors_of(log: &Bitacora<u32>, parser: &str) -> Vec<(String, ForensicError)> {
    log.errors.get(parser).cloned().unwrap_or_default()
}

#[test]
fn a_new_log_has_its_data_and_no_errors() {
    let log = Bitacora::new(7u32);
    assert_eq!(log.data, 7);
    assert_eq!(log.errors.len(), 0);
    let empty: Bitacora<String> = Bitacora::default();
    assert_eq!(empty.data, "");
    assert_eq!(empty.errors.len(), 0);
}

#[test]
fn an_error_log_has_the_default_data_and_one_error() {
    let log: Bitacora<u32> = Bitacora::error("prefetch", "a.pf".to_string(), ForensicError::CastError);
    assert_eq!(log.data, 0);
    assert_eq!(log.errors.keys(), vec!["prefetch".to_string()]);
    assert_eq!(errors_of(&log, "prefetch"), vec![("a.pf".to_string(), ForensicError::CastError)]);
}

#[test]
fn errors_are_added_after_those_of_the_parser() {
    let mut log = Bitacora::new(1u32);
    log.add_error("mft", "first".to_string(), ForensicError::NoMoreData);
    log.add_error("mft", "second".to_string(), ForensicError::CastError);
    log.add_error("evtx", "third".to_string(), ForensicError::PermissionError);
    log.add_errors("mft", vec![entry("fourth", "x"), entry("fifth", "y")]);
    log.add_errors("lnk", vec![]);
    assert_eq!(log.data, 1);
    assert_eq!(log.errors.keys(), vec!["evtx", "lnk", "mft"]);
    assert_eq!(
        errors_of(&log, "mft"),
        vec![
            ("first".to_string(), ForensicError::NoMoreData),
            ("second".to_string(), ForensicError::CastError),
            entry("fourth", "x"),
            entry("fifth", "y")
        ]
    );
    assert_eq!(errors_of(&log, "lnk"), vec![]);
}

#[test]
fn copied_errors_take_the_place_of_those_of_the_same_parser() {
    let mut log = Bitacora::new(1u32);
    log.add_error("a", "old".to_string(), ForensicError::NoMoreData);
    log.add_error("b", "kept".to_string(), ForensicError::NoMoreData);
    let mut other: StrMap<ErrorList> = StrMap::new();
    other.insert("a".to_string(), vec![entry("new", "1")]);
    other.insert("c".to_string(), vec![entry("more", "2")]);
    log.copy_errors(&mut other);
    assert_eq!(other.len(), 0);
    assert_eq!(log.errors.keys(), vec!["a", "b", "c"]);
    assert_eq!(errors_of(&log, "a"), vec![entry("new", "1")]);
    assert_eq!(errors_of(&log, "b"), vec![("kept".to_string(), ForensicError::NoMoreData)]);
    assert_eq!(errors_of(&log, "c"), vec![entry("more", "2")]);
}

#[test]
fn copy_and_join_put_the_errors_of_the_other_after_those_here() {
    let mut here = Bitacora::new(1u32);
    here.add_error("a", "a1".to_string(), ForensicError::NoMoreData);
    here.add_error("b", "b1".to_string(), ForensicError::NoMoreData);
    let mut there = Bitacora::new(2u32);
    there.add_error("b", "b2".to_string(), ForensicError::CastError);
    there.add_error("c", "c1".to_string(), ForensicError::CastError);
    here.copy(&there);
    assert_eq!(here.data, 1);
    assert_eq!(here.errors.keys(), vec!["a", "b", "c"]);
    assert_eq!(
        errors_of(&here, "b"),
        vec![
            ("b1".to_string(), ForensicError::NoMoreData),
            ("b2".to_string(), ForensicError::CastError)
        ]
    );
    assert_eq!(errors_of(&here, "c"), vec![("c1".to_string(), ForensicError::CastError)]);
    // The other log is as it was.
    assert_eq!(there.errors.keys(), vec!["b", "c"]);
    here.join(there);
    assert_eq!(
        errors_of(&here, "b"),
        vec![
            ("b1".to_string(), ForensicError::NoMoreData),
            ("b2".to_string(), ForensicError::CastError),
            ("b2".to_string(), ForensicError::CastError)
        ]
    );
    assert_eq!(errors_of(&here, "a"), vec![("a1".to_string(), ForensicError::NoMoreData)]);
}

#[test]
fn filetimes_are_moved_by_nanoseconds() {
    let time = Filetime::new(1_000);
    assert_eq!(time.add_nanos(250).filetime(), 1_002);
    assert_eq!(time.add_nanos(99).filetime(), 1_000);
    assert_eq!(time.sub_nanos(100).filetime(), 999);
    assert_eq!(time.sub_nanos(1).filetime(), 999);
    assert_eq!(time.sub_nanos(100_000).filetime(), 0);
    assert_eq!(Filetime::new(0).add_nanos(86_400_000_000_000).day(), 2);
    // The count is kept to its low 64 bits.
    assert_eq!(Filetime::new(u64::MAX).add_nanos(100).filetime(), 0);
    assert_eq!(Filetime::new(u64::MAX).add_nanos(99).filetime(), u64::MAX);
    assert_eq!(Filetime::new(5).add_nanos(u128::MAX).filetime(), ((5 + u128::MAX / 100) % (1 << 64)) as u64);
}

#[test]
fn filetimes_are_ordered_by_their_time() {
    assert!(Filetime::new(1) < Filetime::new(2));
    assert!(Filetime::new(2) > Filetime::new(1));
    assert_eq!(Filetime::new(5), Filetime::new(5));
    assert_ne!(Filetime::new(5), Filetime::new(6));
    assert!(Filetime::new(5) <= Filetime::new(5));
    assert_eq!(Filetime::default().filetime(), 0);
    assert_eq!(Filetime::default().year(), 0);
}

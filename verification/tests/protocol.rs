use uniffi_dart::protocol::codec::{
    lower_then_lift, read_u64, write_then_read, write_u64, CallbackConverter, Codec, Custom,
};
use uniffi_dart::protocol::foreign_future::{
    make_result, CallState, CallStatus, ForeignFutureTable, Outcome,
};
use uniffi_dart::protocol::handle_map::{HandleError, HandleMap};
use uniffi_dart::protocol::vtable_guard::VtableGuard;

#[test]
fn handle_map_issues_fresh_handles_and_finds_what_was_inserted() {
    let mut table: HandleMap<String> = HandleMap::new();
    let a = table.insert("a".to_string()).unwrap();
    let b = table.insert("b".to_string()).unwrap();
    assert_ne!(a, 0);
    assert_ne!(a, b);
    assert_eq!(table.get(a).unwrap(), "a");
    assert_eq!(table.get(b).unwrap(), "b");
    assert_eq!(table.len(), 2);
    assert!(table.contains(a));
}

#[test]
fn handle_map_rejects_unknown_handles() {
    let table: HandleMap<u8> = HandleMap::new();
    assert_eq!(table.get(1).err(), Some(HandleError::UnknownHandle));
    assert_eq!(table.get(0).err(), Some(HandleError::UnknownHandle));
}

#[test]
fn handle_map_remove_is_idempotent_and_handles_are_never_reused() {
    let mut table: HandleMap<u8> = HandleMap::new();
    let a = table.insert(1).unwrap();
    assert_eq!(table.remove(a), Some(1));
    assert_eq!(table.remove(a), None);
    assert_eq!(table.remove(a), None);
    assert!(!table.contains(a));
    let b = table.insert(2).unwrap();
    assert_ne!(a, b);
    assert_eq!(table.get(a).err(), Some(HandleError::UnknownHandle));
}

#[test]
fn two_attempts_register_the_vtable_once() {
    let mut guard = VtableGuard::new();
    assert!(!guard.is_initialized());
    let first = guard.ensure_initialized();
    let second = guard.ensure_initialized();
    assert!(first);
    assert!(!second);
    assert!(guard.is_initialized());
    let calls = [first, second, guard.ensure_initialized()].iter().filter(|r| **r).count();
    assert_eq!(calls, 1);
}

#[test]
fn completion_fires_once_with_its_outcome() {
    let mut state = CallState::new();
    let fired = state.complete(Outcome::Success(7u8)).unwrap();
    assert_eq!(fired.return_value, Some(7));
    assert_eq!(fired.call_status, CallStatus::Success);
    assert_eq!(fired.error_buf, None);
    assert_eq!(fired.diagnostic, None);
    assert!(state.is_settled());
    assert!(state.complete(Outcome::Success(8u8)).is_none());
}

#[test]
fn free_before_completion_suppresses_the_callback() {
    let mut state = CallState::new();
    state.free();
    assert!(state.is_settled());
    assert!(state.complete(Outcome::Success(1u8)).is_none());
}

#[test]
fn free_after_completion_is_a_no_op() {
    let mut state = CallState::new();
    assert!(state.complete(Outcome::<()>::Unexpected("boom".to_string())).is_some());
    state.free();
    state.free();
    assert!(state.is_settled());
}

#[test]
fn outcomes_map_to_the_closed_status_vocabulary() {
    let ok = make_result(Outcome::Success(()));
    assert_eq!(ok.call_status.code(), 0);
    assert_eq!(ok.return_value, Some(()));
    let typed = make_result(Outcome::<u8>::Error(vec![1, 2]));
    assert_eq!(typed.call_status, CallStatus::Error);
    assert_eq!(typed.call_status.code(), 1);
    assert_eq!(typed.error_buf, Some(vec![1, 2]));
    assert_eq!(typed.return_value, None);
    let unexpected = make_result(Outcome::<u8>::Unexpected("boom".to_string()));
    assert_eq!(unexpected.call_status, CallStatus::UnexpectedError);
    assert_eq!(unexpected.call_status.code(), 2);
    assert_eq!(unexpected.diagnostic, Some("boom".to_string()));
    assert_eq!(unexpected.return_value, None);
}

#[test]
fn concurrent_calls_settle_once_each_under_an_interleaving() {
    let mut table = ForeignFutureTable::new();
    let handles: Vec<u64> = (0..8).map(|_| table.start().unwrap()).collect();
    let mut fired = vec![0usize; handles.len()];
    for (i, h) in handles.iter().enumerate() {
        if i % 2 == 0 {
            assert!(table.free(*h));
        }
    }
    for round in 0..3 {
        for (i, h) in handles.iter().enumerate().rev() {
            if table.complete(*h, Outcome::Success(i as u32 + round)).is_some() {
                fired[i] += 1;
            }
            assert!(!table.free(*h));
        }
    }
    for (i, n) in fired.iter().enumerate() {
        assert_eq!(*n, if i % 2 == 0 { 0 } else { 1 });
    }
    for h in &handles {
        assert!(!table.is_pending(*h));
    }
}

#[test]
fn new_table_has_no_calls_and_issues_handles_from_one() {
    let mut table = ForeignFutureTable::new();
    assert!(!table.is_pending(0));
    assert!(!table.is_pending(1));
    assert_eq!(table.start(), Ok(1));
    assert_eq!(table.start(), Ok(2));
    assert!(table.is_pending(1));
    assert!(table.is_pending(2));
    assert!(!table.is_pending(3));
}

#[test]
fn table_completion_carries_the_outcome_of_that_call() {
    let mut table = ForeignFutureTable::new();
    let a = table.start().unwrap();
    let b = table.start().unwrap();
    assert!(table.is_pending(a));
    let rb = table.complete(b, Outcome::Success("b".to_string())).unwrap();
    assert_eq!(rb.return_value, Some("b".to_string()));
    assert!(table.is_pending(a));
    let ra = table.complete(a, Outcome::<String>::Unexpected("late".to_string())).unwrap();
    assert_eq!(ra.call_status, CallStatus::UnexpectedError);
    assert!(table.complete(a, Outcome::Success("again".to_string())).is_none());
    assert!(table.complete(99, Outcome::Success("unknown".to_string())).is_none());
}

#[test]
fn integer_codec_round_trips() {
    for v in [0i64, 1, -1, 123, i64::MIN, i64::MAX, 0x0102030405060708] {
        assert_eq!(lower_then_lift(&v), v);
        assert_eq!(write_then_read(&v), Some((v, 8)));
        assert_eq!(v.allocation_size(), 8);
    }
}

#[test]
fn integer_codec_writes_big_endian() {
    let mut buf = Vec::new();
    assert_eq!(0x0102030405060708i64.write(&mut buf), 8);
    assert_eq!(buf, vec![1, 2, 3, 4, 5, 6, 7, 8]);
    let mut buf = Vec::new();
    (-2i64).write(&mut buf);
    assert_eq!(buf, vec![255, 255, 255, 255, 255, 255, 255, 254]);
}

#[test]
fn reads_are_self_delimiting() {
    let mut buf = Vec::new();
    5i64.write(&mut buf);
    (-9i64).write(&mut buf);
    let (first, n) = <i64 as Codec>::read(&buf, 0).unwrap();
    let (second, m) = <i64 as Codec>::read(&buf, n).unwrap();
    assert_eq!((first, n), (5, 8));
    assert_eq!((second, m), (-9, 8));
    assert!(<i64 as Codec>::read(&buf, n + m).is_none());
    assert!(<i64 as Codec>::read(&buf, 9).is_none());
    assert!(<i64 as Codec>::read(&buf, 100).is_none());
}

#[test]
fn custom_codec_delegates_to_its_builtin() {
    let v = Custom { value: -77i64 };
    assert_eq!(v.lower(), -77);
    assert_eq!(Custom::<i64>::lift(5).value, 5);
    assert_eq!(v.allocation_size(), 8);
    let mut buf = Vec::new();
    assert_eq!(v.write(&mut buf), 8);
    let mut plain = Vec::new();
    (-77i64).write(&mut plain);
    assert_eq!(buf, plain);
    let (back, n) = Custom::<i64>::read(&buf, 0).unwrap();
    assert_eq!(back.value, -77);
    assert_eq!(n, 8);
    let round = write_then_read(&v).unwrap();
    assert_eq!(round.0.value, -77);
    assert_eq!(round.1, 8);
    assert_eq!(lower_then_lift(&v).value, -77);
    let nested = Custom { value: Custom { value: 3i64 } };
    assert_eq!(write_then_read(&nested).unwrap().0.value.value, 3);
}

#[test]
fn u64_bytes_round_trip() {
    let mut buf = vec![9u8];
    write_u64(u64::MAX - 1, &mut buf);
    assert_eq!(buf.len(), 9);
    assert_eq!(read_u64(&buf, 1), Some(u64::MAX - 1));
    assert_eq!(read_u64(&buf, 2), None);
    assert_eq!(read_u64(&buf, usize::MAX), None);
}

#[test]
fn callback_converter_round_trips_objects_through_handles() {
    let mut converter: CallbackConverter<String> = CallbackConverter::new();
    assert_eq!(converter.allocation_size(), 8);
    let (h, register) = converter.lower("obj".to_string()).unwrap();
    assert!(register);
    assert_eq!(converter.lift(h).unwrap(), "obj");
    let mut buf = Vec::new();
    let (n, register_again) = converter.write("other".to_string(), &mut buf).unwrap();
    assert_eq!(n, 8);
    assert!(!register_again);
    let (back, consumed) = converter.read(&buf, 0).unwrap();
    assert_eq!(back, "other");
    assert_eq!(consumed, 8);
    converter.free(h);
    converter.free(h);
    assert_eq!(converter.lift(h).err(), Some(HandleError::UnknownHandle));
    assert_eq!(converter.read(&buf, 4).err(), Some(HandleError::UnknownHandle));
}

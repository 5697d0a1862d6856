use sm_ext::boundary::{boundary_action, BoundaryAction, HandlerOutcome};
use sm_ext::bytestr::{c_prefix, encode_c_name, fill_error_buffer, find_nul};
use sm_ext::cell::cell_t;
use sm_ext::handles::{
    decode_foreign_text, prepare_request_name, request_interface_result, running_state,
    IsRunningError, RequestInterfaceError, SMInterface, Utf8DecodeError,
};
use sm_ext::natives::{build_native_table, native_args, NativeInfo};

#[test]
fn find_nul_reports_the_first_terminator() {
    assert_eq!(find_nul(&b"abc\0def\0".to_vec()), Some(3));
    assert_eq!(find_nul(&b"\0".to_vec()), Some(0));
    assert_eq!(find_nul(&b"abc".to_vec()), None);
    assert_eq!(find_nul(&Vec::new()), None);
}

#[test]
fn c_prefix_stops_at_the_terminator() {
    assert_eq!(c_prefix(&b"abc\0def".to_vec()), Some(b"abc".to_vec()));
    assert_eq!(c_prefix(&b"\0rest".to_vec()), Some(Vec::new()));
    assert_eq!(c_prefix(&b"no terminator".to_vec()), None);
}

#[test]
fn error_buffer_copies_whole_message_with_room() {
    assert_eq!(fill_error_buffer(&b"AB".to_vec(), 3), b"AB\0".to_vec());
    assert_eq!(fill_error_buffer(&b"AB".to_vec(), 16), b"AB\0".to_vec());
}

#[test]
fn error_buffer_truncates_without_room() {
    assert_eq!(fill_error_buffer(&b"Hello".to_vec(), 4), b"Hel\0".to_vec());
    assert_eq!(fill_error_buffer(&b"AB".to_vec(), 1), b"\0".to_vec());
}

#[test]
fn error_buffer_exact_fit_still_keeps_the_terminator() {
    assert_eq!(fill_error_buffer(&b"Hello".to_vec(), 5), b"Hell\0".to_vec());
    assert_eq!(fill_error_buffer(&b"Hello".to_vec(), 6), b"Hello\0".to_vec());
}

#[test]
fn error_buffer_takes_nothing_into_zero_capacity() {
    assert_eq!(fill_error_buffer(&b"AB".to_vec(), 0), Vec::<u8>::new());
}

#[test]
fn error_buffer_stops_at_an_embedded_terminator() {
    assert_eq!(fill_error_buffer(&b"A\0B".to_vec(), 10), b"A\0".to_vec());
}

#[test]
fn name_encoding_appends_a_terminator() {
    assert_eq!(encode_c_name(&b"add".to_vec()), Ok(b"add\0".to_vec()));
    assert_eq!(encode_c_name(&b"ab\0cd".to_vec()), Err(2));
}

#[test]
fn foreign_text_decodes_or_fails_distinctly() {
    assert_eq!(
        decode_foreign_text(&b"extension.so".to_vec()),
        Ok(String::from("extension.so"))
    );
    assert_eq!(decode_foreign_text(&vec![0xC3, 0x28]), Err(Utf8DecodeError));
}

#[test]
fn running_state_success_ignores_the_buffer() {
    assert_eq!(running_state(true, &b"ignored\0".to_vec()), Ok(()));
}

#[test]
fn running_state_failure_decodes_the_reason() {
    assert_eq!(
        running_state(false, &b"busy\0trailing garbage".to_vec()),
        Err(IsRunningError::WithReason(String::from("busy")))
    );
}

#[test]
fn running_state_failure_with_bad_reason_is_distinct() {
    assert_eq!(
        running_state(false, &vec![0xFF, 0xFE, 0x00]),
        Err(IsRunningError::InvalidReason)
    );
    assert_eq!(
        running_state(false, &b"no terminator".to_vec()),
        Err(IsRunningError::InvalidReason)
    );
}

#[test]
fn interface_request_name_errors_are_distinct_from_lookup_errors() {
    assert_eq!(
        prepare_request_name(&b"ISourceMod".to_vec()),
        Ok(b"ISourceMod\0".to_vec())
    );
    assert_eq!(
        prepare_request_name(&b"I\0Bad".to_vec()),
        Err(RequestInterfaceError::StringError(1))
    );
    assert_eq!(
        request_interface_result(false, 0),
        Err(RequestInterfaceError::InterfaceError)
    );
    assert_eq!(
        request_interface_result(true, 0x1000),
        Ok(SMInterface(0x1000))
    );
}

#[test]
fn boundary_returns_the_value_on_completion() {
    let c = cell_t::from_int(33);
    assert_eq!(
        boundary_action(HandlerOutcome::Completed(c)),
        BoundaryAction::Return(c)
    );
}

#[test]
fn boundary_routes_a_reported_failure() {
    assert_eq!(
        boundary_action(HandlerOutcome::Reported(b"file not found".to_vec())),
        BoundaryAction::ThrowError(b"file not found".to_vec())
    );
}

#[test]
fn boundary_routes_an_abnormal_text_payload() {
    assert_eq!(
        boundary_action(HandlerOutcome::Aborted(Some(b"boom".to_vec()))),
        BoundaryAction::ThrowError(b"Unexpected panic: boom".to_vec())
    );
}

#[test]
fn boundary_routes_an_unrecognizable_payload() {
    assert_eq!(
        boundary_action(HandlerOutcome::Aborted(None)),
        BoundaryAction::ThrowError(b"Unexpected panic: Unknown message".to_vec())
    );
}

#[test]
fn three_natives_make_a_four_entry_table() {
    let table = build_native_table(vec![
        (b"add".to_vec(), 10u64),
        (b"sub".to_vec(), 20u64),
        (b"mul".to_vec(), 30u64),
    ]);
    assert_eq!(table.len(), 4);
    assert_eq!(table[0].name, Some(b"add\0".to_vec()));
    assert_eq!(table[0].func, Some(10));
    assert_eq!(table[3].name, None);
    assert_eq!(table[3].func, None);
}

#[test]
fn two_natives_make_exactly_three_entries() {
    let table = build_native_table(vec![(b"add".to_vec(), 1u64), (b"sub".to_vec(), 2u64)]);
    assert_eq!(
        table,
        vec![
            NativeInfo { name: Some(b"add\0".to_vec()), func: Some(1) },
            NativeInfo { name: Some(b"sub\0".to_vec()), func: Some(2) },
            NativeInfo { name: None, func: None },
        ]
    );
}

#[test]
fn registrations_for_two_extensions_stay_apart() {
    let table_a = build_native_table(vec![(b"add".to_vec(), 1u64), (b"sub".to_vec(), 2u64)]);
    let table_b = build_native_table(vec![(b"add".to_vec(), 9u64)]);
    // building the second table neither corrupts nor shadows the first
    assert_eq!(table_a[0].name, Some(b"add\0".to_vec()));
    assert_eq!(table_a[0].func, Some(1));
    assert_eq!(table_a[1].func, Some(2));
    assert_eq!(table_a.len(), 3);
    assert_eq!(table_b[0].func, Some(9));
    assert_eq!(table_b.len(), 2);
}

#[test]
fn empty_native_list_is_just_the_end_marker() {
    let table: Vec<NativeInfo<u64>> = build_native_table(Vec::new());
    assert_eq!(table.len(), 1);
    assert_eq!(table[0].name, None);
    assert_eq!(table[0].func, None);
}

#[test]
fn native_args_slice_the_count_prefixed_run() {
    let args = vec![
        cell_t::from_int(2),
        cell_t::from_int(7),
        cell_t::from_int(8),
        cell_t::from_int(9),
    ];
    assert_eq!(
        native_args(&args),
        Some(vec![cell_t::from_int(7), cell_t::from_int(8)])
    );
}

#[test]
fn native_args_refuse_bad_counts() {
    assert_eq!(native_args(&Vec::new()), None);
    assert_eq!(native_args(&vec![cell_t::from_int(-1)]), None);
    assert_eq!(
        native_args(&vec![cell_t::from_int(3), cell_t::from_int(1)]),
        None
    );
    assert_eq!(native_args(&vec![cell_t::from_int(0)]), Some(Vec::new()));
}

use fly::ids::{StreamIdCounter, get_next_stream_id, parse_runtime_id, runtime_id_text};

#[test]
fn stream_ids_count_up_from_zero() {
    let mut c = StreamIdCounter::new();
    assert_eq!(get_next_stream_id(&mut c), 0);
    assert_eq!(get_next_stream_id(&mut c), 1);
    assert_eq!(get_next_stream_id(&mut c), 2);
    assert_eq!(c.next, 3);
}

#[test]
fn stream_ids_wrap_at_the_width_of_u32() {
    let mut c = StreamIdCounter::starting_at(u32::MAX);
    assert_eq!(get_next_stream_id(&mut c), u32::MAX);
    assert_eq!(get_next_stream_id(&mut c), 0);
}

#[test]
fn runtime_id_text_is_lower_case_hex_without_hyphens() {
    let t = runtime_id_text(0x936DA01F9ABD4D9D80C702AF85C822A8);
    assert_eq!(t, "936da01f9abd4d9d80c702af85c822a8");
    assert_eq!(runtime_id_text(1), "00000000000000000000000000000001");
}

#[test]
fn parse_runtime_id_reads_the_usual_forms() {
    let id: u128 = 0x936DA01F9ABD4D9D80C702AF85C822A8;
    assert_eq!(parse_runtime_id("936DA01F-9ABD-4D9D-80C7-02AF85C822A8"), Some(id));
    assert_eq!(parse_runtime_id("936da01f9abd4d9d80c702af85c822a8"), Some(id));
    assert_eq!(parse_runtime_id(&runtime_id_text(42)), Some(42));
    assert_eq!(parse_runtime_id("not a uuid"), None);
    assert_eq!(parse_runtime_id(""), None);
}

use soroban_devkit_contracts::event_rich::{EventRichContract, RichEvent};

#[test]
fn test_emit_all_types() {
    let primitives = EventRichContract::emit_primitive_types();
    assert_eq!(primitives.len(), 6);
    let big = EventRichContract::emit_big_numbers();
    assert_eq!(big.len(), 2);
    let strings = EventRichContract::emit_strings();
    assert_eq!(strings.len(), 3);
    let collections = EventRichContract::emit_collections();
    assert_eq!(collections.len(), 2);
    let address = EventRichContract::emit_address(9);
    assert_eq!(address.len(), 1);
}

#[test]
fn event_rich_payloads_and_topics() {
    let p = EventRichContract::emit_primitive_types();
    assert!(matches!(p[0], RichEvent::U32Event(42)));
    assert!(matches!(p[1], RichEvent::I32Event(-42)));
    assert!(matches!(p[3], RichEvent::I64Event(-1_000_000)));
    assert_eq!(p[4].topic(), "bool_true");
    let b = EventRichContract::emit_big_numbers();
    assert!(matches!(b[0], RichEvent::U128Event(u128::MAX)));
    assert!(matches!(b[1], RichEvent::I128Event(i128::MIN)));
    let s = EventRichContract::emit_strings();
    match &s[2] {
        RichEvent::BytesEvent(bytes) => assert_eq!(bytes, &vec![0xde, 0xad, 0xbe, 0xef]),
        _ => panic!("third event is the bytes event"),
    }
    match &s[1] {
        RichEvent::StringEvent(text) => assert_eq!(text, "hello from soroban"),
        _ => panic!("second event is the string event"),
    }
    let c = EventRichContract::emit_collections();
    match &c[1] {
        RichEvent::MapEvent(m) => {
            assert_eq!(m, &vec![("amount".to_string(), 1_000_000), ("fee".to_string(), 100)])
        }
        _ => panic!("second event is the map event"),
    }
    assert_eq!(c[0].topic(), "vec_event");
    let a = EventRichContract::emit_address(9);
    assert!(matches!(a[0], RichEvent::AddressEvent(9)));
    assert_eq!(a[0].topic(), "address_event");
}

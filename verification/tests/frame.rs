use jsembed::frame::CallFrame;
use jsembed::value::{encode, DynamicValue, JSVAL_VOID};

fn int_word(value: i32) -> u64 {
    encode(DynamicValue::Int32 { value })
}

fn object_word(handle: u64) -> u64 {
    encode(DynamicValue::ObjectRef { handle })
}

#[test]
fn argument_vector_starts_two_slots_in() {
    let arg0 = int_word(7);
    let arg1 = int_word(8);
    let frame = CallFrame::new(vec![JSVAL_VOID, JSVAL_VOID, arg0, arg1]);
    assert_eq!(frame.arg_count(), 2);
    let args = frame.argument_vector();
    assert_eq!(args.len(), 2);
    assert_eq!(args[0], arg0);
    assert_eq!(args[1], arg1);
    assert_eq!(frame.arg(0), arg0);
    assert_eq!(frame.arg(1), arg1);
}

#[test]
fn argument_vector_of_bare_frame_is_empty() {
    let frame = CallFrame::new(vec![JSVAL_VOID, JSVAL_VOID]);
    assert_eq!(frame.arg_count(), 0);
    assert_eq!(frame.argument_vector().len(), 0);
}

#[test]
fn set_return_value_overwrites_only_the_return_slot() {
    let this = object_word(0x10);
    let arg0 = int_word(3);
    let mut frame = CallFrame::new(vec![this, JSVAL_VOID, arg0]);
    let rval = int_word(99);
    frame.set_return_value(rval);
    assert_eq!(frame.return_word(), rval);
    assert_eq!(frame.this_word(), this);
    assert_eq!(frame.arg(0), arg0);
    let slots = frame.into_slots();
    assert_eq!(slots, vec![this, rval, arg0]);
}

#[test]
fn resolve_this_returns_object_receiver_unchanged() {
    let frame = CallFrame::new(vec![object_word(0x1234), JSVAL_VOID]);
    assert_eq!(frame.resolve_this(), Some(0x1234));
    // The fallback is not consulted: its handle does not show up.
    assert_eq!(frame.resolve_this_with(object_word(0x999)), 0x1234);
}

#[test]
fn resolve_this_falls_back_on_primitive_receiver() {
    let primitives = vec![
        int_word(3),
        encode(DynamicValue::Boolean { value: true }),
        encode(DynamicValue::Null),
        JSVAL_VOID,
        encode(DynamicValue::StringRef { handle: 5 }),
        encode(DynamicValue::Double { bits: 1.5f64.to_bits() }),
    ];
    for receiver in primitives {
        let frame = CallFrame::new(vec![receiver, JSVAL_VOID]);
        assert_eq!(frame.resolve_this(), None);
        // The computed receiver the engine materializes is what comes back.
        assert_eq!(frame.resolve_this_with(object_word(0x999)), 0x999);
    }
}

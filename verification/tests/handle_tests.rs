use serial_bridge::handle::{PumpId, SharedHandle};

#[test]
fn second_pump_is_refused_while_the_first_holds() {
    let mut h = SharedHandle::new();
    assert!(h.try_acquire(PumpId::Input));
    // The single-holder invariant: the output pump cannot get in.
    assert!(!h.try_acquire(PumpId::Output));
    // Nor can the input pump double-acquire.
    assert!(!h.try_acquire(PumpId::Input));
    h.release(PumpId::Input);
    assert!(h.try_acquire(PumpId::Output));
    assert!(!h.try_acquire(PumpId::Input));
    h.release(PumpId::Output);
}

#[test]
fn alternating_acquire_release_always_has_one_holder_at_most() {
    let mut h = SharedHandle::new();
    for _ in 0..100 {
        h.acquire(PumpId::Output);
        assert!(h.output_holds && !h.input_holds);
        h.release(PumpId::Output);
        assert!(!h.output_holds && !h.input_holds);
        h.acquire(PumpId::Input);
        assert!(h.input_holds && !h.output_holds);
        h.release(PumpId::Input);
        assert!(!h.input_holds && !h.output_holds);
    }
}

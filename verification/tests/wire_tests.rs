use sync_pins::wire::{
    open_drain_command, push_pull_command, reads_high, reads_low, Wire, WireError, WireState,
    WireWrapper,
};

#[test]
fn init() {
    let wire = Wire::new();
    let wire2 = Wire::default();
    assert_eq!(wire.get_state(), wire2.get_state());
    assert_eq!(WireState::Floating, wire.get_state());
    let wire = Wire::new_with_pull(WireState::High);
    assert_eq!(WireState::High, wire.get_state());
}

#[test]
fn pull_up() {
    let wire = Wire::new_with_pull(WireState::High);
    let mut pin = wire.connect_open_drain_pin();
    assert_eq!(WireState::High, wire.get_state());
    assert_eq!(Ok(()), pin.set_high());
    assert_eq!(WireState::Low, wire.get_state());
    assert_eq!(Ok(false), pin.is_set_low());
    assert_eq!(Ok(true), pin.is_set_high());
    assert_eq!(Ok(()), pin.toggle());
    assert_eq!(WireState::High, wire.get_state());
    assert_eq!(Ok(()), pin.toggle());
    assert_eq!(WireState::Low, wire.get_state());
}

#[test]
fn pull_down() {
    let wire = Wire::new_with_pull(WireState::Low);
    let mut pin = wire.connect_push_pull_pin();
    assert_eq!(WireState::Low, wire.get_state());
    assert_eq!(Ok(()), pin.set_high());
    assert_eq!(Ok(false), pin.is_set_low());
    assert_eq!(Ok(true), pin.is_set_high());
    assert_eq!(WireState::High, wire.get_state());
    assert_eq!(Ok(()), pin.set_low());
    assert_eq!(WireState::Low, wire.get_state());
    assert_eq!(Ok(true), pin.is_set_low());
    assert_eq!(Ok(false), pin.is_set_high());
    assert_eq!(Ok(()), pin.toggle());
    assert_eq!(WireState::High, wire.get_state());
    assert_eq!(Ok(()), pin.toggle());
    assert_eq!(WireState::Low, wire.get_state());
}

#[test]
fn input() {
    let wire = Wire::new();
    let mut pin_out = wire.connect_push_pull_pin();
    let pin_in = wire.connect_input_pin();
    assert_eq!(WireState::Floating, wire.get_state());
    assert_eq!(Ok(false), pin_in.is_high());
    assert_eq!(Ok(false), pin_in.is_low());
    assert_eq!(Ok(()), pin_out.set_low());
    assert_eq!(WireState::Low, wire.get_state());
    assert_eq!(Ok(false), pin_in.is_high());
    assert_eq!(Ok(true), pin_in.is_low());
    assert_eq!(Ok(()), pin_out.set_high());
    assert_eq!(WireState::High, wire.get_state());
    assert_eq!(Ok(true), pin_in.is_high());
    assert_eq!(Ok(false), pin_in.is_low());
}

#[test]
fn multiple_pins() {
    let wire = Wire::new();
    let mut pin1 = wire.connect_push_pull_pin();
    let mut pin2 = wire.connect_open_drain_pin();
    let pin3 = wire.connect_input_pin();
    assert_eq!(Ok(()), pin1.set_high());
    assert_eq!(Ok(true), pin3.is_high());
    assert_eq!(Ok(()), pin2.set_low());
    assert_eq!(Ok(true), pin3.is_high());
    assert_eq!(Ok(()), pin1.set_low());
    assert_eq!(Ok(true), pin3.is_low());
    assert_eq!(Ok(()), pin2.set_high());
    assert_eq!(Ok(true), pin3.is_low());
}

#[test]
fn attach_ids_strictly_increase() {
    let mut node = WireWrapper::new();
    assert_eq!(0, node.attach_driver());
    assert_eq!(1, node.attach_driver());
    assert_eq!(2, node.attach_driver());
    let mut other = WireWrapper::new_with_pull(WireState::High);
    assert_eq!(0, other.attach_driver());
    assert_eq!(1, other.attach_driver());
}

#[test]
fn resolve_follows_pull_when_all_floating() {
    let mut node = WireWrapper::new_with_pull(WireState::High);
    assert_eq!(Ok(WireState::High), node.resolve());
    node.attach_driver();
    node.attach_driver();
    assert_eq!(Ok(WireState::High), node.resolve());
    let node = WireWrapper::new_with_pull(WireState::Low);
    assert_eq!(Ok(WireState::Low), node.resolve());
    let node = WireWrapper::new();
    assert_eq!(Ok(WireState::Floating), node.resolve());
}

#[test]
fn resolve_single_driver_overrides_pull() {
    let mut node = WireWrapper::new_with_pull(WireState::High);
    let id = node.attach_driver();
    node.attach_driver();
    assert_eq!(Ok(()), node.set_pin_state(id, WireState::Low));
    assert_eq!(Ok(WireState::Low), node.resolve());
    assert_eq!(Ok(WireState::Low), node.get_pin_state(id));
    assert_eq!(Ok(WireState::Floating), node.get_pin_state(id + 1));
}

#[test]
fn resolve_agreeing_drivers() {
    let wire = Wire::new_with_pull(WireState::Low);
    let mut pin1 = wire.connect_push_pull_pin();
    let mut pin2 = wire.connect_push_pull_pin();
    assert_eq!(Ok(()), pin1.set_high());
    assert_eq!(Ok(()), pin2.set_high());
    assert_eq!(WireState::High, wire.get_state());
    assert_eq!(Ok(true), pin1.is_set_high());
    assert_eq!(Ok(true), pin2.is_set_high());
}

#[test]
fn short_circuit_refused() {
    let wire = Wire::new();
    let mut pin1 = wire.connect_push_pull_pin();
    let mut pin2 = wire.connect_push_pull_pin();
    assert_eq!(Ok(()), pin1.set_high());
    // the second driver disagreeing is a short circuit: the write is
    // refused and the wire keeps its previous state
    assert_eq!(Err(WireError::ShortCircuit), pin2.set_low());
    assert_eq!(WireState::High, wire.get_state());
    assert_eq!(Ok(false), pin2.is_set_low());
    assert_eq!(Err(WireError::ShortCircuit), pin2.toggle());
    assert_eq!(WireState::High, wire.get_state());
}

#[test]
fn unknown_pin_id_refused() {
    let mut wire = Wire::new();
    assert_eq!(Err(WireError::NoSuchPin), wire.set_state(0, WireState::High));
    assert_eq!(Err(WireError::NoSuchPin), wire.get_pin_state(3));
    wire.connect_push_pull_pin();
    assert_eq!(Ok(()), wire.set_state(0, WireState::High));
    assert_eq!(Ok(WireState::High), wire.get_pin_state(0));
    assert_eq!(Err(WireError::NoSuchPin), wire.set_state(1, WireState::Low));
}

#[test]
fn wire_clone_shares_the_node() {
    let wire = Wire::new_with_pull(WireState::Low);
    let wire2 = wire.clone();
    let mut pin = wire.connect_push_pull_pin();
    assert_eq!(Ok(()), pin.set_high());
    assert_eq!(WireState::High, wire2.get_state());
    assert_eq!(Ok(WireState::High), wire2.get_pin_state(0));
}

#[test]
fn push_pull_driver_scenario() {
    let wire = Wire::new();
    let mut pin = wire.connect_push_pull_pin();
    assert_eq!(Ok(()), pin.set_high());
    assert_eq!(WireState::High, wire.get_state());
    assert_eq!(Ok(true), pin.is_set_high());
    assert_eq!(Ok(()), pin.set_low());
    assert_eq!(WireState::Low, wire.get_state());
}

#[test]
fn wire_push_pull_toggle_from_floating() {
    let wire = Wire::new();
    let mut pin = wire.connect_push_pull_pin();
    assert_eq!(Ok(()), pin.toggle());
    assert_eq!(WireState::Low, wire.get_state());
    assert_eq!(Ok(()), pin.toggle());
    assert_eq!(WireState::High, wire.get_state());
}

#[test]
fn wire_open_drain_toggle_from_floating() {
    let wire = Wire::new_with_pull(WireState::High);
    let mut pin = wire.connect_open_drain_pin();
    assert_eq!(Ok(()), pin.toggle());
    assert_eq!(Ok(true), pin.is_set_high());
    assert_eq!(WireState::Low, wire.get_state());
    assert_eq!(Ok(()), pin.toggle());
    assert_eq!(Ok(true), pin.is_set_low());
    assert_eq!(WireState::High, wire.get_state());
}

#[test]
fn update_pin_state_applies_function() {
    let mut wire = Wire::new();
    wire.connect_push_pull_pin();
    assert_eq!(Ok(()), wire.update_pin_state(0, |_| WireState::High));
    assert_eq!(WireState::High, wire.get_state());
    assert_eq!(
        Err(WireError::NoSuchPin),
        wire.update_pin_state(9, |s| s)
    );
}

#[test]
fn wire_command_and_read_mappings() {
    assert_eq!(WireState::High, push_pull_command(true));
    assert_eq!(WireState::Low, push_pull_command(false));
    assert_eq!(WireState::Low, open_drain_command(true));
    assert_eq!(WireState::Floating, open_drain_command(false));
    assert!(reads_high(WireState::High));
    assert!(!reads_high(WireState::Low));
    assert!(reads_low(WireState::Low));
    assert!(!reads_low(WireState::Floating));
}

use gcpad::encoder::{timing_of, transmission_plan};
use gcpad::symbol::Bit;

#[test]
fn symbol_timings_are_the_fixed_pairs() {
    assert_eq!(timing_of(Bit::Low), Some((3, 1)));
    assert_eq!(timing_of(Bit::High), Some((1, 3)));
    assert_eq!(timing_of(Bit::Stop), Some((2, 6)));
    assert_eq!(timing_of(Bit::Unknown), None);
}

#[test]
fn plan_keeps_order_and_skips_wildcards() {
    let data = [Bit::Low, Bit::Unknown, Bit::High, Bit::Low, Bit::Stop];
    assert_eq!(
        transmission_plan(&data),
        vec![(3, 1), (1, 3), (3, 1), (2, 6)]
    );
}

#[test]
fn plan_of_empty_sequence_is_empty() {
    assert_eq!(transmission_plan(&[]), vec![]);
}

#[test]
fn plan_of_identify_response_has_one_pulse_per_symbol() {
    let response = gcpad::protocol::identify_response_bits();
    let plan = transmission_plan(&response);
    assert_eq!(plan.len(), response.len());
    assert_eq!(plan[plan.len() - 1], (2, 6));
}

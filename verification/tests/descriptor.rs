use asyncritty::{first_descriptor_above_stdio, occupies_stdio_slot};

#[test]
fn standard_stream_slots_are_zero_to_two() {
    assert!(occupies_stdio_slot(0));
    assert!(occupies_stdio_slot(1));
    assert!(occupies_stdio_slot(2));
    assert!(!occupies_stdio_slot(3));
    assert!(!occupies_stdio_slot(100));
    assert_eq!(first_descriptor_above_stdio(), 3);
}

use language_basics::data_types::{integer_sum, sum_field};

#[test]
fn five_plus_five_is_ten() {
    assert_eq!(integer_sum(), 10);
    assert_eq!(integer_sum(), 5 + 5);
}

#[test]
fn sum_field_opens_the_line_of_results() {
    assert_eq!(sum_field(), "Sum : 10");
    assert_eq!(sum_field(), format!("Sum : {}", integer_sum()));
}

#[test]
fn data_types_results_repeat() {
    assert_eq!(integer_sum(), integer_sum());
    assert_eq!(sum_field(), sum_field());
}

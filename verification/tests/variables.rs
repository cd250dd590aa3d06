use language_basics::variables::{
    const_example, immutable_example, keyword_example, mutable_example, run, shadowing_example,
    HOURS_IN_DAY,
};

#[test]
fn hours_in_day_is_24() {
    assert_eq!(HOURS_IN_DAY, 24);
}

#[test]
fn immutable_binding_shows_its_value() {
    assert_eq!(immutable_example(), "Your immutalbe age is  25");
}

#[test]
fn mutable_binding_shows_before_and_after() {
    assert_eq!(
        mutable_example(),
        vec!["Your mutalbe age is  25".to_string(), "Your mutalbe new age is  26".to_string()]
    );
}

#[test]
fn named_constant_shows_its_value() {
    assert_eq!(const_example(), "You const varialbe age is 25");
}

#[test]
fn keyword_example_shows_nothing() {
    keyword_example();
}

#[test]
fn shadowing_doubles_inside_and_reverts_outside() {
    let lines = shadowing_example();
    assert_eq!(lines.len(), 2);
    assert_eq!(lines[0], "The value of x in the inner scope is: 12");
    assert_eq!(lines[1], "The value of x is: 6");
}

#[test]
fn variables_run_shows_exactly_five_lines() {
    assert_eq!(
        run(),
        vec![
            "Your immutalbe age is  25".to_string(),
            "Your mutalbe age is  25".to_string(),
            "Your mutalbe new age is  26".to_string(),
            "You const varialbe age is 25".to_string(),
            "Your Global varialbe hours in a day is 24".to_string(),
        ]
    );
}

#[test]
fn variables_run_is_made_of_the_examples() {
    let lines = run();
    assert_eq!(lines[0], immutable_example());
    assert_eq!(lines[1..3].to_vec(), mutable_example());
    assert_eq!(lines[3], const_example());
    assert_eq!(lines[4], format!("Your Global varialbe hours in a day is {}", HOURS_IN_DAY));
}

#[test]
fn variables_run_repeats() {
    assert_eq!(run(), run());
    assert_eq!(shadowing_example(), shadowing_example());
    assert_eq!(mutable_example(), mutable_example());
}

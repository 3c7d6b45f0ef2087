use rustacean_gpt::tokenizer::get_token_estimate;

#[test]
#[allow(unused_comparisons)]
fn test_get_token_estimate_valid() {
    let input = "This is a valid input.";
    let result = get_token_estimate(input).unwrap();

    assert!(result >= 0, "Token estimate should be non-negative");
}

#[test]
fn token_estimate_of_nothing_is_zero() {
    assert_eq!(get_token_estimate(""), Some(0));
}

#[test]
fn token_estimate_counts_tokens_not_characters() {
    assert_eq!(get_token_estimate("hello world"), Some(2));
    assert_eq!(get_token_estimate("hello"), Some(1));
}

#[test]
fn token_estimate_counts_a_special_token_as_one() {
    assert_eq!(get_token_estimate("<|endoftext|>"), Some(1));
}

#[test]
fn token_estimate_is_the_same_every_time() {
    let text = "Objective: print 1..3";
    assert_eq!(get_token_estimate(text), get_token_estimate(text));
}

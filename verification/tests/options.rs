use langchain_bridge::options::CallOptions;

fn none() -> CallOptions {
    CallOptions { temperature_bits: None, max_tokens: None, stop_words: None }
}

#[test]
fn the_default_overrides_nothing() {
    assert_eq!(CallOptions::default(), none());
}

#[test]
fn builders_set_one_field_each() {
    let bits = 0.7f32.to_bits();
    let options = CallOptions::default()
        .with_temperature_bits(bits)
        .with_max_tokens(256)
        .with_stop_words(vec!["END".to_string(), "\n\n".to_string()]);
    assert_eq!(
        options,
        CallOptions {
            temperature_bits: Some(bits),
            max_tokens: Some(256),
            stop_words: Some(vec!["END".to_string(), "\n\n".to_string()]),
        }
    );
    assert_eq!(f32::from_bits(options.temperature_bits.unwrap()), 0.7f32);
    assert_eq!(
        CallOptions::default().with_max_tokens(1),
        CallOptions { temperature_bits: None, max_tokens: Some(1), stop_words: None }
    );
}

#[test]
fn apply_replaces_what_is_supplied_and_keeps_the_rest() {
    let base = CallOptions::default().with_temperature_bits(1).with_max_tokens(10);
    let overrides = CallOptions::default().with_max_tokens(20).with_stop_words(vec!["x".to_string()]);
    assert_eq!(
        base.apply(overrides),
        CallOptions {
            temperature_bits: Some(1),
            max_tokens: Some(20),
            stop_words: Some(vec!["x".to_string()]),
        }
    );
}

#[test]
fn applying_nothing_changes_nothing() {
    let base = CallOptions::default().with_temperature_bits(7).with_stop_words(Vec::new());
    assert_eq!(base.clone().apply(none()), base);
}

#[test]
fn options_for_a_call_are_the_supplied_ones_or_none() {
    assert_eq!(CallOptions::for_call(None), none());
    let supplied = CallOptions::default().with_temperature_bits(0).with_max_tokens(0);
    assert_eq!(CallOptions::for_call(Some(supplied.clone())), supplied);
    let only_stops = CallOptions::default().with_stop_words(vec!["stop".to_string()]);
    assert_eq!(CallOptions::for_call(Some(only_stops.clone())), only_stops);
}

use std::convert::Infallible;

fn value(outcome: Result<u32, Infallible>) -> u32 {
    match outcome {
        Ok(value) => value,
        Err(never) => mojave_transport::util::unreachable(never),
    }
}

#[test]
fn an_impossible_error_needs_no_value() {
    assert_eq!(value(Ok(3)), 3);
}

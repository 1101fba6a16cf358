//! Tests of the amount argument: parsing and first-N truncation.

use tcg_fetch::pipeline::{apply_amount, parse_amount, Amount, PipelineError};
use tcg_fetch::tcg::UnifiedCard;

fn cards(n: usize) -> Vec<UnifiedCard> {
    (0..n)
        .map(|i| UnifiedCard { id: format!("id-{}", i), image_url: format!("https://x/{}.png", i) })
        .collect()
}

#[test]
fn amount_all_keeps_everything() {
    assert_eq!(parse_amount("all"), Ok(Amount::All));
    let mut v = cards(7);
    apply_amount(&mut v, &Amount::All);
    assert_eq!(v.len(), 7);
}

#[test]
fn amount_number_parses_and_truncates() {
    assert_eq!(parse_amount("10"), Ok(Amount::First(10)));
    let mut v = cards(100);
    apply_amount(&mut v, &Amount::First(10));
    assert_eq!(v.len(), 10);
    for (i, c) in v.iter().enumerate() {
        assert_eq!(c.id, format!("id-{}", i));
    }
}

#[test]
fn amount_larger_than_list_keeps_the_list() {
    let mut v = cards(3);
    apply_amount(&mut v, &Amount::First(10));
    assert_eq!(v.len(), 3);
}

#[test]
fn amount_zero_empties_the_list() {
    assert_eq!(parse_amount("0"), Ok(Amount::First(0)));
    let mut v = cards(4);
    apply_amount(&mut v, &Amount::First(0));
    assert_eq!(v.len(), 0);
}

#[test]
fn bad_amounts_are_rejected() {
    assert_eq!(parse_amount(""), Err(PipelineError::InvalidAmount));
    assert_eq!(parse_amount("abc"), Err(PipelineError::InvalidAmount));
    assert_eq!(parse_amount("-1"), Err(PipelineError::InvalidAmount));
    assert_eq!(parse_amount("+5"), Err(PipelineError::InvalidAmount));
    assert_eq!(parse_amount("1 0"), Err(PipelineError::InvalidAmount));
    assert_eq!(parse_amount("ALL"), Err(PipelineError::InvalidAmount));
    assert_eq!(
        parse_amount("99999999999999999999999999999999"),
        Err(PipelineError::InvalidAmount)
    );
}

#[test]
fn boundary_amount_value_parses_exactly() {
    assert_eq!(parse_amount("007"), Ok(Amount::First(7)));
    assert_eq!(parse_amount(&format!("{}", usize::MAX)), Ok(Amount::First(usize::MAX)));
}

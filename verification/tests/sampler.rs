use wordcount_notifier::sampler::{draw, settle};

#[test]
fn draw_from_an_empty_pool_gives_the_fallback() {
    let pool: Vec<String> = Vec::new();
    assert_eq!(draw(&pool, "nothing to say"), "nothing to say");
}

#[test]
fn draw_from_one_sentence_gives_it() {
    let pool = vec!["only".to_string()];
    for _ in 0..20 {
        assert_eq!(draw(&pool, "fallback"), "only");
    }
}

#[test]
fn draw_gives_a_sentence_of_the_pool() {
    let pool = vec!["a".to_string(), "b".to_string(), "c".to_string()];
    for _ in 0..200 {
        let sentence = draw(&pool, "fallback");
        assert!(pool.contains(&sentence));
    }
}

#[test]
fn draw_reaches_every_sentence() {
    let pool = vec!["a".to_string(), "b".to_string(), "c".to_string()];
    let mut seen = std::collections::BTreeSet::new();
    for _ in 0..600 {
        seen.insert(draw(&pool, "fallback"));
    }
    assert_eq!(seen.len(), 3);
}

#[test]
fn settle_keeps_the_choice() {
    let chosen = "chosen".to_string();
    assert_eq!(settle(Some(&chosen), "fallback"), "chosen");
}

#[test]
fn settle_falls_back() {
    assert_eq!(settle(None, "fallback"), "fallback");
    assert_eq!(settle(None, ""), "");
}

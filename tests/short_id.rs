use url_shortener::short_id::{generate_short_id, short_id_from_draws, SHORT_ID_LENGTH};

const ALPHABET: &str = "ABCDEFGHIJKLMNOPQRSTUVWXYZabcdefghijklmnopqrstuvwxyz0123456789";

#[test]
fn generated_ids_are_six_alphanumeric_chars() {
    assert_eq!(SHORT_ID_LENGTH, 6);
    for _ in 0..1000 {
        let id = generate_short_id();
        assert_eq!(id.len(), 6);
        assert_eq!(id.chars().count(), 6);
        assert!(id.chars().all(|c| c.is_ascii_alphanumeric()), "bad id {id}");
    }
}

#[test]
fn character_distribution_is_roughly_uniform() {
    let mut counts = [0usize; 62];
    let draws = 20_000;
    for _ in 0..draws {
        for c in generate_short_id().chars() {
            let k = ALPHABET.find(c).expect("character outside the alphabet");
            counts[k] += 1;
        }
    }
    let expected = (draws * 6) as f64 / 62.0;
    for (k, &n) in counts.iter().enumerate() {
        let ratio = n as f64 / expected;
        assert!(
            ratio > 0.8 && ratio < 1.2,
            "symbol {} drawn {} times, expected about {}",
            &ALPHABET[k..k + 1],
            n,
            expected
        );
    }
}

#[test]
fn repeated_draws_differ() {
    let a = generate_short_id();
    let b = generate_short_id();
    let c = generate_short_id();
    assert!(a != b || b != c);
}

#[test]
fn draws_become_characters_in_draw_order() {
    assert_eq!(short_id_from_draws(&b"aB3xY9".to_vec()), "aB3xY9");
    assert_eq!(short_id_from_draws(&b"9Yx3Ba".to_vec()), "9Yx3Ba");
    assert_eq!(short_id_from_draws(&b"ZZZZZZ".to_vec()), "ZZZZZZ");
    assert_eq!(short_id_from_draws(&b"000000".to_vec()), "000000");
}

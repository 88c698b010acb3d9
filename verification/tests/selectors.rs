use titlebot::select::dinner_candidates;
use titlebot::select::novelty_payload;
use titlebot::select::pick_dinner;
use titlebot::select::roll_choice;
use titlebot::select::RollChoice;

#[test]
fn dinner_candidates_drop_the_command_token() {
    let c = dinner_candidates("/dinner A B C");
    assert_eq!(c, vec!["A".to_string(), "B".to_string(), "C".to_string()]);
}

#[test]
fn dinner_candidates_split_on_any_whitespace() {
    let c = dinner_candidates("/dinner  八方雲集\tSukiya\n臺鐵便當   元氣 ");
    assert_eq!(
        c,
        vec![
            "八方雲集".to_string(),
            "Sukiya".to_string(),
            "臺鐵便當".to_string(),
            "元氣".to_string()
        ]
    );
}

#[test]
fn dinner_without_arguments_has_no_candidates() {
    assert!(dinner_candidates("/dinner").is_empty());
    assert!(dinner_candidates("/dinner   ").is_empty());
}

#[test]
fn zero_candidates_answer_the_usage_hint() {
    let r = pick_dinner(&Vec::new());
    assert_eq!(r, "請輸入選項 e.g. /dinner 八方雲集 Sukiya 臺鐵便當 元氣");
}

#[test]
fn one_candidate_is_always_picked() {
    for _ in 0..100 {
        let r = pick_dinner(&vec!["唯一".to_string()]);
        assert_eq!(r, "唯一");
    }
}

#[test]
fn picked_dinner_is_always_a_candidate() {
    let candidates = vec!["A".to_string(), "B".to_string(), "C".to_string()];
    for _ in 0..1000 {
        let r = pick_dinner(&candidates);
        assert!(candidates.contains(&r));
    }
}

#[test]
fn dinner_choice_is_uniform_over_three_candidates() {
    let candidates = vec!["A".to_string(), "B".to_string(), "C".to_string()];
    let trials = 30_000;
    let mut counts = [0u32; 3];
    for _ in 0..trials {
        let r = pick_dinner(&candidates);
        let i = candidates.iter().position(|c| *c == r).unwrap();
        counts[i] += 1;
    }
    let expected = trials as f64 / 3.0;
    let chi2: f64 = counts
        .iter()
        .map(|&c| {
            let d = c as f64 - expected;
            d * d / expected
        })
        .sum();
    // 2 degrees of freedom; far beyond the 0.001 quantile (13.8) means bias
    assert!(chi2 < 20.0, "chi-square {} too large: {:?}", chi2, counts);
}

#[test]
fn roll_frequencies_approach_one_third_novelty() {
    let trials = 30_000;
    let mut novelty = 0u32;
    for _ in 0..trials {
        if roll_choice() == RollChoice::Novelty {
            novelty += 1;
        }
    }
    let p = novelty as f64 / trials as f64;
    // expectation 1/3; seven standard deviations are about 0.019
    assert!((p - 1.0 / 3.0).abs() < 0.02, "novelty frequency {}", p);
}

#[test]
fn novelty_payload_is_the_fixed_link() {
    assert_eq!(
        novelty_payload(),
        "[Never gonna give you up](https://www.youtube.com/watch?v=dQw4w9WgXcQ)"
    );
}

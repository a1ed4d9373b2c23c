use matrix_sdk_ffi::password_strength::{
    can_count, Float64, PasswordEntropy, PasswordStrengthEstimator, PasswordStrengthRanking,
    PasswordStrengthSuggestion, PasswordStrengthThresholds, PasswordStrengthWarning,
};
use zxcvbn::feedback::{Suggestion, Warning};

fn float(value: f64) -> Float64 {
    Float64 { bits: value.to_bits() }
}

fn thresholds(weak: f64, fair: f64, strong: f64, very_strong: f64) -> PasswordStrengthThresholds {
    PasswordStrengthThresholds {
        weak: float(weak),
        fair: float(fair),
        strong: float(strong),
        very_strong: float(very_strong),
    }
}

#[test]
fn test_same_leniency_as_zxcvbn() {
    let estimator = PasswordStrengthEstimator::with_zxcvbn_defaults();

    let cases: &[(&str, PasswordStrengthRanking)] = &[
        ("password", PasswordStrengthRanking::VeryWeak),
        ("123456", PasswordStrengthRanking::VeryWeak),
        ("15", PasswordStrengthRanking::VeryWeak),
        ("154", PasswordStrengthRanking::VeryWeak),
        ("hunter2", PasswordStrengthRanking::Weak),
        ("qwerty2025", PasswordStrengthRanking::Weak),
        ("foo bar", PasswordStrengthRanking::Fair),
        ("March212024!", PasswordStrengthRanking::Strong),
        ("Tr0ub4dor&3", PasswordStrengthRanking::VeryStrong),
        ("correct horse battery staple", PasswordStrengthRanking::VeryStrong),
        ("correcthorsebatterystaple!extra", PasswordStrengthRanking::VeryStrong),
        ("xK#9mP$2nL@7qR!4vZ^6wT&5yU*8sA", PasswordStrengthRanking::VeryStrong),
    ];

    for (pw, expected_ranking) in cases {
        let result = estimator.estimate(pw.to_string(), vec![]);
        assert_eq!(result.ranking, *expected_ranking, "unexpected ranking for {:?}", pw);
    }
}

// More lenient thresholds — passwords rank higher than zxcvbn would.
#[test]
fn test_more_lenient_thresholds() {
    let lenient_estimator = PasswordStrengthEstimator::new(thresholds(1.0, 2.0, 3.0, 4.0));

    let cases: &[(&str, PasswordStrengthRanking)] = &[
        ("password", PasswordStrengthRanking::VeryWeak),
        ("123456", PasswordStrengthRanking::VeryWeak),
        ("15", PasswordStrengthRanking::Weak),
        ("154", PasswordStrengthRanking::Fair),
        ("hunter2", PasswordStrengthRanking::Strong),
        ("qwerty2025", PasswordStrengthRanking::VeryStrong),
        ("foo bar", PasswordStrengthRanking::VeryStrong),
        ("March212024!", PasswordStrengthRanking::VeryStrong),
        ("Tr0ub4dor&3", PasswordStrengthRanking::VeryStrong),
        ("correct horse battery staple", PasswordStrengthRanking::VeryStrong),
        ("correcthorsebatterystaple!extra", PasswordStrengthRanking::VeryStrong),
        ("xK#9mP$2nL@7qR!4vZ^6wT&5yU*8sA", PasswordStrengthRanking::VeryStrong),
    ];

    for (pw, expected_ranking) in cases {
        let result = lenient_estimator.estimate(pw.to_string(), vec![]);
        assert_eq!(result.ranking, *expected_ranking, "unexpected ranking for {:?}", pw);
    }
}

#[test]
fn test_stricter_thresholds() {
    let strict_estimator = PasswordStrengthEstimator::new(thresholds(6.0, 10.0, 17.0, 20.0));

    let cases: &[(&str, PasswordStrengthRanking)] = &[
        ("password", PasswordStrengthRanking::VeryWeak),
        ("123456", PasswordStrengthRanking::VeryWeak),
        ("15", PasswordStrengthRanking::VeryWeak),
        ("154", PasswordStrengthRanking::VeryWeak),
        ("hunter2", PasswordStrengthRanking::VeryWeak),
        ("qwerty2025", PasswordStrengthRanking::VeryWeak),
        ("foo bar", PasswordStrengthRanking::Weak),
        ("March212024!", PasswordStrengthRanking::Weak),
        ("Tr0ub4dor&3", PasswordStrengthRanking::Fair),
    ];

    for (pw, expected_ranking) in cases {
        let result = strict_estimator.estimate(pw.to_string(), vec![]);
        assert_eq!(result.ranking, *expected_ranking, "unexpected ranking for {:?}", pw);
    }

    // Guesses are counted in 64 bits: at the top of the count the highest threshold is
    // still out of reach.
    for pw in [
        "correct horse battery staple",
        "correcthorsebatterystaple!extra",
        "xK#9mP$2nL@7qR!4vZ^6wT&5yU*8sA",
    ] {
        let result = strict_estimator.estimate(pw.to_string(), vec![]);
        assert_eq!(result.guesses, u64::MAX, "unexpected guesses for {:?}", pw);
        assert_eq!(result.ranking, PasswordStrengthRanking::Strong);
    }
}

#[test]
fn high_scores_reach_high_thresholds() {
    let strict = PasswordStrengthEstimator::new(thresholds(6.0, 10.0, 17.0, 20.0));
    let modern = PasswordStrengthEstimator::with_modern_defaults2025();
    for (score, of_strict, of_modern) in [
        (19.9, PasswordStrengthRanking::Strong, PasswordStrengthRanking::Fair),
        (20.0, PasswordStrengthRanking::VeryStrong, PasswordStrengthRanking::Fair),
        (22.0, PasswordStrengthRanking::VeryStrong, PasswordStrengthRanking::Strong),
        (25.5, PasswordStrengthRanking::VeryStrong, PasswordStrengthRanking::VeryStrong),
    ] {
        let entropy =
            PasswordEntropy { guesses: u64::MAX, score_bits: f64::to_bits(score), feedback: None };
        assert_eq!(strict.estimate_entropy(&entropy).ranking, of_strict);
        assert_eq!(modern.estimate_entropy(&entropy).ranking, of_modern);
    }
}

fn countable(password: &str, inputs: &[&str]) -> bool {
    can_count(password, &inputs.iter().map(|input| input.to_string()).collect())
}

#[test]
fn guesses_are_counted_within_their_integers() {
    // Few characters can always be counted.
    assert!(countable("", &[]));
    assert!(countable("1!1!1!1!1!1!", &["1"]));
    // A long walk over the keys.
    let walk = "qawsqawsqawsqawsqawsqawsqawsqawsq";
    assert!(!countable(walk, &[]));
    // Words apart from each other, however many; what follows the first hundred
    // characters does not count.
    let words = "carrots like to grow here and there, but only where rain falls";
    // The bounds below are those of machines with 64 bits.
    if usize::BITS == 64 {
        assert!(countable(&walk[..32], &[]));
        assert!(countable(&"5".repeat(20), &[]));
        assert!(countable(&"5".repeat(28), &[]));
        assert!(!countable(&"5".repeat(29), &[]));
        assert!(countable("aaaaaaaaaaaaaaaaaaaaaaaaaaaaaiii", &[]));
        assert!(!countable("aaaaaaaaaaaaaaaaaaaaaaaaaaaaiiii", &[]));
        assert!(countable("aaaaaaaaaaaaaaaaaaaa\u{130}", &[]));
        assert!(!countable("aaaaaaaaaaaaaaaaaaaaaaiiiiii\u{130}", &[]));
        assert!(countable("aaaaaaaaaaaaaaaaaaaab", &["ab"]));
        assert!(!countable("aaaaaaaaaaaaaaaaaaaab", &["b"]));

        assert!(countable(words, &["alice", "@alice:example.org"]));
        assert!(!countable(words, &["a b"]));
        assert!(!countable(&words.replace(' ', ""), &[]));
        let long = format!("{words}; so does a good deal of sweet cabbage, {walk}");
        assert!(long.len() > 100 + walk.len() / 2);
        assert!(countable(&long, &[]));
    }
}

#[test]
fn breaks_end_stretches() {
    if usize::BITS != 64 {
        return;
    }
    let left = "abkdmfphrjtlvnxpzrbtdvfx";
    let right = "qnskumwoyqasdcuexgzibkdm";
    // A space, a sign or a letter beyond ASCII breaks; a digit does not.
    assert!(countable(&format!("{left} {right}"), &[]));
    assert!(countable(&format!("{left}^{right}"), &[]));
    assert!(countable(&format!("{left}é{right}"), &[]));
    assert!(!countable(&format!("{left}7{right}"), &[]));
    // The sign for kelvin is a letter of ASCII in lower case.
    assert!(!countable(&format!("{left}\u{212a}{right}"), &[]));
    // Next keys, near characters, dates and repetitions do not break.
    assert!(!countable(&format!("{left}y^{right}"), &[]));
    assert!(!countable(&format!("{left}! {right}"), &[]));
    assert!(!countable(&format!("{left}1 2{right}"), &[]));
    assert!(!countable(&format!("{left}  {right}"), &[]));
    assert!(!countable(&format!("{left} x {right}").replace("fx x ", " x x "), &[]));
    // What is in a user input does not break either.
    assert!(!countable(&format!("{left}^{right}"), &["x^y"]));
    assert!(countable(&format!("{left}^{right}"), &["John Smith", "@john:example.org"]));
    assert!(!countable(&format!("{left}é{right}"), &["Ä."]));
    // Hyphens break between letters, but for those that common words have them between.
    assert!(countable(&format!("{left}-{right}"), &[]));
    assert!(countable(&format!("{left}n-W{right}"), &[]));
    assert!(!countable(&format!("{left}n-7{right}"), &[]));
    assert!(!countable(&format!("{left}t-T{right}"), &[]));
    assert!(!countable(&format!("{left}H-p{right}"), &[]));
    assert!(countable("correct-horse-battery-unicorn-mountain-lake", &[]));
    // Stretches end at their greatest length.
    let piece = &left[..23];
    assert!(countable(&format!("{piece}aeaea {right}"), &[]));
    assert!(!countable(&format!("{piece}aeaeae {right}"), &[]));
    assert!(!countable(&format!("{piece}aeaei {right}"), &[]));
}

#[test]
fn user_inputs_have_their_places() {
    // A word of 32 characters has so many spellings that 4977 places are left.
    let password = "abcdefghijklmnopqrstuvwxyzabcdef";
    if usize::BITS == 64 {
        assert!(can_count(password, &vec![password.to_owned(); 4977]));
        assert!(!can_count(password, &vec![password.to_owned(); 4978]));
        // Longer ones do not occur.
        assert!(can_count(password, &vec![format!("{password}g"); 6000]));
    }
    assert!(can_count("abcdef", &vec!["abc".to_owned(); 6000]));
}

#[test]
fn passwords_at_the_bounds_are_estimated() {
    let estimator = PasswordStrengthEstimator::with_zxcvbn_defaults();
    let known = "qawsqawsqawsqawsqawsqawsqawsqaws";
    for password in [
        known,
        "QaWsqAwSQaWsqAwSQaWsqAwSQaWsqAwS",
        "1a4@1l7!0o0O2z2Z5s$S4a@A1i!I3e3E",
        "5698569856985698569856985698",
        "aaaaaaaaaaaaaaaaaaaaaaaaaaaaaiii",
        "ab cd ef gh ij kl mn op qr st u",
        "toofonatbyorheweasatsomynoupdoha",
        "carrots like to grow here and there, but only where rain falls",
        "toofonatbyorheweasatsomy nomaupdogohebeamusanwe to of at on by or he we as so my no up",
        "aaaaaaaaaaaaaaaaaaaa\u{130}",
    ] {
        let inputs = vec![known.to_owned()];
        if !can_count(password, &inputs) {
            continue;
        }
        for inputs in [vec![], inputs] {
            let estimate = estimator.estimate(password.to_owned(), inputs);
            assert!(estimate.guesses >= 1);
            let log10 = (estimate.guesses as f64).log10();
            assert_eq!(f64::from_bits(estimate.score.bits), log10, "{password}");
        }
    }
}

#[test]
fn test_user_inputs_lower_score() {
    let estimator = PasswordStrengthEstimator::with_zxcvbn_defaults();
    let password = "michael1985".to_string();

    let without_inputs = estimator.estimate(password.clone(), vec![]);
    let with_inputs =
        estimator.estimate(password.clone(), vec!["michael".to_string(), "1985".to_string()]);
    let with_nonmatching_inputs =
        estimator.estimate(password, vec!["foo".to_string(), "blar".to_string()]);

    assert!(
        f64::from_bits(with_inputs.score.bits) <= f64::from_bits(without_inputs.score.bits),
        "score should be lower or equal when matching user inputs are provided"
    );

    assert!(
        f64::from_bits(with_inputs.score.bits)
            == f64::from_bits(with_nonmatching_inputs.score.bits),
        "score should be equal when no matching user inputs are provided"
    );
}

#[test]
fn test_feedback_present_for_weak_passwords() {
    let estimator = PasswordStrengthEstimator::with_zxcvbn_defaults();

    let weak = estimator.estimate("password".to_string(), vec![]);
    let weak_feedback = weak.feedback.as_ref().expect("expected feedback for a weak password");
    assert!(weak_feedback.warning.is_some(), "expected a warning for a weak password");
    assert!(!weak_feedback.suggestions.is_empty(), "expected suggestions for a weak password");

    let strong = estimator.estimate("correct horse battery staple".to_string(), vec![]);
    assert!(strong.feedback.is_none(), "expected no feedback for a strong password");
}

#[test]
fn estimates_are_those_of_zxcvbn() {
    let estimator = PasswordStrengthEstimator::with_zxcvbn_defaults();
    for (password, inputs) in [
        ("", vec![]),
        ("alice", vec!["alice"]),
        ("alice", vec![]),
        ("Tr0ub4dor&3", vec![]),
        ("abcabc", vec![]),
    ] {
        let entropy = zxcvbn::zxcvbn(password, &inputs);
        let inputs = inputs.iter().map(|input| input.to_string()).collect();
        let estimate = estimator.estimate(password.to_owned(), inputs);
        assert_eq!(estimate.guesses, entropy.guesses());
        assert_eq!(estimate.score.bits, entropy.guesses_log10().to_bits());
        if let Some(feedback) = &estimate.feedback {
            let expected = entropy.feedback().unwrap();
            assert_eq!(feedback.suggestions.len(), expected.suggestions().len());
            assert_eq!(feedback.warning.is_some(), expected.warning().is_some());
        }
    }
    // What an attacker knows counts.
    let known = estimator.estimate("alice".to_owned(), vec!["alice".to_owned()]);
    let unknown = estimator.estimate("alice".to_owned(), vec![]);
    assert!(known.guesses < unknown.guesses);
}

#[test]
fn empty_passwords_are_very_weak() {
    let estimate =
        PasswordStrengthEstimator::with_modern_defaults2025().estimate(String::new(), vec![]);
    assert_eq!(estimate.ranking, PasswordStrengthRanking::VeryWeak);
    assert_eq!(estimate.guesses, 0);
    assert_eq!(estimate.score.bits, f64::NEG_INFINITY.to_bits());
}

#[test]
fn floats_are_compared_as_std_does() {
    let values = [
        0.0,
        -0.0,
        1.0,
        -1.0,
        0.1,
        25.5,
        f64::MIN_POSITIVE,
        f64::MAX,
        f64::MIN,
        f64::INFINITY,
        f64::NEG_INFINITY,
        f64::NAN,
    ];
    for a in values {
        for b in values {
            assert_eq!(float(a).at_least(float(b)), a >= b, "{a} {b}");
        }
    }
}

#[test]
fn thresholds_are_inclusive() {
    let estimator = PasswordStrengthEstimator::with_zxcvbn_defaults();
    let modern = PasswordStrengthEstimator::with_modern_defaults2025();
    for (score, ranking) in [
        (2.9, PasswordStrengthRanking::VeryWeak),
        (3.0, PasswordStrengthRanking::Weak),
        (6.0, PasswordStrengthRanking::Fair),
        (8.0, PasswordStrengthRanking::Strong),
        (10.0, PasswordStrengthRanking::VeryStrong),
        (f64::NAN, PasswordStrengthRanking::VeryWeak),
    ] {
        assert_eq!(estimator.thresholds.ranking_for_score(float(score)), ranking);
    }
    for (score, ranking) in [
        (10.9, PasswordStrengthRanking::VeryWeak),
        (11.0, PasswordStrengthRanking::Weak),
        (16.5, PasswordStrengthRanking::Fair),
        (22.0, PasswordStrengthRanking::Strong),
        (25.5, PasswordStrengthRanking::VeryStrong),
    ] {
        assert_eq!(modern.thresholds.ranking_for_score(float(score)), ranking);
    }
}

#[test]
fn strong_passwords_get_no_feedback() {
    let estimator = PasswordStrengthEstimator::with_zxcvbn_defaults();
    let entropy = |score: f64| PasswordEntropy {
        guesses: 7,
        score_bits: score.to_bits(),
        feedback: Some((
            Some("This is a top-10 common password.".to_owned()),
            vec!["Avoid sequences.".to_owned(), "odd".to_owned()],
        )),
    };
    let fair = estimator.estimate_entropy(&entropy(7.9));
    assert_eq!(fair.ranking, PasswordStrengthRanking::Fair);
    let feedback = fair.feedback.unwrap();
    assert!(matches!(feedback.warning, Some(PasswordStrengthWarning::ThisIsATop10Password)));
    assert_eq!(feedback.suggestions.len(), 1);
    assert!(matches!(feedback.suggestions[0], PasswordStrengthSuggestion::AvoidSequences));
    assert!(estimator.estimate_entropy(&entropy(8.0)).feedback.is_none());
}

#[test]
fn every_warning_and_suggestion_of_zxcvbn_is_known() {
    for warning in [
        Warning::StraightRowsOfKeysAreEasyToGuess,
        Warning::ShortKeyboardPatternsAreEasyToGuess,
        Warning::RepeatsLikeAaaAreEasyToGuess,
        Warning::RepeatsLikeAbcAbcAreOnlySlightlyHarderToGuess,
        Warning::ThisIsATop10Password,
        Warning::ThisIsATop100Password,
        Warning::ThisIsACommonPassword,
        Warning::ThisIsSimilarToACommonlyUsedPassword,
        Warning::SequencesLikeAbcAreEasyToGuess,
        Warning::RecentYearsAreEasyToGuess,
        Warning::AWordByItselfIsEasyToGuess,
        Warning::DatesAreOftenEasyToGuess,
        Warning::NamesAndSurnamesByThemselvesAreEasyToGuess,
        Warning::CommonNamesAndSurnamesAreEasyToGuess,
    ] {
        let read = PasswordStrengthWarning::from(&warning.to_string()).unwrap();
        assert_eq!(format!("{read:?}"), format!("{warning:?}"));
    }
    for suggestion in [
        Suggestion::UseAFewWordsAvoidCommonPhrases,
        Suggestion::NoNeedForSymbolsDigitsOrUppercaseLetters,
        Suggestion::AddAnotherWordOrTwo,
        Suggestion::CapitalizationDoesntHelpVeryMuch,
        Suggestion::AllUppercaseIsAlmostAsEasyToGuessAsAllLowercase,
        Suggestion::ReversedWordsArentMuchHarderToGuess,
        Suggestion::PredictableSubstitutionsDontHelpVeryMuch,
        Suggestion::UseALongerKeyboardPatternWithMoreTurns,
        Suggestion::AvoidRepeatedWordsAndCharacters,
        Suggestion::AvoidSequences,
        Suggestion::AvoidRecentYears,
        Suggestion::AvoidYearsThatAreAssociatedWithYou,
        Suggestion::AvoidDatesAndYearsThatAreAssociatedWithYou,
    ] {
        let read = PasswordStrengthSuggestion::from(&suggestion.to_string()).unwrap();
        assert_eq!(format!("{read:?}"), format!("{suggestion:?}"));
    }
    assert!(PasswordStrengthWarning::from("odd").is_none());
    assert!(PasswordStrengthSuggestion::from("odd").is_none());
}

use icie_judge::error::Error;
use icie_judge::model::{RejectionCause, Score, Verdict};
use icie_judge::spoj::SPOJ;

fn number(token: &str) -> Option<Score> {
    token.parse::<f64>().ok().map(|value| Score::from_bits(value.to_bits()))
}

fn read(token: &str) -> Result<Verdict, Error> {
    SPOJ.verdict(token, number(token))
}

fn rejected(cause: RejectionCause) -> Verdict {
    Verdict::Rejected { cause: Some(cause), test: None }
}

#[test]
fn accepted_is_accepted() {
    assert_eq!(read("accepted"), Ok(Verdict::Accepted));
}

#[test]
fn wrong_answer_is_rejected() {
    assert_eq!(read("wrong answer"), Ok(rejected(RejectionCause::WrongAnswer)));
}

#[test]
fn other_rejections_name_their_cause() {
    assert_eq!(read("time limit exceeded"), Ok(rejected(RejectionCause::TimeLimitExceeded)));
    assert_eq!(read("compilation error"), Ok(rejected(RejectionCause::CompilationError)));
    assert_eq!(read("internal error"), Ok(rejected(RejectionCause::SystemError)));
}

#[test]
fn every_signal_is_a_runtime_error() {
    for signal in ["SIGFPE", "SIGSEGV", "SIGABRT", "NZEC"] {
        let token = format!("runtime error    ({})", signal);
        assert_eq!(read(&token), Ok(rejected(RejectionCause::RuntimeError)));
    }
}

#[test]
fn runtime_error_with_other_spacing_is_unknown() {
    assert_eq!(
        read("runtime error (SIGFPE)"),
        Err(Error::UnexpectedVerdict("runtime error (SIGFPE)".to_string()))
    );
}

#[test]
fn waiting_is_pending() {
    assert_eq!(read("waiting.."), Ok(Verdict::Pending { test: None }));
}

#[test]
fn every_running_state_is_pending() {
    for token in ["compiling..", "running judge..", "running.."] {
        assert_eq!(read(token), Ok(Verdict::Pending { test: None }));
    }
}

#[test]
fn a_number_is_a_score() {
    match read("42.5") {
        Ok(Verdict::Scored { score, max: None, cause: None, test: None }) => {
            assert_eq!(f64::from_bits(score.to_bits()), 42.5);
        }
        other => panic!("not a bare score: {:?}", other),
    }
}

#[test]
fn a_whole_number_is_a_score() {
    match read("100") {
        Ok(Verdict::Scored { score, .. }) => assert_eq!(f64::from_bits(score.to_bits()), 100.0),
        other => panic!("not a score: {:?}", other),
    }
}

#[test]
fn an_unknown_token_is_an_error() {
    assert_eq!(read("bogus-token"), Err(Error::UnexpectedVerdict("bogus-token".to_string())));
}

#[test]
fn an_unknown_token_is_never_pending() {
    let verdict = read("bogus-token");
    assert!(!matches!(verdict, Ok(Verdict::Pending { .. })));
    assert!(!matches!(verdict, Ok(Verdict::Accepted)));
}

#[test]
fn an_empty_token_is_an_error() {
    assert_eq!(read(""), Err(Error::UnexpectedVerdict(String::new())));
}

#[test]
fn the_lexicon_wins_over_a_number() {
    let verdict = SPOJ.verdict("accepted", Some(Score::from_bits(1.0f64.to_bits())));
    assert_eq!(verdict, Ok(Verdict::Accepted));
}

#[test]
fn the_lexicon_knows_no_number() {
    assert_eq!(SPOJ.lexicon("42.5"), None);
    assert_eq!(SPOJ.lexicon("accepted"), Some(Verdict::Accepted));
}

#[test]
fn case_matters_in_the_lexicon() {
    assert_eq!(read("Accepted"), Err(Error::UnexpectedVerdict("Accepted".to_string())));
}

#[test]
fn pending_is_not_terminal() {
    assert!(!Verdict::Pending { test: None }.is_terminal());
    assert!(Verdict::Accepted.is_terminal());
    assert!(rejected(RejectionCause::WrongAnswer).is_terminal());
    let scored = Verdict::Scored {
        score: Score::from_bits(0),
        max: None,
        cause: None,
        test: None,
    };
    assert!(scored.is_terminal());
}

#[test]
fn the_token_is_the_first_line() {
    assert_eq!(SPOJ.verdict_token("accepted\n  edit  ideone it"), "accepted");
    assert_eq!(SPOJ.verdict_token("accepted"), "accepted");
    assert_eq!(SPOJ.verdict_token("\naccepted"), "");
    assert_eq!(SPOJ.verdict_token(""), "");
}

#[test]
fn score_keeps_its_bits() {
    let bits = 42.5f64.to_bits();
    assert_eq!(Score::from_bits(bits).to_bits(), bits);
}

#[test]
fn words_that_read_as_numbers_are_no_scores() {
    for token in ["NaN", "nan", "inf", "-inf", "infinity", "+infinity"] {
        assert!(number(token).is_some(), "{} reads as a number", token);
        assert_eq!(read(token), Err(Error::UnexpectedVerdict(token.to_string())));
    }
}

#[test]
fn signs_and_exponents_are_no_bare_numbers() {
    for token in ["-1", "+1", "1e5", "1E5", "1e999", "4 2", " 42", "42 ", "1,5", "0x10"] {
        assert_eq!(read(token), Err(Error::UnexpectedVerdict(token.to_string())));
    }
}

#[test]
fn a_number_has_a_digit_and_one_point_at_most() {
    for token in [".", "..", "1.2.3", "1..2"] {
        let given = Some(Score::from_bits(1.0f64.to_bits()));
        assert_eq!(SPOJ.verdict(token, given), Err(Error::UnexpectedVerdict(token.to_string())));
    }
    for (token, value) in [("5.", 5.0), (".5", 0.5), ("0", 0.0), ("007", 7.0), ("3.14", 3.14)] {
        match read(token) {
            Ok(Verdict::Scored { score, .. }) => assert_eq!(f64::from_bits(score.to_bits()), value),
            other => panic!("{} is not a score: {:?}", token, other),
        }
    }
}

#[test]
fn a_number_too_large_to_be_finite_is_no_score() {
    let token = "9".repeat(400);
    assert_eq!(number(&token).map(|s| f64::from_bits(s.to_bits())), Some(f64::INFINITY));
    assert_eq!(read(&token), Err(Error::UnexpectedVerdict(token.clone())));
}

#[test]
fn a_score_that_is_not_finite_is_refused() {
    for value in [f64::NAN, f64::INFINITY, f64::NEG_INFINITY] {
        let given = Some(Score::from_bits(value.to_bits()));
        assert_eq!(SPOJ.verdict("42.5", given), Err(Error::UnexpectedVerdict("42.5".to_string())));
    }
}

#[test]
fn a_bare_number_without_a_score_is_an_error() {
    assert_eq!(SPOJ.verdict("42.5", None), Err(Error::UnexpectedVerdict("42.5".to_string())));
}

#[test]
fn finite_goes_by_the_exponent_bits() {
    for value in [0.0f64, -0.0, 42.5, -1.0e300, f64::MAX, f64::MIN_POSITIVE, 5e-324] {
        assert!(Score::from_bits(value.to_bits()).is_finite());
    }
    for value in [f64::NAN, f64::INFINITY, f64::NEG_INFINITY] {
        assert!(!Score::from_bits(value.to_bits()).is_finite());
    }
    assert!(!Score::from_bits(0x7ff0_0000_0000_0001).is_finite());
    assert!(!Score::from_bits(u64::MAX).is_finite());
    assert!(Score::from_bits(0x7fef_ffff_ffff_ffff).is_finite());
}

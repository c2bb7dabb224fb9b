use intro_chapter_adder::candidate::Candidate;
use std::time::Duration;

#[test]
fn a_candidate_keeps_what_it_was_made_of() {
    let c = Candidate::new(Duration::from_secs(6), Duration::from_secs(3));
    assert_eq!(c.offset(), Duration::from_secs(6));
    assert_eq!(c.length(), Duration::from_secs(3));
    assert_eq!(c.offset, Duration::from_secs(6));
    assert_eq!(c, Candidate::new(Duration::from_secs(6), Duration::from_secs(3)));
    assert_ne!(c, Candidate::new(Duration::from_secs(3), Duration::from_secs(6)));
}

#[test]
fn a_candidate_is_described_in_words() {
    let c = Candidate::new(Duration::from_secs(6), Duration::from_secs(3));
    assert_eq!(c.describe(), "{ 6s for 3s }");
}

#[test]
fn the_description_names_every_unit() {
    let c = Candidate::new(Duration::new(9420, 0), Duration::new(0, 32_000_000));
    assert_eq!(c.describe(), "{ 2h 37m for 32ms }");
    let c = Candidate::new(Duration::new(61, 500_000_000), Duration::ZERO);
    assert_eq!(c.describe(), "{ 1m 1s 500ms for 0s }");
}

use appshell::pattern::match_pattern;

#[test]
fn exact_name_matches() {
    assert!(match_pattern("counter.increment", "counter.increment"));
    assert!(!match_pattern("counter.increment", "counter.reset"));
}

#[test]
fn single_star_matches_everything() {
    assert!(match_pattern("*", "anything"));
    assert!(match_pattern("*", "a.b.c"));
    assert!(match_pattern("*", ""));
}

#[test]
fn database_wildcard_selects_database_topics() {
    assert!(match_pattern("database.*", "database.users_fetched"));
    assert!(!match_pattern("database.*", "counter.increment"));
}

#[test]
fn double_star_matches_any_name() {
    assert!(match_pattern("**", "anything.at.all"));
    assert!(match_pattern("**", "x"));
}

#[test]
fn longer_pattern_never_matches_shorter_name() {
    assert!(!match_pattern("a.b.c", "a.b"));
}

#[test]
fn shorter_literal_pattern_does_not_match_longer_name() {
    // The walk uses up "a.b" against "a.b.c" without a wildcard: the
    // segment counts differ and the last pattern segment is not `**`.
    assert!(!match_pattern("a.b", "a.b.c"));
}

#[test]
fn wildcard_segment_accepts_the_rest_of_the_name() {
    // A `*` mid-pattern short-circuits to a match, whatever follows:
    // the documented match-rest quirk of the matcher.
    assert!(match_pattern("a.*.c", "a.b.d"));
    assert!(match_pattern("a.*", "a.b.c.d"));
    assert!(match_pattern("a.**", "a.b.c.d"));
}

#[test]
fn empty_pattern_matches_only_the_empty_name() {
    assert!(match_pattern("", ""));
    assert!(!match_pattern("", "x"));
}

#[test]
fn literal_mismatch_fails_before_a_later_wildcard() {
    assert!(!match_pattern("a.b.*", "a.x.c"));
}

use parser::text::same_text;

#[test]
fn a_text_is_the_same_as_itself() {
    for text in ["", "X", "tick", "CCSPlayerPawn.m_iHealth", "Grüße", "名前", "a\u{0}b"] {
        assert!(same_text(text, text));
        assert!(same_text(text, &text.to_string()));
    }
}

#[test]
fn texts_that_differ_are_not_the_same() {
    assert!(!same_text("", "X"));
    assert!(!same_text("X", ""));
    assert!(!same_text("X", "Y"));
    assert!(!same_text("X", "x"));
    assert!(!same_text("tick", "tic"));
    assert!(!same_text("tick", "ticks"));
    assert!(!same_text("tick", "tack"));
    assert!(!same_text("kcit", "tick"));
    assert!(!same_text("Grüße", "Grüsse"));
    assert!(!same_text("Grüße", "Gruße"));
    assert!(!same_text("é", "e\u{301}"));
    assert!(!same_text("名前", "名"));
    assert!(!same_text("ab", "ba"));
}

#[test]
fn sameness_goes_both_ways() {
    let texts = ["", "a", "b", "ab", "ba", "é", "e\u{301}", "CCSTeam.m_iScore"];
    for left in texts {
        for right in texts {
            assert_eq!(same_text(left, right), left == right);
            assert_eq!(same_text(left, right), same_text(right, left));
        }
    }
}

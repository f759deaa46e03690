use opensi_core::node::{PackageNode, QuestionIdx, RoundIdx, ThemeIdx};

#[test]
fn valid_hierarchy() {
    let base: RoundIdx = 0.into();
    assert_eq!(base, RoundIdx { index: 0 });
    assert_eq!(base.theme(5), ThemeIdx { round_index: 0, index: 5 });
    assert_eq!(
        base.theme(1).question(2),
        QuestionIdx { round_index: 0, theme_index: 1, index: 2 }
    );

    let question: QuestionIdx = (1, 2, 3).into();
    assert_eq!(question, QuestionIdx { round_index: 1, theme_index: 2, index: 3 });
    assert_eq!(question.parent(), ThemeIdx { round_index: 1, index: 2 });
    assert_eq!(question.parent().parent(), RoundIdx { index: 1 });
}

#[test]
fn node_parent_and_index() {
    let round: PackageNode = 4.into();
    assert_eq!(round.parent(), None);
    assert_eq!(round.index(), 4);

    let theme: PackageNode = (4, 7).into();
    assert_eq!(theme.parent(), Some(PackageNode::Round(RoundIdx { index: 4 })));
    assert_eq!(theme.index(), 7);

    let question: PackageNode = (4, 7, 9).into();
    assert_eq!(
        question.parent(),
        Some(PackageNode::Theme(ThemeIdx { round_index: 4, index: 7 }))
    );
    assert_eq!(question.index(), 9);
}

#[test]
fn next_indices() {
    assert_eq!(RoundIdx { index: 2 }.next(), RoundIdx { index: 3 });
    assert_eq!(ThemeIdx { round_index: 1, index: 2 }.next(), ThemeIdx { round_index: 1, index: 3 });
    assert_eq!(
        QuestionIdx { round_index: 1, theme_index: 2, index: 3 }.next(),
        QuestionIdx { round_index: 1, theme_index: 2, index: 4 }
    );
}

#[test]
fn printable_indices() {
    assert_eq!(RoundIdx { index: 12 }.to_string(), "[12]");
    assert_eq!(ThemeIdx { round_index: 0, index: 305 }.to_string(), "[0 > 305]");
    assert_eq!(QuestionIdx { round_index: 1, theme_index: 2, index: 3 }.to_string(), "[1 > 2 > 3]");
}

#[test]
fn indices_dereference_to_their_index() {
    let r = RoundIdx { index: 3 };
    let t = ThemeIdx { round_index: 1, index: 4 };
    let q = QuestionIdx { round_index: 1, theme_index: 4, index: 5 };
    assert_eq!(*r, 3);
    assert_eq!(*t, 4);
    assert_eq!(*q, 5);
    let r_ref: &usize = r.as_ref();
    let t_ref: &usize = t.as_ref();
    let q_ref: &usize = q.as_ref();
    assert_eq!((*r_ref, *t_ref, *q_ref), (3, 4, 5));
}

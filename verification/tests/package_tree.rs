use opensi_core::node::{PackageNode, QuestionIdx, RoundIdx, ThemeIdx};
use opensi_core::package_trait::{
    NodeContainer, QuestionBase, QuestionsContainer, RoundContainer, ThemesContainer,
};
use opensi_core::v4::{Packagev4, Questionv4, Roundv4, Themev4};

fn empty_package() -> Packagev4 {
    Packagev4::new_with_identity("id".to_string(), 2024, 3, 5)
}

fn question(price: usize) -> Questionv4 {
    let mut q = Questionv4::default();
    q.set_price(price);
    q
}

fn theme_with_prices(prices: &[usize]) -> Themev4 {
    let mut t = Themev4::default();
    t.questions.clear();
    for p in prices {
        t.questions.push(question(*p));
    }
    t
}

fn package_with_theme(prices: &[usize]) -> Packagev4 {
    let mut p = empty_package();
    let mut round = Roundv4::default();
    round.themes.push(theme_with_prices(prices));
    p.push_round(round);
    p
}

#[test]
fn new_round_theme_and_question_defaults() {
    let round = Roundv4::default();
    assert_eq!(round.name, "Новый раунд");
    assert!(round.themes.is_empty());

    let theme = Themev4::default();
    assert_eq!(theme.name, "Новая тема");
    let prices: Vec<usize> = theme.questions.iter().map(|q| q.price).collect();
    assert_eq!(prices, vec![100, 200, 300, 400, 500]);

    let q = Questionv4::default();
    assert_eq!(q.get_price(), 100);
    assert!(q.scenario.is_empty() && q.right.is_empty() && q.wrong.is_empty());
}

#[test]
fn guess_price_without_questions() {
    let p = package_with_theme(&[]);
    assert_eq!(p.guess_next_question_price(ThemeIdx { round_index: 0, index: 0 }), 100);
}

#[test]
fn guess_price_with_one_question() {
    let p = package_with_theme(&[250]);
    assert_eq!(p.guess_next_question_price(ThemeIdx { round_index: 0, index: 0 }), 350);
}

#[test]
fn guess_price_continues_difference() {
    let p = package_with_theme(&[100, 300]);
    assert_eq!(p.guess_next_question_price(ThemeIdx { round_index: 0, index: 0 }), 500);
    let p = package_with_theme(&[500, 300]);
    assert_eq!(p.guess_next_question_price(ThemeIdx { round_index: 0, index: 0 }), 500);
}

#[test]
fn guess_price_for_missing_theme() {
    let p = package_with_theme(&[100, 200]);
    assert_eq!(p.guess_next_question_price(ThemeIdx { round_index: 0, index: 3 }), 100);
    assert_eq!(p.guess_next_question_price(ThemeIdx { round_index: 7, index: 0 }), 100);
}

#[test]
fn allocate_question_uses_guessed_price() {
    let mut p = package_with_theme(&[100, 200, 300]);
    let t = ThemeIdx { round_index: 0, index: 0 };
    let q = p.allocate_question(t).expect("theme exists");
    assert_eq!(q.price, 400);
    assert_eq!(p.count_questions(t), 4);
    assert!(p.allocate_question(ThemeIdx { round_index: 0, index: 1 }).is_none());
}

#[test]
fn rounds_push_insert_remove() {
    let mut p = empty_package();
    assert_eq!(p.count_rounds(), 0);
    let mut a = Roundv4::default();
    a.name = "A".to_string();
    let mut b = Roundv4::default();
    b.name = "B".to_string();
    p.push_round(a);
    assert!(p.insert_round(RoundIdx { index: 0 }, b).is_some());
    assert_eq!(p.rounds[0].name, "B");
    assert_eq!(p.rounds[1].name, "A");
    assert!(p.insert_round(RoundIdx { index: 3 }, Roundv4::default()).is_none());
    assert!(p.contains_round(RoundIdx { index: 1 }));
    assert!(!p.contains_round(RoundIdx { index: 2 }));
    let removed = p.remove_round(RoundIdx { index: 0 }).unwrap();
    assert_eq!(removed.name, "B");
    assert_eq!(p.count_rounds(), 1);
    assert!(p.remove_round(RoundIdx { index: 5 }).is_none());
}

#[test]
fn insert_then_remove_restores_rounds() {
    let mut p = empty_package();
    p.allocate_round();
    p.allocate_round();
    let before = p.clone();
    let mut r = Roundv4::default();
    r.name = "inserted".to_string();
    p.insert_round(RoundIdx { index: 1 }, r);
    let removed = p.remove_round(RoundIdx { index: 1 }).unwrap();
    assert_eq!(removed.name, "inserted");
    assert_eq!(p, before);
}

#[test]
fn themes_of_missing_round() {
    let mut p = empty_package();
    assert_eq!(p.count_themes(RoundIdx { index: 0 }), 0);
    assert!(p.get_themes(RoundIdx { index: 0 }).is_none());
    assert!(p.allocate_theme(RoundIdx { index: 0 }).is_none());
    assert!(p.get_theme(ThemeIdx { round_index: 0, index: 0 }).is_none());
}

#[test]
fn duplicate_node_inserts_equal_copy() {
    let mut p = package_with_theme(&[100, 200]);
    p.duplicate_node(PackageNode::Theme(ThemeIdx { round_index: 0, index: 0 }));
    assert_eq!(p.count_themes(RoundIdx { index: 0 }), 2);
    assert_eq!(p.rounds[0].themes[0], p.rounds[0].themes[1]);

    p.duplicate_node(PackageNode::Question(QuestionIdx { round_index: 0, theme_index: 1, index: 0 }));
    let prices: Vec<usize> = p.rounds[0].themes[1].questions.iter().map(|q| q.price).collect();
    assert_eq!(prices, vec![100, 100, 200]);

    p.duplicate_node(PackageNode::Round(RoundIdx { index: 0 }));
    assert_eq!(p.count_rounds(), 2);
    assert_eq!(p.rounds[0], p.rounds[1]);
}

#[test]
fn duplicate_then_remove_restores() {
    let mut p = package_with_theme(&[100, 200, 300]);
    let before = p.clone();
    let node = PackageNode::Question(QuestionIdx { round_index: 0, theme_index: 0, index: 1 });
    p.duplicate_node(node);
    p.remove_node(PackageNode::Question(QuestionIdx { round_index: 0, theme_index: 0, index: 2 }));
    assert_eq!(p, before);
}

#[test]
fn allocate_node_at_each_level() {
    let mut p = package_with_theme(&[100, 200]);
    p.allocate_node(PackageNode::Round(RoundIdx { index: 0 }));
    assert_eq!(p.count_rounds(), 2);
    assert_eq!(p.rounds[1].name, "Новый раунд");

    p.allocate_node(PackageNode::Theme(ThemeIdx { round_index: 1, index: 0 }));
    assert_eq!(p.count_themes(RoundIdx { index: 1 }), 1);
    assert_eq!(p.rounds[1].themes[0].name, "Новая тема");

    p.allocate_node(PackageNode::Question(QuestionIdx { round_index: 0, theme_index: 0, index: 0 }));
    let prices: Vec<usize> = p.rounds[0].themes[0].questions.iter().map(|q| q.price).collect();
    assert_eq!(prices, vec![100, 200, 300]);
}

#[test]
fn allocate_then_remove_restores() {
    let mut p = package_with_theme(&[100, 200]);
    let before = p.clone();
    p.allocate_node(PackageNode::Theme(ThemeIdx { round_index: 0, index: 0 }));
    p.remove_node(PackageNode::Theme(ThemeIdx { round_index: 0, index: 1 }));
    assert_eq!(p, before);
}

#[test]
fn remove_node_of_missing_node_changes_nothing() {
    let mut p = package_with_theme(&[100]);
    let before = p.clone();
    p.remove_node(PackageNode::Question(QuestionIdx { round_index: 0, theme_index: 0, index: 4 }));
    p.remove_node(PackageNode::Theme(ThemeIdx { round_index: 2, index: 0 }));
    p.remove_node(PackageNode::Round(RoundIdx { index: 9 }));
    assert_eq!(p, before);
}

#[test]
fn edits_in_one_theme_leave_other_themes() {
    let mut p = package_with_theme(&[100, 200]);
    p.rounds[0].themes.push(theme_with_prices(&[10, 20]));
    let other = p.rounds[0].themes[1].clone();
    p.remove_question(QuestionIdx { round_index: 0, theme_index: 0, index: 0 });
    p.push_question(ThemeIdx { round_index: 0, index: 0 }, question(900));
    assert_eq!(p.rounds[0].themes[1], other);
    assert_eq!(p.name, "Новый пакет вопросов");
}

#[test]
fn get_and_set_through_mutable_access() {
    let mut p = package_with_theme(&[100]);
    let q = p.get_question_mut(QuestionIdx { round_index: 0, theme_index: 0, index: 0 }).unwrap();
    q.set_price(700);
    assert_eq!(p.get_question(QuestionIdx { round_index: 0, theme_index: 0, index: 0 }).unwrap().price, 700);
    assert!(p.contains_question(QuestionIdx { round_index: 0, theme_index: 0, index: 0 }));
    assert!(!p.contains_question(QuestionIdx { round_index: 0, theme_index: 0, index: 1 }));
    assert!(p.insert_question(QuestionIdx { round_index: 0, theme_index: 0, index: 5 }, question(1)).is_none());
    assert!(p.insert_question(QuestionIdx { round_index: 0, theme_index: 0, index: 1 }, question(1)).is_some());
    assert_eq!(p.count_questions(ThemeIdx { round_index: 0, index: 0 }), 2);
}

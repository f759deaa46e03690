use opensi_core::editor_panels::{
    add_answer, answers_summary, atom_file_label, round_summary, filled_summary, package_question_total, scenario_summary, question_meta, round_question_count, tree_row, question_text, question_type_option_label, question_type_selected,
    remove_answer, round_kind_label, round_kind_position, round_meta, round_prices, set_question_type,
    set_round_kind,
};
use opensi_core::node::{PackageNode, QuestionIdx, RoundIdx, ThemeIdx};
use opensi_core::v4::{AtomKindv4, Atomv4, Packagev4, Questionv4, Roundv4, Themev4};

fn atom(kind: AtomKindv4, body: &str) -> Atomv4 {
    Atomv4 { time: None, kind, body: body.to_string() }
}

#[test]
fn question_texts() {
    let mut q = Questionv4::default();
    assert_eq!(question_text(&q), "Пустой вопрос");
    q.scenario.push(atom(AtomKindv4::Image, "@a.png"));
    assert_eq!(question_text(&q), "Медиа-вопрос");
    q.scenario.push(atom(AtomKindv4::Text, ""));
    q.scenario.push(atom(AtomKindv4::Text, "Столица Франции?"));
    q.scenario.push(atom(AtomKindv4::Text, "второй"));
    assert_eq!(question_text(&q), "Столица Франции?");
    let mut answered = Questionv4::default();
    answered.right.push("Париж".to_string());
    assert_eq!(question_text(&answered), "Медиа-вопрос");
}

#[test]
fn question_summaries() {
    let mut q = Questionv4::default();
    assert_eq!(question_meta(&q), "нет сценария и ответов");
    q.scenario.push(atom(AtomKindv4::Text, "x"));
    assert_eq!(question_meta(&q), "1 фрагмент · 0 ответов");
    q.right.push("a".to_string());
    q.right.push("b".to_string());
    q.scenario.push(atom(AtomKindv4::Text, "y"));
    assert_eq!(question_meta(&q), "2 фрагмента · 2 ответа");
}

#[test]
fn round_summaries() {
    let mut round = Roundv4::default();
    assert_eq!(round_meta(&round), "0 тем · 0 вопросов");
    round.themes.push(Themev4::default());
    assert_eq!(round_meta(&round), "1 тема · 5 вопросов · 100–500");
    let mut t = Themev4::default();
    t.questions.truncate(1);
    t.questions[0].price = 50;
    round.themes.push(t);
    assert_eq!(round_prices(&round), vec![100, 200, 300, 400, 500, 50]);
    assert_eq!(round_meta(&round), "2 темы · 6 вопросов · 50–500");
}

#[test]
fn round_kinds() {
    let mut round = Roundv4::default();
    assert_eq!(round_kind_position(&round), Some(0));
    set_round_kind(&mut round, 1);
    assert_eq!(round.kind.as_deref(), Some("final"));
    assert_eq!(round_kind_position(&round), Some(1));
    set_round_kind(&mut round, 2);
    assert_eq!(round.kind.as_deref(), Some("auction"));
    round.kind = Some("other".to_string());
    assert_eq!(round_kind_position(&round), None);
    assert_eq!(round_kind_label(0), "Обычный");
    assert_eq!(round_kind_label(1), "Финал");
    assert_eq!(round_kind_label(2), "Аукцион");
}

#[test]
fn question_types() {
    let mut q = Questionv4::default();
    assert!(question_type_selected(&q, 0));
    q.question_type.name = "simple".to_string();
    assert!(question_type_selected(&q, 0));
    set_question_type(&mut q, 1);
    assert_eq!(q.question_type.name, "cat");
    assert!(question_type_selected(&q, 1));
    assert!(!question_type_selected(&q, 0));
    set_question_type(&mut q, 2);
    assert_eq!(q.question_type.name, "auction");
    assert_eq!(question_type_option_label(1), "Кот в мешке");
}

#[test]
fn answers() {
    let mut q = Questionv4::default();
    set_question_type(&mut q, 2);
    add_answer(&mut q, false);
    add_answer(&mut q, false);
    add_answer(&mut q, true);
    assert_eq!(q.right, vec!["Правильный ответ #1".to_string(), "Правильный ответ #2".to_string()]);
    assert_eq!(q.wrong, vec!["Неправильный ответ #1".to_string()]);
    remove_answer(&mut q, false, 0);
    assert_eq!(q.right, vec!["Правильный ответ #2".to_string()]);
    remove_answer(&mut q, true, 5);
    assert_eq!(q.wrong.len(), 1);
    assert_eq!(q.question_type.name, "auction");
    assert!(q.info.is_none());
}

#[test]
fn tree_rows_and_totals() {
    let mut p = Packagev4::new_with_identity("id".to_string(), 2020, 1, 1);
    assert_eq!(package_question_total(&p), 0);
    let mut round = Roundv4::default();
    round.name = "Первый".to_string();
    round.themes.push(Themev4::default());
    round.themes.push(Themev4::default());
    p.rounds.push(round);
    p.rounds.push(Roundv4::default());
    assert_eq!(package_question_total(&p), 10);
    assert_eq!(round_question_count(&p.rounds[0]), 10);

    let row = tree_row(PackageNode::Round(RoundIdx { index: 0 }), &p).unwrap();
    assert_eq!(row.label, "Первый");
    assert_eq!(row.count, Some(10));
    assert_eq!(row.depth, 0);
    assert!(row.open_by_default && row.expandable);

    let row = tree_row(PackageNode::Theme(ThemeIdx { round_index: 0, index: 1 }), &p).unwrap();
    assert_eq!(row.label, "Новая тема");
    assert_eq!(row.count, Some(5));
    assert_eq!(row.depth, 1);
    assert!(!row.open_by_default && row.expandable);

    let row = tree_row(
        PackageNode::Question(QuestionIdx { round_index: 0, theme_index: 1, index: 3 }),
        &p,
    )
    .unwrap();
    assert_eq!(row.label, "400");
    assert_eq!(row.count, None);
    assert_eq!(row.depth, 2);
    assert!(!row.expandable && !row.filled);

    assert!(tree_row(PackageNode::Round(RoundIdx { index: 2 }), &p).is_none());
    assert!(tree_row(PackageNode::Theme(ThemeIdx { round_index: 1, index: 0 }), &p).is_none());
}

#[test]
fn theme_and_question_summaries() {
    let mut theme = Themev4::default();
    assert_eq!(filled_summary(&theme), "0 / 5");
    theme.questions[1].right.push("ответ".to_string());
    theme.questions[3].scenario.push(atom(AtomKindv4::Text, "текст"));
    assert_eq!(filled_summary(&theme), "2 / 5");

    let mut q = Questionv4::default();
    assert_eq!(scenario_summary(&q), "0 фрагментов");
    assert_eq!(answers_summary(&q), "0 верных · 0 неверных");
    q.scenario.push(atom(AtomKindv4::Text, "a"));
    q.right.push("r".to_string());
    q.wrong.push("w1".to_string());
    q.wrong.push("w2".to_string());
    assert_eq!(scenario_summary(&q), "1 фрагмент");
    assert_eq!(answers_summary(&q), "1 верных · 2 неверных");
}

#[test]
fn round_summaries_and_file_labels() {
    let mut round = Roundv4::default();
    assert_eq!(round_summary(&round), "Пусто");
    let mut a = Themev4::default();
    a.name = "Кино".to_string();
    let mut b = Themev4::default();
    b.name = "Музыка".to_string();
    round.themes.push(a);
    assert_eq!(round_summary(&round), "Кино");
    round.themes.push(b);
    assert_eq!(round_summary(&round), "Кино, Музыка");

    assert_eq!(atom_file_label(&atom(AtomKindv4::Voice, "1 2.mp3")), "Audio/@1%202.mp3");
    assert_eq!(atom_file_label(&atom(AtomKindv4::Text, "hello")), "нет файла");
}

use opensi_core::editor::{
    add_label, apply_node_value, breadcrumbs, change_label, delete_label, duplicate_label,
    edit_input, edit_prompt, node_child, node_value, theme_or_default, PackageState,
    all_themes, choose_theme, default_theme, kind_label, node_name, plural, price_range,
    price_range_label, question_is_filled, question_name, round_name, theme_name, CardStyle,
    ColorMode, Latte, Mocha, NodeIcons, OpenSIBlue, OpenSIGreen, OpenSIOrange, OpenSIPeach,
};
use opensi_core::node::{PackageNode, QuestionIdx, RoundIdx, ThemeIdx};
use opensi_core::package_trait::RoundContainer;
use opensi_core::v4::{AtomKindv4, Atomv4, Packagev4, Questionv4, Roundv4, Themev4};

fn questions_word(n: usize) -> &'static str {
    plural(n, "вопрос", "вопроса", "вопросов")
}

#[test]
fn plural_forms() {
    assert_eq!(questions_word(0), "вопросов");
    assert_eq!(questions_word(1), "вопрос");
    assert_eq!(questions_word(2), "вопроса");
    assert_eq!(questions_word(4), "вопроса");
    assert_eq!(questions_word(5), "вопросов");
    assert_eq!(questions_word(11), "вопросов");
    assert_eq!(questions_word(12), "вопросов");
    assert_eq!(questions_word(14), "вопросов");
    assert_eq!(questions_word(21), "вопрос");
    assert_eq!(questions_word(22), "вопроса");
    assert_eq!(questions_word(111), "вопросов");
    assert_eq!(questions_word(101), "вопрос");
}

#[test]
fn price_ranges() {
    assert_eq!(price_range(&[]), None);
    assert_eq!(price_range(&[300]), Some((300, 300)));
    assert_eq!(price_range(&[300, 100, 500, 200]), Some((100, 500)));
    assert_eq!(price_range_label(&[300, 100, 500]), "100–500");
    assert_eq!(price_range_label(&[7]), "7–7");
    assert_eq!(price_range_label(&[]), "-");
}

#[test]
fn kind_labels() {
    assert_eq!(kind_label(AtomKindv4::Text), "текст");
    assert_eq!(kind_label(AtomKindv4::Image), "изображение");
    assert_eq!(kind_label(AtomKindv4::Voice), "аудио");
    assert_eq!(kind_label(AtomKindv4::Video), "видео");
}

#[test]
fn filled_questions() {
    let mut q = Questionv4::default();
    assert!(!question_is_filled(&q));
    q.right.push("ответ".to_string());
    assert!(question_is_filled(&q));
    let mut q = Questionv4::default();
    q.scenario.push(Atomv4 { time: None, kind: AtomKindv4::Text, body: "x".to_string() });
    assert!(question_is_filled(&q));
}

const ICONS: NodeIcons = NodeIcons { round: "R", theme: "T", question: "Q" };

#[test]
fn node_names() {
    let mut p = Packagev4::new_with_identity("id".to_string(), 2020, 1, 1);
    let mut round = Roundv4::default();
    round.name = "Первый".to_string();
    let mut theme = Themev4::default();
    theme.name = "История".to_string();
    round.themes.push(theme);
    p.push_round(round);

    assert_eq!(node_name(PackageNode::Round(RoundIdx { index: 0 }), &p, &ICONS), "R Первый");
    assert_eq!(
        node_name(PackageNode::Theme(ThemeIdx { round_index: 0, index: 0 }), &p, &ICONS),
        "T История"
    );
    assert_eq!(
        node_name(
            PackageNode::Question(QuestionIdx { round_index: 0, theme_index: 0, index: 2 }),
            &p,
            &ICONS
        ),
        "Q (300)"
    );
    assert_eq!(node_name(PackageNode::Round(RoundIdx { index: 1 }), &p, &ICONS), "<Неизвестный раунд>");
    assert_eq!(
        node_name(PackageNode::Theme(ThemeIdx { round_index: 0, index: 1 }), &p, &ICONS),
        "<Неизвестная тема>"
    );
    assert_eq!(
        node_name(
            PackageNode::Question(QuestionIdx { round_index: 0, theme_index: 0, index: 9 }),
            &p,
            &ICONS
        ),
        "<Неизвестный вопрос>"
    );
    assert_eq!(round_name(&p.rounds[0], "*"), "* Первый");
    assert_eq!(theme_name(&p.rounds[0].themes[0], "#"), "# История");
    assert_eq!(question_name(&p.rounds[0].themes[0].questions[0], "?"), "? (100)");
}

#[test]
fn color_modes() {
    assert_eq!(ColorMode::default(), ColorMode::Night);
    assert_eq!(ColorMode::Day.to_string(), "День");
    assert_eq!(ColorMode::Night.label(), "Ночь");
}

#[test]
fn card_style_default() {
    assert_eq!(CardStyle::default(), CardStyle::Normal);
}

#[test]
fn themes() {
    assert_eq!(
        all_themes(),
        vec!["Big Brain Blue", "Grand Genius Green", "Outsmarted & Outplayed Orange", "Puzzle Piece Peach"]
    );
    assert_eq!(default_theme(), "Big Brain Blue");
    assert_eq!(choose_theme("Puzzle Piece Peach"), Some("Puzzle Piece Peach"));
    assert_eq!(choose_theme("[Catppuccin] Latte"), None);
    assert_eq!(choose_theme("big brain blue"), None);
    assert_eq!(OpenSIBlue.name(), "Big Brain Blue");
    assert_eq!(OpenSIGreen.name(), "Grand Genius Green");
    assert_eq!(OpenSIOrange.name(), "Outsmarted & Outplayed Orange");
    assert_eq!(OpenSIPeach.name(), "Puzzle Piece Peach");
    assert_eq!(Latte.name(), "[Catppuccin] Latte");
    assert_eq!(Mocha.name(), "[Catppuccin] Mocha");
}

#[test]
fn breadcrumb_paths() {
    let q = PackageNode::Question(QuestionIdx { round_index: 1, theme_index: 2, index: 3 });
    assert_eq!(
        breadcrumbs(q),
        vec![
            PackageNode::Round(RoundIdx { index: 1 }),
            PackageNode::Theme(ThemeIdx { round_index: 1, index: 2 }),
            q
        ]
    );
    let t = PackageNode::Theme(ThemeIdx { round_index: 4, index: 0 });
    assert_eq!(breadcrumbs(t), vec![PackageNode::Round(RoundIdx { index: 4 }), t]);
    let r = PackageNode::Round(RoundIdx { index: 0 });
    assert_eq!(breadcrumbs(r), vec![r]);
}

#[test]
fn context_menu_labels() {
    let r = PackageNode::Round(RoundIdx { index: 2 });
    let t = PackageNode::Theme(ThemeIdx { round_index: 2, index: 1 });
    let q = PackageNode::Question(QuestionIdx { round_index: 2, theme_index: 1, index: 0 });
    assert_eq!(node_child(r, 0), Some(PackageNode::Theme(ThemeIdx { round_index: 2, index: 0 })));
    assert_eq!(node_child(t, 0), Some(PackageNode::Question(QuestionIdx { round_index: 2, theme_index: 1, index: 0 })));
    assert_eq!(node_child(q, 0), None);
    assert_eq!(add_label(r), Some("Добавить тему"));
    assert_eq!(add_label(t), Some("Добавить вопрос"));
    assert_eq!(add_label(q), None);
    assert_eq!(change_label(q), "Изменить цену");
    assert_eq!(change_label(r), "Переименовать");
    assert_eq!(duplicate_label(t), "Дублировать тему");
    assert_eq!(delete_label(r), "Удалить раунд");
    assert_eq!(delete_label(q), "Удалить вопрос");
    assert_eq!(edit_prompt(q), "Введите новую цену для вопроса:");
    assert_eq!(edit_prompt(t), "Введите новое название для темы:");
}

#[test]
fn editing_node_values() {
    let mut p = Packagev4::new_with_identity("id".to_string(), 2020, 1, 1);
    let mut round = Roundv4::default();
    round.themes.push(Themev4::default());
    p.push_round(round);
    let r = PackageNode::Round(RoundIdx { index: 0 });
    let t = PackageNode::Theme(ThemeIdx { round_index: 0, index: 0 });
    let q = PackageNode::Question(QuestionIdx { round_index: 0, theme_index: 0, index: 1 });

    assert_eq!(node_value(r, &p), "Новый раунд");
    assert_eq!(node_value(q, &p), "200");
    assert_eq!(node_value(PackageNode::Round(RoundIdx { index: 3 }), &p), "");

    assert_eq!(edit_input(q, "1a2 3"), "123");
    assert_eq!(edit_input(t, "1a2 3"), "1a2 3");

    apply_node_value(&mut p, r, "Финал".to_string());
    assert_eq!(p.rounds[0].name, "Финал");
    apply_node_value(&mut p, t, "Кино".to_string());
    assert_eq!(p.rounds[0].themes[0].name, "Кино");
    apply_node_value(&mut p, q, "750".to_string());
    assert_eq!(p.rounds[0].themes[0].questions[1].price, 750);
    apply_node_value(&mut p, q, "".to_string());
    assert_eq!(p.rounds[0].themes[0].questions[1].price, 750);
    apply_node_value(&mut p, q, "99999999999999999999999".to_string());
    assert_eq!(p.rounds[0].themes[0].questions[1].price, 750);

    let before = p.clone();
    let own = node_value(q, &p);
    apply_node_value(&mut p, q, own);
    assert_eq!(p, before);
}

#[test]
fn stored_images_and_links() {
    let image = opensi_core::v4::ResourceIdv4::image("cat.png");
    let audio = opensi_core::v4::ResourceIdv4::audio("cat.mp3");
    let key = opensi_core::editor::storage_path("pkg-1", &image).unwrap();
    assert_eq!(key, "pkg-1/Images/@cat.png");
    assert_eq!(opensi_core::editor::storage_path("pkg-1", &audio), None);
    let uri = opensi_core::editor::package_uri(&key);
    assert_eq!(uri, "package://pkg-1/Images/@cat.png");
    assert_eq!(opensi_core::editor::uri_storage_path(&uri), Some(key));
    assert_eq!(opensi_core::editor::uri_storage_path("https://x"), None);
}

#[test]
fn theme_fallback() {
    assert_eq!(theme_or_default("Grand Genius Green"), "Grand Genius Green");
    assert_eq!(theme_or_default("nope"), "Big Brain Blue");
}

#[test]
fn package_state_selection() {
    let mut state = PackageState::default();
    assert!(!state.has_active_package());
    state = PackageState::open(Packagev4::new_with_identity("id".to_string(), 2020, 1, 1));
    assert!(state.has_active_package());
    assert_eq!(state.selected(), None);
    let node = PackageNode::Round(RoundIdx { index: 0 });
    state.select(node);
    assert_eq!(state.selected(), Some(node));
    state.package().allocate_round();
    assert_eq!(state.package().count_rounds(), 1);
    assert_eq!(state.selected(), Some(node));
    state.deselect();
    assert_eq!(state.selected(), None);
}

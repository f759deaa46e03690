use opensi_core::identity::format_date;
use opensi_core::v4::{Packagev4, QuestionTypev4};
use opensi_core::v5::PackageV5;

#[test]
fn dates_are_zero_padded() {
    assert_eq!(format_date(2024, 3, 5), "2024-03-05");
    assert_eq!(format_date(1999, 12, 31), "1999-12-31");
    assert_eq!(format_date(-44, 3, 15), "-44-03-15");
    assert_eq!(format_date(7, 1, 1), "7-01-01");
}

#[test]
fn new_package_with_identity() {
    let p = Packagev4::new_with_identity("abc".to_string(), 2024, 3, 5);
    assert_eq!(p.name, "Новый пакет вопросов");
    assert_eq!(p.version, "5");
    assert_eq!(p.id, "abc");
    assert_eq!(p.date, "2024-03-05");
    assert_eq!(p.difficulty, 5);
    assert!(p.rounds.is_empty() && p.tags.is_empty() && p.resource.is_empty());
    assert!(p.logo.is_none());
}

#[test]
fn new_package_is_dated_and_identified() {
    let p = Packagev4::new();
    assert_eq!(p.id.chars().count(), 36);
    assert_eq!(p.id.chars().filter(|c| *c == '-').count(), 4);
    let id: Vec<char> = p.id.chars().collect();
    for (i, c) in id.iter().enumerate() {
        if i == 8 || i == 13 || i == 18 || i == 23 {
            assert_eq!(*c, '-');
        } else {
            assert!(c.is_ascii_digit() || ('a'..='f').contains(c));
        }
    }
    assert_eq!(id[14], '4');
    assert!(['8', '9', 'a', 'b'].contains(&id[19]));
    let parts: Vec<&str> = p.date.split('-').collect();
    assert_eq!(parts.len(), 3);
    assert_eq!(parts[1].len(), 2);
    assert_eq!(parts[2].len(), 2);
    let other = Packagev4::new();
    assert_ne!(p.id, other.id);

    let v5 = PackageV5::new();
    assert_eq!(v5.name, "Новый пакет вопросов");
    assert_eq!(v5.id.len(), 36);
}

#[test]
fn question_type_names() {
    let mut t = QuestionTypev4::default();
    assert_eq!(t.display_name(), "Обычный вопрос");
    t.name = "simple".to_string();
    assert_eq!(t.display_name(), "Обычный вопрос");
    t.name = "auction".to_string();
    assert_eq!(t.display_name(), "Вопрос со ставкой");
    t.name = "cat".to_string();
    assert_eq!(t.display_name(), "Вопрос с секретом");
    t.name = "bagcat".to_string();
    assert_eq!(t.display_name(), "Обобщённый Вопрос с секретом");
    t.name = "sponsored".to_string();
    assert_eq!(t.display_name(), "Вопрос без риска");
    t.name = "other".to_string();
    assert_eq!(t.display_name(), "Неизвестно");
}

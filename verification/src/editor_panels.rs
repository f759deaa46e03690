//! The logic behind the editor's round, theme and question panels: the
//! summaries shown on cards and rows, the round and question type choices,
//! and the answer lists.
use vstd::prelude::*;
use crate::editor::{max_price, min_price, plural, plural_form, price_range, question_is_filled};
use crate::node::PackageNode;
use crate::package_trait::{
    QuestionsContainer, RoundContainer, ThemesContainer, elem_at, round_of, theme_of,
};
use crate::v4::package::Packagev4;
use crate::text::{decimal, push_char, push_decimal, push_str, str_eq, usize_to_decimal};
use crate::v4::atom::{AtomKindv4, Atomv4, spec_atom_resource};
use crate::v4::components::{Questionv4, Roundv4, Themev4};

verus! {

/// `n` followed by the plural form of a noun chosen for `n`.
pub open spec fn counted(n: nat, one: Seq<char>, few: Seq<char>, many: Seq<char>) -> Seq<char> {
    decimal(n) + seq![' '] + if plural_form(n) == 0 {
        one
    } else if plural_form(n) == 1 {
        few
    } else {
        many
    }
}

/// ` · `, the separator of summary parts.
pub open spec fn separator() -> Seq<char> {
    seq![' ', '·', ' ']
}

fn push_counted(s: &mut String, n: usize, one: &'static str, few: &'static str, many: &'static str)
    ensures
        final(s)@ == old(s)@ + counted(n as nat, one@, few@, many@),
{
    push_decimal(s, n);
    push_char(s, ' ');
    push_str(s, plural(n, one, few, many));
}

/// Whether an atom is text with a non-empty body.
pub open spec fn is_text_with_body(a: Atomv4) -> bool {
    a.kind == AtomKindv4::Text && a.body@.len() > 0
}

/// The index of the first atom that is text with a non-empty body, if any.
pub open spec fn first_text_atom(atoms: Seq<Atomv4>) -> Option<int> {
    if exists|i: int| 0 <= i < atoms.len() && is_text_with_body(#[trigger] atoms[i]) {
        Some(
            choose|i: int|
                0 <= i < atoms.len() && is_text_with_body(#[trigger] atoms[i]) && forall|j: int|
                    0 <= j < i ==> !is_text_with_body(#[trigger] atoms[j]),
        )
    } else {
        None
    }
}

/// The text shown for a question in a theme's list: the body of its first
/// text atom with a body; otherwise "Медиа-вопрос" for a question with
/// content and "Пустой вопрос" for one without.
pub open spec fn spec_question_text(q: Questionv4) -> Seq<char> {
    match first_text_atom(q.scenario@) {
        Some(i) => q.scenario@[i].body@,
        None => if q.right@.len() > 0 || q.scenario@.len() > 0 {
            "Медиа-вопрос"@
        } else {
            "Пустой вопрос"@
        },
    }
}

/// The text shown for a question in a theme's list.
pub fn question_text(question: &Questionv4) -> (r: String)
    ensures
        r@ == spec_question_text(*question),
{
    let atoms = &question.scenario;
    let mut i: usize = 0;
    while i < atoms.len()
        invariant
            atoms@ == question.scenario@,
            i <= atoms@.len(),
            forall|j: int| 0 <= j < i ==> !is_text_with_body(#[trigger] atoms@[j]),
        decreases atoms@.len() - i,
    {
        let atom = &atoms[i];
        if atom.kind.is_text() && atom.body.as_str().unicode_len() > 0 {
            proof {
                assert(is_text_with_body(atoms@[i as int]));
                let k = first_text_atom(atoms@)->0;
                assert(k == i) by {
                    if k < i {
                        assert(!is_text_with_body(atoms@[k]));
                    } else if k > i {
                        assert(is_text_with_body(atoms@[i as int]));
                    }
                }
            }
            return atom.body.clone();
        }
        i = i + 1;
    }
    if question.right.len() > 0 || question.scenario.len() > 0 {
        "Медиа-вопрос".to_string()
    } else {
        "Пустой вопрос".to_string()
    }
}

/// The summary of a question in a theme's list: how many scenario atoms
/// and right answers it has, or "нет сценария и ответов" when it has none.
pub open spec fn spec_question_meta(q: Questionv4) -> Seq<char> {
    if q.right@.len() > 0 || q.scenario@.len() > 0 {
        counted(q.scenario@.len(), "фрагмент"@, "фрагмента"@, "фрагментов"@) + separator()
            + counted(q.right@.len(), "ответ"@, "ответа"@, "ответов"@)
    } else {
        "нет сценария и ответов"@
    }
}

/// The summary of a question in a theme's list.
pub fn question_meta(question: &Questionv4) -> (r: String)
    ensures
        r@ == spec_question_meta(*question),
{
    if !(question.right.len() > 0 || question.scenario.len() > 0) {
        return "нет сценария и ответов".to_string();
    }
    let mut s = String::new();
    push_counted(&mut s, question.scenario.len(), "фрагмент", "фрагмента", "фрагментов");
    push_str(&mut s, " · ");
    proof {
        reveal_strlit(" · ");
    }
    push_counted(&mut s, question.right.len(), "ответ", "ответа", "ответов");
    s
}

/// The number of questions in the themes.
pub open spec fn question_count(themes: Seq<Themev4>) -> nat
    decreases themes.len(),
{
    if themes.len() == 0 {
        0
    } else {
        question_count(themes.drop_last()) + themes.last().questions@.len()
    }
}

/// The prices of all questions of the themes, theme by theme.
pub open spec fn all_prices(themes: Seq<Themev4>) -> Seq<usize>
    decreases themes.len(),
{
    if themes.len() == 0 {
        Seq::empty()
    } else {
        all_prices(themes.drop_last()) + themes.last().questions@.map_values(
            |q: Questionv4| q.price,
        )
    }
}

proof fn lemma_all_prices_len(themes: Seq<Themev4>)
    ensures
        all_prices(themes).len() == question_count(themes),
    decreases themes.len(),
{
    if themes.len() > 0 {
        lemma_all_prices_len(themes.drop_last());
    }
}

proof fn lemma_question_count_prefix(themes: Seq<Themev4>, i: int)
    requires
        0 <= i <= themes.len(),
    ensures
        question_count(themes.take(i)) <= question_count(themes),
    decreases themes.len() - i,
{
    if i < themes.len() {
        lemma_question_count_prefix(themes, i + 1);
        assert(themes.take(i + 1).drop_last() =~= themes.take(i));
    } else {
        assert(themes.take(i) =~= themes);
    }
}

/// The prices of all questions of a round, theme by theme.
pub fn round_prices(round: &Roundv4) -> (r: Vec<usize>)
    requires
        question_count(round.themes@) <= usize::MAX,
    ensures
        r@ == all_prices(round.themes@),
{
    let themes = &round.themes;
    let mut prices: Vec<usize> = Vec::new();
    let mut i: usize = 0;
    while i < themes.len()
        invariant
            themes@ == round.themes@,
            i <= themes@.len(),
            question_count(themes@) <= usize::MAX,
            prices@ == all_prices(themes@.take(i as int)),
        decreases themes@.len() - i,
    {
        proof {
            assert(themes@.take(i + 1).drop_last() =~= themes@.take(i as int));
            lemma_question_count_prefix(themes@, i + 1);
            lemma_all_prices_len(themes@.take(i + 1));
        }
        let questions = &themes[i].questions;
        let mut j: usize = 0;
        let ghost start = prices@;
        while j < questions.len()
            invariant
                questions@ == themes@[i as int].questions@,
                j <= questions@.len(),
                prices@ == start + questions@.take(j as int).map_values(|q: Questionv4| q.price),
                start.len() + questions@.len() <= usize::MAX,
            decreases questions@.len() - j,
        {
            prices.push(questions[j].price);
            assert(questions@.take(j + 1).map_values(|q: Questionv4| q.price) =~= questions@.take(
                j as int,
            ).map_values(|q: Questionv4| q.price).push(questions@[j as int].price));
            j = j + 1;
        }
        assert(questions@.take(j as int) =~= questions@);
        i = i + 1;
    }
    assert(themes@.take(i as int) =~= themes@);
    prices
}

/// The summary of a round on its card: how many themes and questions it
/// has, then the range of its prices when it has questions.
pub open spec fn spec_round_meta(round: Roundv4) -> Seq<char> {
    let counts = counted(round.themes@.len(), "тема"@, "темы"@, "тем"@) + separator() + counted(
        question_count(round.themes@),
        "вопрос"@,
        "вопроса"@,
        "вопросов"@,
    );
    let prices = all_prices(round.themes@);
    if prices.len() > 0 {
        counts + separator() + decimal(min_price(prices) as nat) + seq!['–'] + decimal(
            max_price(prices) as nat,
        )
    } else {
        counts
    }
}

/// The summary of a round on its card.
pub fn round_meta(round: &Roundv4) -> (r: String)
    requires
        question_count(round.themes@) <= usize::MAX,
    ensures
        r@ == spec_round_meta(*round),
{
    let prices = round_prices(round);
    proof {
        lemma_all_prices_len(round.themes@);
        reveal_strlit(" · ");
    }
    let mut s = String::new();
    push_counted(&mut s, round.themes.len(), "тема", "темы", "тем");
    push_str(&mut s, " · ");
    push_counted(&mut s, prices.len(), "вопрос", "вопроса", "вопросов");
    match price_range(prices.as_slice()) {
        Some((lo, hi)) => {
            push_str(&mut s, " · ");
            push_decimal(&mut s, lo);
            push_char(&mut s, '–');
            push_decimal(&mut s, hi);
        },
        None => {},
    }
    s
}

/// The kinds a round can have, in the order they are offered: a regular
/// round, a final, an auction.
pub open spec fn round_kinds() -> Seq<Option<Seq<char>>> {
    seq![None, Some("final"@), Some("auction"@)]
}

/// The labels of the round kinds, in the same order.
pub open spec fn round_kind_labels() -> Seq<Seq<char>> {
    seq!["Обычный"@, "Финал"@, "Аукцион"@]
}

/// The view of an optional string.
pub open spec fn opt_view(s: Option<String>) -> Option<Seq<char>> {
    match s {
        Some(s) => Some(s@),
        None => None,
    }
}

/// The position of a round's kind among the offered kinds, if it is one
/// of them.
pub fn round_kind_position(round: &Roundv4) -> (r: Option<usize>)
    ensures
        r is Some ==> r->0 < 3 && round_kinds()[r->0 as int] == opt_view(round.kind),
        r is None ==> !round_kinds().contains(opt_view(round.kind)),
{
    proof {
        reveal_strlit("final");
        reveal_strlit("auction");
    }
    match &round.kind {
        None => Some(0),
        Some(kind) => if str_eq(kind.as_str(), "final") {
            Some(1)
        } else if str_eq(kind.as_str(), "auction") {
            Some(2)
        } else {
            None
        },
    }
}

/// The label of the round kind at a position.
pub fn round_kind_label(position: usize) -> (r: &'static str)
    requires
        position < 3,
    ensures
        r@ == round_kind_labels()[position as int],
{
    if position == 0 {
        "Обычный"
    } else if position == 1 {
        "Финал"
    } else {
        "Аукцион"
    }
}

/// Gives a round the kind at a position.
pub fn set_round_kind(round: &mut Roundv4, position: usize)
    requires
        position < 3,
    ensures
        opt_view(final(round).kind) == round_kinds()[position as int],
        *final(round) == (Roundv4 { kind: final(round).kind, ..*old(round) }),
{
    proof {
        reveal_strlit("final");
        reveal_strlit("auction");
    }
    if position == 0 {
        round.kind = None;
    } else if position == 1 {
        round.kind = Some("final".to_string());
    } else {
        round.kind = Some("auction".to_string());
    }
}

/// The question types offered, by type name: a regular question, a cat in
/// the bag, an auction.
pub open spec fn question_type_names() -> Seq<Seq<char>> {
    seq![""@, "cat"@, "auction"@]
}

/// The labels of the offered question types, in the same order.
pub open spec fn question_type_option_labels() -> Seq<Seq<char>> {
    seq!["Обычный вопрос"@, "Кот в мешке"@, "Аукцион"@]
}

/// Whether the offered question type at `position` is the one a question
/// has; a regular question may be named `simple` too.
pub open spec fn spec_type_selected(kind_name: Seq<char>, position: int) -> bool {
    kind_name == question_type_names()[position] || (position == 0 && kind_name == "simple"@)
}

/// The label of the offered question type at a position.
pub fn question_type_option_label(position: usize) -> (r: &'static str)
    requires
        position < 3,
    ensures
        r@ == question_type_option_labels()[position as int],
{
    if position == 0 {
        "Обычный вопрос"
    } else if position == 1 {
        "Кот в мешке"
    } else {
        "Аукцион"
    }
}

/// Whether the offered question type at a position is the question's.
pub fn question_type_selected(question: &Questionv4, position: usize) -> (r: bool)
    requires
        position < 3,
    ensures
        r == spec_type_selected(question.question_type.name@, position as int),
{
    proof {
        reveal_strlit("");
        reveal_strlit("cat");
        reveal_strlit("auction");
        reveal_strlit("simple");
    }
    let name = question.question_type.name.as_str();
    if position == 0 {
        str_eq(name, "") || str_eq(name, "simple")
    } else if position == 1 {
        str_eq(name, "cat")
    } else {
        str_eq(name, "auction")
    }
}

/// Gives a question the offered type at a position, keeping its
/// parameters.
pub fn set_question_type(question: &mut Questionv4, position: usize)
    requires
        position < 3,
    ensures
        final(question).question_type.name@ == question_type_names()[position as int],
        final(question).question_type.params == old(question).question_type.params,
        *final(question) == (Questionv4 { question_type: final(question).question_type, ..*old(question) }),
{
    proof {
        reveal_strlit("");
        reveal_strlit("cat");
        reveal_strlit("auction");
    }
    let name = if position == 0 {
        ""
    } else if position == 1 {
        "cat"
    } else {
        "auction"
    };
    question.question_type.name = name.to_string();
}

/// The text of a new answer: "Правильный ответ #n" or
/// "Неправильный ответ #n".
pub open spec fn new_answer_text(wrong: bool, n: nat) -> Seq<char> {
    (if wrong {
        "Неправильный ответ #"@
    } else {
        "Правильный ответ #"@
    }) + decimal(n)
}

/// The answers of a question: the wrong ones or the right ones.
pub open spec fn answers_of(q: Questionv4, wrong: bool) -> Seq<String> {
    if wrong {
        q.wrong@
    } else {
        q.right@
    }
}

/// Appends a new answer, numbered after the answers already there, to the
/// right or the wrong answers of a question.
pub fn add_answer(question: &mut Questionv4, wrong: bool)
    requires
        answers_of(*old(question), wrong).len() < usize::MAX,
    ensures
        answers_of(*final(question), wrong).len() == answers_of(*old(question), wrong).len() + 1,
        answers_of(*final(question), wrong).drop_last() == answers_of(*old(question), wrong),
        answers_of(*final(question), wrong).last()@ == new_answer_text(
            wrong,
            answers_of(*old(question), wrong).len() + 1,
        ),
        answers_of(*final(question), !wrong) == answers_of(*old(question), !wrong),
        final(question).price == old(question).price,
        final(question).scenario == old(question).scenario,
        final(question).question_type == old(question).question_type,
        final(question).info == old(question).info,
{
    let mut text = String::new();
    if wrong {
        push_str(&mut text, "Неправильный ответ #");
        push_decimal(&mut text, question.wrong.len() + 1);
        question.wrong.push(text);
        assert(question.wrong@.drop_last() =~= old(question).wrong@);
    } else {
        push_str(&mut text, "Правильный ответ #");
        push_decimal(&mut text, question.right.len() + 1);
        question.right.push(text);
        assert(question.right@.drop_last() =~= old(question).right@);
    }
}

/// Removes answer `index` from the right or the wrong answers of a
/// question; nothing happens when there is no such answer.
pub fn remove_answer(question: &mut Questionv4, wrong: bool, index: usize)
    ensures
        answers_of(*final(question), wrong) == if index < answers_of(*old(question), wrong).len() {
            answers_of(*old(question), wrong).remove(index as int)
        } else {
            answers_of(*old(question), wrong)
        },
        answers_of(*final(question), !wrong) == answers_of(*old(question), !wrong),
        final(question).price == old(question).price,
        final(question).scenario == old(question).scenario,
        final(question).question_type == old(question).question_type,
        final(question).info == old(question).info,
{
    if wrong {
        if index < question.wrong.len() {
            question.wrong.remove(index);
        }
    } else {
        if index < question.right.len() {
            question.right.remove(index);
        }
    }
}

/// The number of questions in the rounds of a package.
pub open spec fn package_question_count(rounds: Seq<Roundv4>) -> nat
    decreases rounds.len(),
{
    if rounds.len() == 0 {
        0
    } else {
        package_question_count(rounds.drop_last()) + question_count(rounds.last().themes@)
    }
}

proof fn lemma_package_count_prefix(rounds: Seq<Roundv4>, i: int)
    requires
        0 <= i <= rounds.len(),
    ensures
        package_question_count(rounds.take(i)) <= package_question_count(rounds),
    decreases rounds.len() - i,
{
    if i < rounds.len() {
        lemma_package_count_prefix(rounds, i + 1);
        assert(rounds.take(i + 1).drop_last() =~= rounds.take(i));
    } else {
        assert(rounds.take(i) =~= rounds);
    }
}

/// The number of questions in the themes of a round.
pub fn round_question_count(round: &Roundv4) -> (r: usize)
    requires
        question_count(round.themes@) <= usize::MAX,
    ensures
        r == question_count(round.themes@),
{
    let themes = &round.themes;
    let mut total: usize = 0;
    let mut i: usize = 0;
    while i < themes.len()
        invariant
            themes@ == round.themes@,
            i <= themes@.len(),
            question_count(themes@) <= usize::MAX,
            total == question_count(themes@.take(i as int)),
        decreases themes@.len() - i,
    {
        proof {
            assert(themes@.take(i + 1).drop_last() =~= themes@.take(i as int));
            lemma_question_count_prefix(themes@, i + 1);
        }
        total = total + themes[i].questions.len();
        i = i + 1;
    }
    assert(themes@.take(i as int) =~= themes@);
    total
}

/// The number of questions in a package, shown above its tree.
pub fn package_question_total(package: &Packagev4) -> (r: usize)
    requires
        package_question_count(package.rounds@) <= usize::MAX,
    ensures
        r == package_question_count(package.rounds@),
{
    let rounds = &package.rounds;
    let mut total: usize = 0;
    let mut i: usize = 0;
    while i < rounds.len()
        invariant
            rounds@ == package.rounds@,
            i <= rounds@.len(),
            package_question_count(rounds@) <= usize::MAX,
            total == package_question_count(rounds@.take(i as int)),
        decreases rounds@.len() - i,
    {
        proof {
            assert(rounds@.take(i + 1).drop_last() =~= rounds@.take(i as int));
            lemma_package_count_prefix(rounds@, i + 1);
        }
        total = total + round_question_count(&rounds[i]);
        i = i + 1;
    }
    assert(rounds@.take(i as int) =~= rounds@);
    total
}

/// The questions of themes add up: the themes `a` followed by `b` hold as
/// many questions as `a` and `b` together, and a single theme holds its
/// own questions.
pub proof fn law_question_count_adds_up(a: Seq<Themev4>, b: Seq<Themev4>, t: Themev4)
    ensures
        question_count(a + b) == question_count(a) + question_count(b),
        question_count(seq![t]) == t.questions@.len(),
    decreases b.len(),
{
    if b.len() == 0 {
        assert(a + b =~= a);
    } else {
        law_question_count_adds_up(a, b.drop_last(), t);
        assert((a + b).drop_last() =~= a + b.drop_last());
        assert((a + b).last() == b.last());
    }
    assert(seq![t].drop_last() =~= Seq::<Themev4>::empty());
    assert(question_count(Seq::<Themev4>::empty()) == 0);
    assert(seq![t].last() == t);
}

/// The package total adds up over rounds: the rounds `a` followed by `b`
/// hold as many questions as `a` and `b` together, and a single round
/// holds the questions of all its themes, so appending a round adds its
/// questions to the total.
pub proof fn law_package_total_adds_up(a: Seq<Roundv4>, b: Seq<Roundv4>, r: Roundv4)
    ensures
        package_question_count(a + b) == package_question_count(a) + package_question_count(b),
        package_question_count(seq![r]) == question_count(r.themes@),
        package_question_count(a.push(r)) == package_question_count(a) + question_count(r.themes@),
    decreases b.len(),
{
    if b.len() == 0 {
        assert(a + b =~= a);
    } else {
        law_package_total_adds_up(a, b.drop_last(), r);
        assert((a + b).drop_last() =~= a + b.drop_last());
        assert((a + b).last() == b.last());
    }
    assert(seq![r].drop_last() =~= Seq::<Roundv4>::empty());
    assert(package_question_count(Seq::<Roundv4>::empty()) == 0);
    assert(seq![r].last() == r);
    assert(a.push(r).drop_last() =~= a);
}

/// What a row of the package tree shows for a node: its label (a name, or
/// a question's price), the count after it (questions of a round or
/// theme), its depth, whether it starts expanded, whether it has children,
/// and whether the node has content (for questions).
pub struct TreeRow {
    pub label: String,
    pub count: Option<usize>,
    pub depth: usize,
    pub open_by_default: bool,
    pub expandable: bool,
    pub filled: bool,
}

/// The row of the package tree for a node; none for a missing node.
pub fn tree_row(node: PackageNode, package: &Packagev4) -> (r: Option<TreeRow>)
    requires
        node matches PackageNode::Round(idx) ==> (idx.index < package.rounds@.len()
            ==> question_count(package.rounds@[idx.index as int].themes@) <= usize::MAX),
    ensures
        r is Some <==> match node {
            PackageNode::Round(idx) => idx.index < package.spec_rounds().len(),
            PackageNode::Theme(idx) => elem_at(package.spec_themes(round_of(idx)), idx.index) is Some,
            PackageNode::Question(idx) => elem_at(
                package.spec_questions(theme_of(idx)),
                idx.index,
            ) is Some,
        },
        r matches Some(row) ==> match node {
            PackageNode::Round(idx) => {
                let round = package.spec_rounds()[idx.index as int];
                &&& row.label@ == round.name@
                &&& row.count == Some(question_count(round.themes@) as usize)
                &&& row.depth == 0 && row.open_by_default && row.expandable && row.filled
            },
            PackageNode::Theme(idx) => {
                let theme = elem_at(package.spec_themes(round_of(idx)), idx.index)->0;
                &&& row.label@ == theme.name@
                &&& row.count == Some(theme.questions@.len() as usize)
                &&& row.depth == 1 && !row.open_by_default && row.expandable && row.filled
            },
            PackageNode::Question(idx) => {
                let question = elem_at(package.spec_questions(theme_of(idx)), idx.index)->0;
                &&& row.label@ == decimal(question.price as nat)
                &&& row.count is None
                &&& row.depth == 2 && !row.open_by_default && !row.expandable
                &&& row.filled == (question.right@.len() > 0 || question.scenario@.len() > 0)
            },
        },
{
    match node {
        PackageNode::Round(idx) => match package.get_round(idx) {
            Some(round) => Some(
                TreeRow {
                    label: round.name.clone(),
                    count: Some(round_question_count(round)),
                    depth: 0,
                    open_by_default: true,
                    expandable: true,
                    filled: true,
                },
            ),
            None => None,
        },
        PackageNode::Theme(idx) => match package.get_theme(idx) {
            Some(theme) => Some(
                TreeRow {
                    label: theme.name.clone(),
                    count: Some(theme.questions.len()),
                    depth: 1,
                    open_by_default: false,
                    expandable: true,
                    filled: true,
                },
            ),
            None => None,
        },
        PackageNode::Question(idx) => match package.get_question(idx) {
            Some(question) => Some(
                TreeRow {
                    label: usize_to_decimal(question.price),
                    count: None,
                    depth: 2,
                    open_by_default: false,
                    expandable: false,
                    filled: question_is_filled(question),
                },
            ),
            None => None,
        },
    }
}

/// Whether a question has right answers or scenario atoms.
pub open spec fn is_filled(q: Questionv4) -> bool {
    q.right@.len() > 0 || q.scenario@.len() > 0
}

/// The number of questions with content.
pub open spec fn filled_count(questions: Seq<Questionv4>) -> nat
    decreases questions.len(),
{
    if questions.len() == 0 {
        0
    } else {
        filled_count(questions.drop_last()) + if is_filled(questions.last()) {
            1nat
        } else {
            0nat
        }
    }
}

proof fn lemma_filled_count_bound(questions: Seq<Questionv4>)
    ensures
        filled_count(questions) <= questions.len(),
    decreases questions.len(),
{
    if questions.len() > 0 {
        lemma_filled_count_bound(questions.drop_last());
    }
}

/// How many of a theme's questions have content, out of how many:
/// `filled / total`.
pub fn filled_summary(theme: &Themev4) -> (r: String)
    ensures
        r@ == decimal(filled_count(theme.questions@)) + seq![' ', '/', ' '] + decimal(
            theme.questions@.len(),
        ),
{
    let questions = &theme.questions;
    let mut filled: usize = 0;
    let mut i: usize = 0;
    while i < questions.len()
        invariant
            questions@ == theme.questions@,
            i <= questions@.len(),
            filled == filled_count(questions@.take(i as int)),
        decreases questions@.len() - i,
    {
        proof {
            assert(questions@.take(i + 1).drop_last() =~= questions@.take(i as int));
            lemma_filled_count_bound(questions@.take(i + 1));
        }
        if question_is_filled(&questions[i]) {
            filled = filled + 1;
        }
        i = i + 1;
    }
    assert(questions@.take(i as int) =~= questions@);
    let mut s = String::new();
    push_decimal(&mut s, filled);
    push_char(&mut s, ' ');
    push_char(&mut s, '/');
    push_char(&mut s, ' ');
    push_decimal(&mut s, questions.len());
    s
}

/// The count shown above a question's scenario, e.g. `3 фрагмента`.
pub fn scenario_summary(question: &Questionv4) -> (r: String)
    ensures
        r@ == counted(question.scenario@.len(), "фрагмент"@, "фрагмента"@, "фрагментов"@),
{
    let mut s = String::new();
    push_counted(&mut s, question.scenario.len(), "фрагмент", "фрагмента", "фрагментов");
    s
}

/// The counts shown above a question's answers:
/// `r верных · w неверных`.
pub fn answers_summary(question: &Questionv4) -> (r: String)
    ensures
        r@ == decimal(question.right@.len()) + " верных · "@ + decimal(question.wrong@.len())
            + " неверных"@,
{
    let mut s = String::new();
    push_decimal(&mut s, question.right.len());
    push_str(&mut s, " верных · ");
    push_decimal(&mut s, question.wrong.len());
    push_str(&mut s, " неверных");
    s
}

/// The names of themes joined by `, `.
pub open spec fn joined_names(themes: Seq<Themev4>) -> Seq<char>
    decreases themes.len(),
{
    if themes.len() == 0 {
        Seq::empty()
    } else if themes.len() == 1 {
        themes[0].name@
    } else {
        joined_names(themes.drop_last()) + seq![',', ' '] + themes.last().name@
    }
}

/// The line under a round in the package's list of rounds: its theme names
/// joined by `, `, or "Пусто" for a round without themes.
pub fn round_summary(round: &Roundv4) -> (r: String)
    ensures
        round.themes@.len() == 0 ==> r@ == "Пусто"@,
        round.themes@.len() > 0 ==> r@ == joined_names(round.themes@),
{
    let themes = &round.themes;
    if themes.len() == 0 {
        return "Пусто".to_string();
    }
    let mut s = String::new();
    push_str(&mut s, themes[0].name.as_str());
    let mut i: usize = 1;
    proof {
        assert(themes@.take(1).len() == 1);
        assert(themes@.take(1)[0] == themes@[0]);
    }
    while i < themes.len()
        invariant
            themes@ == round.themes@,
            1 <= i <= themes@.len(),
            s@ == joined_names(themes@.take(i as int)),
        decreases themes@.len() - i,
    {
        assert(themes@.take(i + 1).drop_last() =~= themes@.take(i as int));
        assert(themes@.take(i + 1).last() == themes@[i as int]);
        push_char(&mut s, ',');
        push_char(&mut s, ' ');
        push_str(&mut s, themes[i].name.as_str());
        assert(s@ =~= joined_names(themes@.take(i as int)) + seq![',', ' '] + themes@[i as int].name@);
        i = i + 1;
    }
    assert(themes@.take(i as int) =~= themes@);
    s
}

/// The file line of a scenario atom that is not shown as an image: the
/// path of the resource it links to, or "нет файла" when it links to none.
pub fn atom_file_label(atom: &Atomv4) -> (r: String)
    ensures
        spec_atom_resource(atom@) is Some && spec_atom_resource(atom@)->0.path.len() > 0 ==> r@
            == spec_atom_resource(atom@)->0.path,
        !(spec_atom_resource(atom@) is Some && spec_atom_resource(atom@)->0.path.len() > 0) ==> r@
            == "нет файла"@,
{
    match atom.resource() {
        Some(id) => {
            let path = id.path();
            if path.unicode_len() > 0 {
                path.to_string()
            } else {
                "нет файла".to_string()
            }
        },
        None => "нет файла".to_string(),
    }
}

} // verus!

//! Editor-side logic on packages: labels, plural forms, price ranges, node
//! names, color modes and the built-in themes.
use vstd::prelude::*;
use crate::node::{PackageNode, QuestionIdx, RoundIdx, ThemeIdx};
use crate::package_trait::{
    QuestionsContainer, RoundContainer, ThemesContainer, elem_at, opt_len, round_of, theme_of,
};
use crate::text::{
    decimal, digits_of, digits_only, law_parse_decimal, parse_usize, push_char, push_decimal,
    push_str, spec_parse_usize, starts_with_str, str_eq, usize_to_decimal,
};
use crate::v4::atom::{AtomKindv4, ResourceCategory, ResourceIdModel, ResourceIdv4};
use crate::v4::components::{Questionv4, Roundv4, Themev4};
use crate::v4::package::Packagev4;

verus! {

/// The Russian plural form for `n`: 0 for "one" (1, 21, 31, ...), 1 for
/// "few" (2-4, 22-24, ...), 2 for "many" (everything else, 11-14 included).
pub open spec fn plural_form(n: nat) -> nat {
    let (m10, m100) = (n % 10, n % 100);
    if m10 == 1 && m100 != 11 {
        0
    } else if 2 <= m10 <= 4 && !(12 <= m100 <= 14) {
        1
    } else {
        2
    }
}

/// Russian plural selector: `one` for 1, 21, ..., `few` for 2-4, 22-24, ...,
/// `many` otherwise.
pub fn plural(n: usize, one: &'static str, few: &'static str, many: &'static str) -> (r: &'static str)
    ensures
        plural_form(n as nat) == 0 ==> r == one,
        plural_form(n as nat) == 1 ==> r == few,
        plural_form(n as nat) == 2 ==> r == many,
{
    let m10 = n % 10;
    let m100 = n % 100;
    if m10 == 1 && m100 != 11 {
        one
    } else if 2 <= m10 && m10 <= 4 && !(12 <= m100 && m100 <= 14) {
        few
    } else {
        many
    }
}

/// The smallest of a non-empty sequence of prices.
pub open spec fn min_price(prices: Seq<usize>) -> usize
    decreases prices.len(),
{
    if prices.len() <= 1 {
        prices[0]
    } else {
        let m = min_price(prices.drop_last());
        if prices.last() < m {
            prices.last()
        } else {
            m
        }
    }
}

/// The largest of a non-empty sequence of prices.
pub open spec fn max_price(prices: Seq<usize>) -> usize
    decreases prices.len(),
{
    if prices.len() <= 1 {
        prices[0]
    } else {
        let m = max_price(prices.drop_last());
        if prices.last() > m {
            prices.last()
        } else {
            m
        }
    }
}

/// The smallest and largest price, none for no prices.
pub open spec fn spec_price_range(prices: Seq<usize>) -> Option<(usize, usize)> {
    if prices.len() == 0 {
        None
    } else {
        Some((min_price(prices), max_price(prices)))
    }
}

/// The smallest and largest price are prices, and every price lies
/// between them.
proof fn lemma_price_bounds(prices: Seq<usize>)
    requires
        prices.len() > 0,
    ensures
        prices.contains(min_price(prices)),
        prices.contains(max_price(prices)),
        forall|i: int|
            0 <= i < prices.len() ==> min_price(prices) <= #[trigger] prices[i] <= max_price(prices),
    decreases prices.len(),
{
    if prices.len() == 1 {
        assert(prices[0] == prices[0]);
    } else {
        let d = prices.drop_last();
        lemma_price_bounds(d);
        assert forall|i: int| 0 <= i < prices.len() implies min_price(prices) <= #[trigger] prices[i]
            <= max_price(prices) by {
            if i < d.len() {
                assert(prices[i] == d[i]);
            }
        }
        let lo = min_price(d);
        let hi = max_price(d);
        let jl = choose|j: int| 0 <= j < d.len() && d[j] == lo;
        let jh = choose|j: int| 0 <= j < d.len() && d[j] == hi;
        assert(prices[jl] == lo);
        assert(prices[jh] == hi);
        assert(prices[prices.len() - 1] == prices.last());
    }
}

/// Min and max over question prices in a single pass (`None` when empty).
/// The range contains every price.
pub fn price_range(prices: &[usize]) -> (r: Option<(usize, usize)>)
    ensures
        r == spec_price_range(prices@),
        r is Some ==> prices@.contains((r->0).0) && prices@.contains((r->0).1),
        r is Some ==> forall|i: int|
            0 <= i < prices@.len() ==> (r->0).0 <= #[trigger] prices@[i] <= (r->0).1,
{
    if prices.len() == 0 {
        return None;
    }
    let mut lo = prices[0];
    let mut hi = prices[0];
    let mut i: usize = 1;
    while i < prices.len()
        invariant
            1 <= i <= prices@.len(),
            lo == min_price(prices@.take(i as int)),
            hi == max_price(prices@.take(i as int)),
        decreases prices@.len() - i,
    {
        assert(prices@.take(i + 1).drop_last() =~= prices@.take(i as int));
        let p = prices[i];
        if p < lo {
            lo = p;
        }
        if p > hi {
            hi = p;
        }
        i = i + 1;
    }
    assert(prices@.take(prices@.len() as int) =~= prices@);
    proof {
        lemma_price_bounds(prices@);
    }
    Some((lo, hi))
}

/// "min–max" across question prices (or "-" when empty).
pub fn price_range_label(prices: &[usize]) -> (r: String)
    ensures
        prices@.len() == 0 ==> r@ == seq!['-'],
        prices@.len() > 0 ==> r@ == decimal(min_price(prices@) as nat) + seq!['–'] + decimal(
            max_price(prices@) as nat,
        ),
{
    match price_range(prices) {
        Some((lo, hi)) => {
            let mut s = String::new();
            push_decimal(&mut s, lo);
            push_char(&mut s, '–');
            push_decimal(&mut s, hi);
            s
        },
        None => {
            let mut s = String::new();
            push_char(&mut s, '-');
            s
        },
    }
}

/// The label of an atom kind.
pub open spec fn spec_kind_label(kind: AtomKindv4) -> Seq<char> {
    match kind {
        AtomKindv4::Text => "текст"@,
        AtomKindv4::Image => "изображение"@,
        AtomKindv4::Voice => "аудио"@,
        AtomKindv4::Video => "видео"@,
    }
}

/// The label shown for an atom kind.
pub fn kind_label(kind: AtomKindv4) -> (r: &'static str)
    ensures
        r@ == spec_kind_label(kind),
{
    match kind {
        AtomKindv4::Text => "текст",
        AtomKindv4::Image => "изображение",
        AtomKindv4::Voice => "аудио",
        AtomKindv4::Video => "видео",
    }
}

/// Whether a question has authored content (right answers or scenario).
pub fn question_is_filled(question: &Questionv4) -> (r: bool)
    ensures
        r == (question.right@.len() > 0 || question.scenario@.len() > 0),
{
    question.right.len() > 0 || question.scenario.len() > 0
}

/// `icon`, a space, then `text`.
pub open spec fn labelled(icon: Seq<char>, text: Seq<char>) -> Seq<char> {
    icon + seq![' '] + text
}

/// The text of a price in brackets: `(price)`.
pub open spec fn price_text(price: usize) -> Seq<char> {
    seq!['('] + decimal(price as nat) + seq![')']
}

/// The name of a round, after its icon.
pub fn round_name(round: &Roundv4, icon: &str) -> (r: String)
    ensures
        r@ == labelled(icon@, round.name@),
{
    let mut s = String::new();
    push_str(&mut s, icon);
    push_char(&mut s, ' ');
    push_str(&mut s, round.name.as_str());
    s
}

/// The name of a theme, after its icon.
pub fn theme_name(theme: &Themev4, icon: &str) -> (r: String)
    ensures
        r@ == labelled(icon@, theme.name@),
{
    let mut s = String::new();
    push_str(&mut s, icon);
    push_char(&mut s, ' ');
    push_str(&mut s, theme.name.as_str());
    s
}

/// The name of a question: its price in brackets, after its icon.
pub fn question_name(question: &Questionv4, icon: &str) -> (r: String)
    ensures
        r@ == labelled(icon@, price_text(question.price)),
{
    let mut s = String::new();
    push_str(&mut s, icon);
    push_char(&mut s, ' ');
    push_char(&mut s, '(');
    push_decimal(&mut s, question.price);
    push_char(&mut s, ')');
    s
}

/// `<Неизвестный раунд>`
pub open spec fn unknown_round() -> Seq<char> {
    "<Неизвестный раунд>"@
}

/// `<Неизвестная тема>`
pub open spec fn unknown_theme() -> Seq<char> {
    "<Неизвестная тема>"@
}

/// `<Неизвестный вопрос>`
pub open spec fn unknown_question() -> Seq<char> {
    "<Неизвестный вопрос>"@
}

/// The icons shown before the names of rounds, themes and questions.
pub struct NodeIcons {
    pub round: &'static str,
    pub theme: &'static str,
    pub question: &'static str,
}

/// The name of the node of `package`: the named round, theme or question,
/// or a placeholder when the node does not exist.
pub open spec fn spec_node_name(node: PackageNode, package: Packagev4, icons: NodeIcons) -> Seq<
    char,
> {
    match node {
        PackageNode::Round(idx) => if idx.index < package.spec_rounds().len() {
            labelled(icons.round@, package.spec_rounds()[idx.index as int].name@)
        } else {
            unknown_round()
        },
        PackageNode::Theme(idx) => match elem_at(package.spec_themes(round_of(idx)), idx.index) {
            Some(theme) => labelled(icons.theme@, theme.name@),
            None => unknown_theme(),
        },
        PackageNode::Question(idx) => match elem_at(
            package.spec_questions(theme_of(idx)),
            idx.index,
        ) {
            Some(question) => labelled(icons.question@, price_text(question.price)),
            None => unknown_question(),
        },
    }
}

/// A pretty name for a node of the package.
pub fn node_name(node: PackageNode, package: &Packagev4, icons: &NodeIcons) -> (r: String)
    ensures
        r@ == spec_node_name(node, *package, *icons),
{
    match node {
        PackageNode::Round(idx) => match package.get_round(idx) {
            Some(round) => round_name(round, icons.round),
            None => "<Неизвестный раунд>".to_string(),
        },
        PackageNode::Theme(idx) => match package.get_theme(idx) {
            Some(theme) => theme_name(theme, icons.theme),
            None => "<Неизвестная тема>".to_string(),
        },
        PackageNode::Question(idx) => match package.get_question(idx) {
            Some(question) => question_name(question, icons.question),
            None => "<Неизвестный вопрос>".to_string(),
        },
    }
}

/// Which of a theme's two color-scheme variants is active.
#[derive(Debug, Clone, Copy, PartialEq, Eq, Structural)]
pub enum ColorMode {
    Day,
    Night,
}

impl Default for ColorMode {
    /// Night is the default mode.
    fn default() -> (r: Self)
        ensures
            r == ColorMode::Night,
    {
        ColorMode::Night
    }
}

impl ColorMode {
    /// The label shown for the mode.
    pub fn label(&self) -> (r: &'static str)
        ensures
            *self == ColorMode::Day ==> r@ == "День"@,
            *self == ColorMode::Night ==> r@ == "Ночь"@,
    {
        match self {
            ColorMode::Day => "День",
            ColorMode::Night => "Ночь",
        }
    }

    /// The label of the mode as an owned string.
    pub fn to_string(&self) -> (r: String)
        ensures
            *self == ColorMode::Day ==> r@ == "День"@,
            *self == ColorMode::Night ==> r@ == "Ночь"@,
    {
        self.label().to_string()
    }
}

/// Visual style of a card.
#[derive(Debug, Clone, Copy, PartialEq, Eq, Structural)]
pub enum CardStyle {
    Normal,
    Important,
    Weak,
}

impl Default for CardStyle {
    /// Cards are normal unless told otherwise.
    fn default() -> (r: Self)
        ensures
            r == CardStyle::Normal,
    {
        CardStyle::Normal
    }
}

/// The name of the blue theme.
pub open spec fn blue_name() -> Seq<char> {
    "Big Brain Blue"@
}

/// The name of the green theme.
pub open spec fn green_name() -> Seq<char> {
    "Grand Genius Green"@
}

/// The name of the orange theme.
pub open spec fn orange_name() -> Seq<char> {
    "Outsmarted & Outplayed Orange"@
}

/// The name of the peach theme.
pub open spec fn peach_name() -> Seq<char> {
    "Puzzle Piece Peach"@
}

/// The built-in themes offered to choose from, in order.
pub open spec fn theme_names() -> Seq<Seq<char>> {
    seq![blue_name(), green_name(), orange_name(), peach_name()]
}

/// The blue theme of the editor.
pub struct OpenSIBlue;

/// The green theme of the editor.
pub struct OpenSIGreen;

/// The orange theme of the editor.
pub struct OpenSIOrange;

/// The peach theme of the editor.
pub struct OpenSIPeach;

/// The light Catppuccin theme.
pub struct Latte;

/// The dark Catppuccin theme.
pub struct Mocha;

impl OpenSIBlue {
    pub fn name(&self) -> (r: &'static str)
        ensures
            r@ == blue_name(),
    {
        "Big Brain Blue"
    }
}

impl OpenSIGreen {
    pub fn name(&self) -> (r: &'static str)
        ensures
            r@ == green_name(),
    {
        "Grand Genius Green"
    }
}

impl OpenSIOrange {
    pub fn name(&self) -> (r: &'static str)
        ensures
            r@ == orange_name(),
    {
        "Outsmarted & Outplayed Orange"
    }
}

impl OpenSIPeach {
    pub fn name(&self) -> (r: &'static str)
        ensures
            r@ == peach_name(),
    {
        "Puzzle Piece Peach"
    }
}

impl Latte {
    pub fn name(&self) -> (r: &'static str)
        ensures
            r@ == "[Catppuccin] Latte"@,
    {
        "[Catppuccin] Latte"
    }
}

impl Mocha {
    pub fn name(&self) -> (r: &'static str)
        ensures
            r@ == "[Catppuccin] Mocha"@,
    {
        "[Catppuccin] Mocha"
    }
}

/// The names of the built-in themes, in the order they are offered.
pub fn all_themes() -> (r: Vec<&'static str>)
    ensures
        r@.len() == theme_names().len(),
        forall|i: int| 0 <= i < r@.len() ==> (#[trigger] r@[i])@ == theme_names()[i],
{
    let mut v: Vec<&'static str> = Vec::new();
    v.push(OpenSIBlue.name());
    v.push(OpenSIGreen.name());
    v.push(OpenSIOrange.name());
    v.push(OpenSIPeach.name());
    v
}

/// The built-in theme called `name`, if there is one.
pub fn choose_theme(name: &str) -> (r: Option<&'static str>)
    ensures
        r is Some <==> theme_names().contains(name@),
        r is Some ==> r->0@ == name@,
{
    let themes = all_themes();
    let mut i: usize = 0;
    while i < themes.len()
        invariant
            i <= themes@.len(),
            themes@.len() == theme_names().len(),
            forall|j: int| 0 <= j < themes@.len() ==> (#[trigger] themes@[j])@ == theme_names()[j],
            forall|j: int| 0 <= j < i ==> theme_names()[j] != name@,
        decreases themes@.len() - i,
    {
        if str_eq(themes[i], name) {
            return Some(themes[i]);
        }
        i = i + 1;
    }
    None
}

/// The theme used when none was chosen: the first built-in one.
pub fn default_theme() -> (r: &'static str)
    ensures
        r@ == theme_names()[0],
{
    OpenSIBlue.name()
}

/// The path of breadcrumbs down to `node`: its round, then its theme, then
/// the node itself, as far as the node goes.
pub open spec fn spec_breadcrumbs(node: PackageNode) -> Seq<PackageNode> {
    match node {
        PackageNode::Round(_) => seq![node],
        PackageNode::Theme(t) => seq![PackageNode::Round(round_of(t)), node],
        PackageNode::Question(q) => seq![
            PackageNode::Round(RoundIdx { index: q.round_index }),
            PackageNode::Theme(theme_of(q)),
            node,
        ],
    }
}

/// The nodes shown as breadcrumbs for a selected node, from its round down
/// to the node.
pub fn breadcrumbs(node: PackageNode) -> (r: Vec<PackageNode>)
    ensures
        r@ == spec_breadcrumbs(node),
{
    let mut path: Vec<PackageNode> = Vec::new();
    match node {
        PackageNode::Round(_) => {},
        PackageNode::Theme(t) => {
            path.push(PackageNode::Round(t.parent()));
        },
        PackageNode::Question(q) => {
            let t = q.parent();
            path.push(PackageNode::Round(t.parent()));
            path.push(PackageNode::Theme(t));
        },
    }
    path.push(node);
    path
}

/// Child `index` of a node: a theme of a round, a question of a theme;
/// none for a question.
pub open spec fn spec_child(node: PackageNode, index: usize) -> Option<PackageNode> {
    match node {
        PackageNode::Round(r) => Some(PackageNode::Theme(ThemeIdx { round_index: r.index, index })),
        PackageNode::Theme(t) => Some(
            PackageNode::Question(
                QuestionIdx { round_index: t.round_index, theme_index: t.index, index },
            ),
        ),
        PackageNode::Question(_) => None,
    }
}

/// Child `index` of a node; the "add" action of a node's context menu
/// allocates next to its child 0.
pub fn node_child(node: PackageNode, index: usize) -> (r: Option<PackageNode>)
    ensures
        r == spec_child(node, index),
{
    match node {
        PackageNode::Round(r) => Some(PackageNode::Theme(r.theme(index))),
        PackageNode::Theme(t) => Some(PackageNode::Question(t.question(index))),
        PackageNode::Question(_) => None,
    }
}

/// The parent of a node's child is the node.
pub proof fn law_child_of_node(node: PackageNode, index: usize)
    ensures
        spec_child(node, index) matches Some(c) ==> crate::node::spec_parent(c) == Some(node)
            && crate::node::spec_index(c) == index,
{
}

/// The label of the "add" action of a node's context menu: a theme for a
/// round, a question for a theme, none for a question.
pub fn add_label(node: PackageNode) -> (r: Option<&'static str>)
    ensures
        node is Round ==> r is Some && r->0@ == "Добавить тему"@,
        node is Theme ==> r is Some && r->0@ == "Добавить вопрос"@,
        node is Question ==> r is None,
{
    match node {
        PackageNode::Round(_) => Some("Добавить тему"),
        PackageNode::Theme(_) => Some("Добавить вопрос"),
        PackageNode::Question(_) => None,
    }
}

/// The label of the edit action: questions change their price, rounds and
/// themes are renamed.
pub fn change_label(node: PackageNode) -> (r: &'static str)
    ensures
        node is Question ==> r@ == "Изменить цену"@,
        !(node is Question) ==> r@ == "Переименовать"@,
{
    match node {
        PackageNode::Question(_) => "Изменить цену",
        _ => "Переименовать",
    }
}

/// The label of the duplicate action.
pub fn duplicate_label(node: PackageNode) -> (r: &'static str)
    ensures
        node is Round ==> r@ == "Дублировать раунд"@,
        node is Theme ==> r@ == "Дублировать тему"@,
        node is Question ==> r@ == "Дублировать вопрос"@,
{
    match node {
        PackageNode::Round(_) => "Дублировать раунд",
        PackageNode::Theme(_) => "Дублировать тему",
        PackageNode::Question(_) => "Дублировать вопрос",
    }
}

/// The label of the delete action.
pub fn delete_label(node: PackageNode) -> (r: &'static str)
    ensures
        node is Round ==> r@ == "Удалить раунд"@,
        node is Theme ==> r@ == "Удалить тему"@,
        node is Question ==> r@ == "Удалить вопрос"@,
{
    match node {
        PackageNode::Round(_) => "Удалить раунд",
        PackageNode::Theme(_) => "Удалить тему",
        PackageNode::Question(_) => "Удалить вопрос",
    }
}

/// The prompt of the edit dialog.
pub fn edit_prompt(node: PackageNode) -> (r: &'static str)
    ensures
        node is Round ==> r@ == "Введите новое название для раунда:"@,
        node is Theme ==> r@ == "Введите новое название для темы:"@,
        node is Question ==> r@ == "Введите новую цену для вопроса:"@,
{
    match node {
        PackageNode::Round(_) => "Введите новое название для раунда:",
        PackageNode::Theme(_) => "Введите новое название для темы:",
        PackageNode::Question(_) => "Введите новую цену для вопроса:",
    }
}

/// The text that the edit dialog of a node starts from: the name of a
/// round or theme, the price of a question; empty for a missing node.
pub open spec fn spec_node_value(node: PackageNode, package: Packagev4) -> Seq<char> {
    match node {
        PackageNode::Round(idx) => if idx.index < package.spec_rounds().len() {
            package.spec_rounds()[idx.index as int].name@
        } else {
            Seq::empty()
        },
        PackageNode::Theme(idx) => match elem_at(package.spec_themes(round_of(idx)), idx.index) {
            Some(theme) => theme.name@,
            None => Seq::empty(),
        },
        PackageNode::Question(idx) => match elem_at(
            package.spec_questions(theme_of(idx)),
            idx.index,
        ) {
            Some(question) => decimal(question.price as nat),
            None => Seq::empty(),
        },
    }
}

/// The text that the edit dialog of a node starts from.
pub fn node_value(node: PackageNode, package: &Packagev4) -> (r: String)
    ensures
        r@ == spec_node_value(node, *package),
{
    match node {
        PackageNode::Round(idx) => match package.get_round(idx) {
            Some(round) => round.name.clone(),
            None => String::new(),
        },
        PackageNode::Theme(idx) => match package.get_theme(idx) {
            Some(theme) => theme.name.clone(),
            None => String::new(),
        },
        PackageNode::Question(idx) => match package.get_question(idx) {
            Some(question) => usize_to_decimal(question.price),
            None => String::new(),
        },
    }
}

/// What the edit dialog keeps of typed text: only the digits for a
/// question's price, everything for a name.
pub fn edit_input(node: PackageNode, input: &str) -> (r: String)
    ensures
        node is Question ==> r@ == digits_of(input@),
        !(node is Question) ==> r@ == input@,
{
    match node {
        PackageNode::Question(_) => digits_only(input),
        _ => input.to_string(),
    }
}

/// `after` is `before` with the edit dialog's `value` applied to `node`:
/// the round or theme renamed, the question repriced when `value` parses
/// as a price; unchanged for a missing node or an unparsable price.
pub open spec fn node_value_applied(
    before: Packagev4,
    after: Packagev4,
    node: PackageNode,
    value: String,
) -> bool {
    match node {
        PackageNode::Round(idx) => {
            &&& after.rounds_frame() == before.rounds_frame()
            &&& after.spec_rounds() == if idx.index < before.spec_rounds().len() {
                before.spec_rounds().update(
                    idx.index as int,
                    Roundv4 { name: value, ..before.spec_rounds()[idx.index as int] },
                )
            } else {
                before.spec_rounds()
            }
        },
        PackageNode::Theme(idx) => {
            &&& after.themes_frame(round_of(idx)) == before.themes_frame(round_of(idx))
            &&& after.spec_themes(round_of(idx)) == match elem_at(
                before.spec_themes(round_of(idx)),
                idx.index,
            ) {
                Some(theme) => Some(
                    before.spec_themes(round_of(idx))->0.update(
                        idx.index as int,
                        Themev4 { name: value, ..theme },
                    ),
                ),
                None => before.spec_themes(round_of(idx)),
            }
        },
        PackageNode::Question(idx) => {
            &&& after.questions_frame(theme_of(idx)) == before.questions_frame(theme_of(idx))
            &&& after.spec_questions(theme_of(idx)) == match (
                elem_at(before.spec_questions(theme_of(idx)), idx.index),
                spec_parse_usize(value@),
            ) {
                (Some(question), Some(price)) => Some(
                    before.spec_questions(theme_of(idx))->0.update(
                        idx.index as int,
                        Questionv4 { price, ..question },
                    ),
                ),
                _ => before.spec_questions(theme_of(idx)),
            }
        },
    }
}

/// Applies the edit dialog's value to a node: renames a round or theme, or
/// sets a question's price when the value parses as one.
pub fn apply_node_value(package: &mut Packagev4, node: PackageNode, value: String)
    ensures
        node_value_applied(*old(package), *final(package), node, value),
{
    match node {
        PackageNode::Round(idx) => {
            if let Some(round) = package.get_round_mut(idx) {
                round.name = value;
            }
        },
        PackageNode::Theme(idx) => {
            if let Some(theme) = package.get_theme_mut(idx) {
                theme.name = value;
            }
        },
        PackageNode::Question(idx) => {
            if let Some(price) = parse_usize(value.as_str()) {
                if let Some(question) = package.get_question_mut(idx) {
                    question.price = price;
                }
            }
        },
    }
}

/// Confirming the edit dialog without changing its text changes nothing:
/// a round or theme keeps its name (by value), a question its price.
pub proof fn law_apply_own_value(before: Packagev4, after: Packagev4, node: PackageNode, value: String)
    requires
        value@ == spec_node_value(node, before),
        node_value_applied(before, after, node, value),
    ensures
        match node {
            PackageNode::Round(_) => after.rounds_frame() == before.rounds_frame()
                && after.spec_rounds().len() == before.spec_rounds().len() && forall|i: int|
                0 <= i < before.spec_rounds().len() ==> (#[trigger] after.spec_rounds()[i])@
                    == before.spec_rounds()[i]@,
            PackageNode::Theme(idx) => after.themes_frame(round_of(idx)) == before.themes_frame(
                round_of(idx),
            ) && opt_len(after.spec_themes(round_of(idx))) == opt_len(
                before.spec_themes(round_of(idx)),
            ) && forall|i: usize|
                i < opt_len(before.spec_themes(round_of(idx))) ==> (#[trigger] elem_at(
                    after.spec_themes(round_of(idx)),
                    i,
                ))->0@ == elem_at(before.spec_themes(round_of(idx)), i)->0@,
            PackageNode::Question(idx) => after.questions_frame(theme_of(idx))
                == before.questions_frame(theme_of(idx)) && after.spec_questions(theme_of(idx))
                == before.spec_questions(theme_of(idx)),
        },
{
    match node {
        PackageNode::Round(_) => {},
        PackageNode::Theme(_) => {},
        PackageNode::Question(idx) => {
            match elem_at(before.spec_questions(theme_of(idx)), idx.index) {
                Some(question) => {
                    law_parse_decimal(question.price);
                    let qs = before.spec_questions(theme_of(idx))->0;
                    assert(qs.update(idx.index as int, Questionv4 { price: question.price, ..question }) =~= qs);
                },
                None => {},
            }
        },
    }
}

/// `package://`, the scheme of links to resources of the open package.
pub open spec fn package_scheme() -> Seq<char> {
    "package://"@
}

/// Where the editor keeps a resource of a package for display: images
/// only, under the package's identifier followed by the resource's path.
pub open spec fn spec_storage_path(package_id: Seq<char>, id: ResourceIdModel) -> Option<Seq<char>> {
    match id.category {
        ResourceCategory::Image => Some(package_id + seq!['/'] + id.path),
        _ => None,
    }
}

/// The key under which the editor keeps a resource for display; none for
/// resources other than images.
pub fn storage_path(package_id: &str, id: &ResourceIdv4) -> (r: Option<String>)
    ensures
        r is Some <==> spec_storage_path(package_id@, id@) is Some,
        r is Some ==> r->0@ == spec_storage_path(package_id@, id@)->0,
{
    match id {
        ResourceIdv4::Image(_) => {
            let mut s = String::new();
            push_str(&mut s, package_id);
            push_char(&mut s, '/');
            push_str(&mut s, id.path());
            Some(s)
        },
        _ => None,
    }
}

/// The link to a stored resource: `package://` followed by its key.
pub fn package_uri(path: &str) -> (r: String)
    ensures
        r@ == package_scheme() + path@,
{
    let mut s = String::new();
    push_str(&mut s, "package://");
    push_str(&mut s, path);
    s
}

/// The key of the stored resource that a link points to; none for a link
/// of another scheme.
pub fn uri_storage_path(uri: &str) -> (r: Option<String>)
    ensures
        r is Some <==> uri@.len() >= package_scheme().len() && uri@.take(
            package_scheme().len() as int,
        ) == package_scheme(),
        r is Some ==> r->0@ == uri@.skip(package_scheme().len() as int),
{
    proof {
        reveal_strlit("package://");
    }
    if starts_with_str(uri, "package://") {
        let n = "package://".unicode_len();
        let len = uri.unicode_len();
        Some(uri.substring_char(n, len).to_string())
    } else {
        None
    }
}

/// Following the link to a stored resource gives its key back.
pub proof fn law_uri_round_trip(path: Seq<char>)
    ensures
        (package_scheme() + path).take(package_scheme().len() as int) == package_scheme(),
        (package_scheme() + path).skip(package_scheme().len() as int) == path,
{
    assert((package_scheme() + path).take(package_scheme().len() as int) =~= package_scheme());
    assert((package_scheme() + path).skip(package_scheme().len() as int) =~= path);
}

/// The theme to apply for a stored theme name: the built-in theme of that
/// name, or the default theme when there is none.
pub fn theme_or_default(name: &str) -> (r: &'static str)
    ensures
        theme_names().contains(name@) ==> r@ == name@,
        !theme_names().contains(name@) ==> r@ == theme_names()[0],
{
    match choose_theme(name) {
        Some(theme) => theme,
        None => default_theme(),
    }
}

/// The editor's package state: no package, or an open package with the
/// node selected in it, if any.
pub enum PackageState {
    Empty,
    Active { package: Packagev4, selected: Option<PackageNode> },
}

impl Default for PackageState {
    /// The editor starts without a package.
    fn default() -> (r: Self)
        ensures
            r is Empty,
    {
        PackageState::Empty
    }
}

impl PackageState {
    /// The state right after a package is opened: nothing selected.
    pub fn open(package: Packagev4) -> (r: Self)
        ensures
            r == (PackageState::Active { package, selected: None }),
    {
        PackageState::Active { package, selected: None }
    }

    /// Whether a package is open.
    pub fn has_active_package(&self) -> (r: bool)
        ensures
            r == (self is Active),
    {
        match self {
            PackageState::Active { .. } => true,
            PackageState::Empty => false,
        }
    }

    /// The open package.
    pub fn package(&mut self) -> (r: &mut Packagev4)
        requires
            *old(self) is Active,
        ensures
            *r == (*old(self))->package,
            *final(self) == (PackageState::Active {
                package: *final(r),
                selected: (*old(self))->selected,
            }),
    {
        match self {
            PackageState::Active { package, .. } => package,
            PackageState::Empty => vstd::pervasive::unreached(),
        }
    }

    /// The selected node of the open package.
    pub fn selected(&self) -> (r: Option<PackageNode>)
        requires
            self is Active,
        ensures
            r == self->selected,
    {
        match self {
            PackageState::Active { selected, .. } => *selected,
            PackageState::Empty => vstd::pervasive::unreached(),
        }
    }

    /// Selects a node of the open package.
    pub fn select(&mut self, node: PackageNode)
        requires
            *old(self) is Active,
        ensures
            *final(self) == (PackageState::Active {
                package: (*old(self))->package,
                selected: Some(node),
            }),
    {
        match self {
            PackageState::Active { selected, .. } => {
                *selected = Some(node);
            },
            PackageState::Empty => {},
        }
    }

    /// Clears the selection of the open package.
    pub fn deselect(&mut self)
        requires
            *old(self) is Active,
        ensures
            *final(self) == (PackageState::Active { package: (*old(self))->package, selected: None }),
    {
        match self {
            PackageState::Active { selected, .. } => {
                *selected = None;
            },
            PackageState::Empty => {},
        }
    }
}

} // verus!

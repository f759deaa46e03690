//! What the editing operations of the package tree promise together: an
//! edit can be undone, and an edit touches only the siblings it is about.
use vstd::prelude::*;
use crate::node::{PackageNode, QuestionIdx, RoundIdx, ThemeIdx, spec_index};
use crate::package_trait::{
    QuestionBase, RoundContainer, ThemesContainer, QuestionsContainer, elem_at, node_allocated, node_duplicated,
    node_removed, next_sibling, question_removed, round_of, round_removed, sibling_at,
    sibling_count, siblings_unchanged, theme_of, theme_removed,
};

verus! {

/// Inserting at `i` and then removing at `i` gives the sequence back.
proof fn lemma_insert_remove<T>(s: Seq<T>, i: int, x: T)
    requires
        0 <= i <= s.len(),
    ensures
        s.insert(i, x).remove(i) == s,
        s.insert(i, x)[i] == x,
{
    assert(s.insert(i, x).remove(i) =~= s);
}

/// Removing the last element of a push gives the sequence back.
proof fn lemma_push_remove_last<T>(s: Seq<T>, x: T)
    ensures
        s.push(x).remove(s.len() as int) == s,
        s.push(x)[s.len() as int] == x,
{
    assert(s.push(x).remove(s.len() as int) =~= s);
}

/// Removing a round right after inserting one at the same index gives back
/// the inserted round and leaves the container as it was.
pub proof fn law_insert_then_remove_round<C: RoundContainer>(
    before: C,
    mid: C,
    after: C,
    idx: RoundIdx,
    round: C::Round,
)
    requires
        idx.index <= before.spec_rounds().len(),
        mid.spec_rounds() == before.spec_rounds().insert(idx.index as int, round),
        mid.rounds_frame() == before.rounds_frame(),
        round_removed(mid, after, idx),
    ensures
        mid.spec_rounds()[idx.index as int] == round,
        after.spec_rounds() == before.spec_rounds(),
        after.rounds_frame() == before.rounds_frame(),
{
    lemma_insert_remove(before.spec_rounds(), idx.index as int, round);
}

/// Removing a theme right after inserting one at the same index gives back
/// the inserted theme and leaves the container as it was.
pub proof fn law_insert_then_remove_theme<C: ThemesContainer>(
    before: C,
    mid: C,
    after: C,
    idx: ThemeIdx,
    theme: C::Theme,
)
    requires
        before.spec_themes(round_of(idx)) is Some,
        idx.index <= before.spec_themes(round_of(idx))->0.len(),
        mid.spec_themes(round_of(idx)) == Some(
            before.spec_themes(round_of(idx))->0.insert(idx.index as int, theme),
        ),
        mid.themes_frame(round_of(idx)) == before.themes_frame(round_of(idx)),
        theme_removed(mid, after, idx),
    ensures
        elem_at(mid.spec_themes(round_of(idx)), idx.index) == Some(theme),
        after.spec_themes(round_of(idx)) == before.spec_themes(round_of(idx)),
        after.themes_frame(round_of(idx)) == before.themes_frame(round_of(idx)),
{
    lemma_insert_remove(before.spec_themes(round_of(idx))->0, idx.index as int, theme);
}

/// Removing a question right after inserting one at the same index gives
/// back the inserted question and leaves the container as it was.
pub proof fn law_insert_then_remove_question<C: QuestionsContainer>(
    before: C,
    mid: C,
    after: C,
    idx: QuestionIdx,
    question: C::Question,
)
    requires
        before.spec_questions(theme_of(idx)) is Some,
        idx.index <= before.spec_questions(theme_of(idx))->0.len(),
        mid.spec_questions(theme_of(idx)) == Some(
            before.spec_questions(theme_of(idx))->0.insert(idx.index as int, question),
        ),
        mid.questions_frame(theme_of(idx)) == before.questions_frame(theme_of(idx)),
        question_removed(mid, after, idx),
    ensures
        elem_at(mid.spec_questions(theme_of(idx)), idx.index) == Some(question),
        after.spec_questions(theme_of(idx)) == before.spec_questions(theme_of(idx)),
        after.questions_frame(theme_of(idx)) == before.questions_frame(theme_of(idx)),
{
    lemma_insert_remove(before.spec_questions(theme_of(idx))->0, idx.index as int, question);
}

/// Duplicating a node and then removing the node right after it (the
/// clone) leaves the container as it was.
pub proof fn law_duplicate_then_remove_node<C: RoundContainer>(
    before: C,
    mid: C,
    after: C,
    node: PackageNode,
)
    requires
        spec_index(node) < usize::MAX,
        node_duplicated(before, mid, node),
        node_removed(mid, after, next_sibling(node)),
    ensures
        siblings_unchanged(before, after, node),
{
    match node {
        PackageNode::Round(idx) => {
            let rounds = before.spec_rounds();
            if idx.index < rounds.len() {
                let c = choose|c: C::Round|
                    #[trigger] cloned(rounds[idx.index as int], c) && mid.spec_rounds()
                        == rounds.insert(idx.index + 1, c);
                lemma_insert_remove(rounds, idx.index + 1, c);
            }
        },
        PackageNode::Theme(idx) => {
            let r = round_of(idx);
            assert(round_of(ThemeIdx { round_index: idx.round_index, index: (idx.index + 1) as usize }) == r);
            match elem_at(before.spec_themes(r), idx.index) {
                Some(theme) => {
                    let themes = before.spec_themes(r)->0;
                    let c = choose|c: <C as ThemesContainer>::Theme|
                        #[trigger] cloned(theme, c) && mid.spec_themes(r) == Some(
                            themes.insert(idx.index + 1, c),
                        );
                    lemma_insert_remove(themes, idx.index + 1, c);
                },
                None => {},
            }
        },
        PackageNode::Question(idx) => {
            let t = theme_of(idx);
            assert(theme_of(
                QuestionIdx {
                    round_index: idx.round_index,
                    theme_index: idx.theme_index,
                    index: (idx.index + 1) as usize,
                },
            ) == t);
            match elem_at(before.spec_questions(t), idx.index) {
                Some(question) => {
                    let questions = before.spec_questions(t)->0;
                    let c = choose|c: <C as QuestionsContainer>::Question|
                        #[trigger] cloned(question, c) && mid.spec_questions(t) == Some(
                            questions.insert(idx.index + 1, c),
                        );
                    lemma_insert_remove(questions, idx.index + 1, c);
                },
                None => {},
            }
        },
    }
}

/// Allocating a node next to `node` and then removing the last of its
/// siblings (the new node) leaves the container as it was.
pub proof fn law_allocate_then_remove_node<C: RoundContainer>(
    before: C,
    mid: C,
    after: C,
    node: PackageNode,
)
    requires
        sibling_count(before, node) < usize::MAX,
        node_allocated(before, mid, node),
        node_removed(mid, after, sibling_at(node, sibling_count(before, node) as usize)),
    ensures
        siblings_unchanged(before, after, node),
{
    let n = sibling_count(before, node);
    match node {
        PackageNode::Round(_) => {
            let d = choose|d: C::Round|
                #[trigger] crate::package_trait::is_default(d) && mid.spec_rounds()
                    == before.spec_rounds().push(d);
            lemma_push_remove_last(before.spec_rounds(), d);
        },
        PackageNode::Theme(idx) => {
            let r = round_of(idx);
            assert(round_of(ThemeIdx { round_index: idx.round_index, index: n as usize }) == r);
            match before.spec_themes(r) {
                Some(themes) => {
                    let d = choose|d: <C as ThemesContainer>::Theme|
                        #[trigger] crate::package_trait::is_default(d) && mid.spec_themes(r)
                            == Some(themes.push(d));
                    lemma_push_remove_last(themes, d);
                },
                None => {},
            }
        },
        PackageNode::Question(idx) => {
            let t = theme_of(idx);
            assert(theme_of(
                QuestionIdx {
                    round_index: idx.round_index,
                    theme_index: idx.theme_index,
                    index: n as usize,
                },
            ) == t);
            match before.spec_questions(t) {
                Some(questions) => {
                    let d = choose|d: <C as QuestionsContainer>::Question|
                        #[trigger] crate::package_trait::is_default(d) && mid.spec_questions(t)
                            == Some(
                            questions.push(
                                d.with_price(
                                    crate::package_trait::guess_price(
                                        crate::package_trait::prices_of(questions),
                                    ) as usize,
                                ),
                            ),
                        );
                    lemma_push_remove_last(
                        questions,
                        d.with_price(
                            crate::package_trait::guess_price(
                                crate::package_trait::prices_of(questions),
                            ) as usize,
                        ),
                    );
                },
                None => {},
            }
        },
    }
}

/// An edit of the themes of round `r` (one that keeps the themes frame of
/// `r`) keeps everything outside the rounds, the amount of rounds, and the
/// themes of every other round.
pub proof fn law_theme_edits_are_local<C: RoundContainer>(before: C, after: C, r: RoundIdx)
    requires
        after.themes_frame(r) == before.themes_frame(r),
    ensures
        after.rounds_frame() == before.rounds_frame(),
        after.spec_rounds().len() == before.spec_rounds().len(),
        forall|other: RoundIdx|
            other != r ==> #[trigger] after.spec_themes(other) == before.spec_themes(other),
{
    let b = before.spec_rounds();
    let a = after.spec_rounds();
    if r.index < b.len() {
        assert(r.index < a.len());
        assert(a.update(r.index as int, arbitrary::<C::Round>()) == b.update(
            r.index as int,
            arbitrary::<C::Round>(),
        ));
        assert(a.update(r.index as int, arbitrary::<C::Round>()).len() == a.len());
        assert(b.update(r.index as int, arbitrary::<C::Round>()).len() == b.len());
        assert forall|other: RoundIdx| other != r implies #[trigger] after.spec_themes(other)
            == before.spec_themes(other) by {
            if other.index == r.index {
                assert(other == RoundIdx { index: other.index });
                assert(r == RoundIdx { index: r.index });
            }
            assert(a.len() == b.len());
            if other.index < b.len() {
                assert(a.update(r.index as int, arbitrary::<C::Round>())[other.index as int]
                    == a[other.index as int]);
                assert(b.update(r.index as int, arbitrary::<C::Round>())[other.index as int]
                    == b[other.index as int]);
            }
        }
    } else {
        assert(!(r.index < a.len()));
    }
}

/// An edit of the questions of theme `t` (one that keeps the questions
/// frame of `t`) keeps everything outside the rounds, the amount of
/// rounds, and the questions of every other theme.
pub proof fn law_question_edits_are_local<C: RoundContainer>(before: C, after: C, t: ThemeIdx)
    requires
        after.questions_frame(t) == before.questions_frame(t),
    ensures
        after.rounds_frame() == before.rounds_frame(),
        after.spec_rounds().len() == before.spec_rounds().len(),
        forall|other: ThemeIdx|
            other != t ==> #[trigger] after.spec_questions(other) == before.spec_questions(other),
{
    let r = round_of(t);
    law_theme_edits_are_local(before, after, r);
    assert forall|other: ThemeIdx| other != t implies #[trigger] after.spec_questions(other)
        == before.spec_questions(other) by {
        if round_of(other) != r {
            assert(after.spec_themes(round_of(other)) == before.spec_themes(round_of(other)));
        } else {
            if other.index == t.index {
                assert(other == ThemeIdx { round_index: other.round_index, index: other.index });
                assert(t == ThemeIdx { round_index: t.round_index, index: t.index });
            }
            assert(other.index != t.index);
            match before.spec_themes(r) {
                Some(tb) => {
                    if t.index < tb.len() {
                        let ta = after.spec_themes(r)->0;
                        assert(after.spec_themes(r) is Some);
                        assert(t.index < ta.len());
                        assert(ta.update(t.index as int, arbitrary::<<C as ThemesContainer>::Theme>()) == tb.update(
                            t.index as int,
                            arbitrary::<<C as ThemesContainer>::Theme>(),
                        ));
                        assert(ta.update(t.index as int, arbitrary::<<C as ThemesContainer>::Theme>()).len() == ta.len());
                        assert(tb.update(t.index as int, arbitrary::<<C as ThemesContainer>::Theme>()).len() == tb.len());
                        assert(ta.len() == tb.len());
                        if other.index < tb.len() {
                            assert(ta.update(t.index as int, arbitrary::<<C as ThemesContainer>::Theme>())[other.index as int]
                                == ta[other.index as int]);
                            assert(tb.update(t.index as int, arbitrary::<<C as ThemesContainer>::Theme>())[other.index as int]
                                == tb[other.index as int]);
                        }
                    } else {
                        assert(after.spec_themes(r) == Some(tb));
                    }
                },
                None => {
                    assert(after.spec_themes(r) is None);
                },
            }
        }
    }
}

} // verus!

//! Generic editing operations on the package tree (rounds > themes > questions).
//!
//! A package holds rounds, a round holds themes, a theme holds questions.
//! Each container exposes its children as a sequence (`spec_rounds`,
//! `spec_themes`, `spec_questions`) and everything else as a *frame*
//! (`rounds_frame`, `themes_frame`, `questions_frame`): an operation on the
//! children of one node keeps the frame of that node equal, which says that
//! nothing else in the container changed.
use vstd::prelude::*;
use crate::node::{PackageNode, QuestionIdx, RoundIdx, ThemeIdx};

verus! {

/// `x` is a value that `T::default()` may return.
pub open spec fn is_default<T: Default>(x: T) -> bool {
    call_ensures(T::default, (), x)
}

/// Price suggested for a question appended after questions with `prices`:
/// the last price plus the difference of the last two, or the last price
/// plus 100 when there is one question, or 100 when there is none.
pub open spec fn guess_price(prices: Seq<usize>) -> int {
    if prices.len() >= 2 {
        let last = prices[prices.len() - 1] as int;
        let prev = prices[prices.len() - 2] as int;
        if last >= prev {
            last + (last - prev)
        } else {
            last + (prev - last)
        }
    } else if prices.len() == 1 {
        prices[0] + 100
    } else {
        100
    }
}

/// The prices of a sequence of questions.
pub open spec fn prices_of<Q: QuestionBase>(questions: Seq<Q>) -> Seq<usize> {
    questions.map_values(|q: Q| q.spec_price())
}

/// The round index that a theme index lives in.
pub open spec fn round_of(idx: ThemeIdx) -> RoundIdx {
    RoundIdx { index: idx.round_index }
}

/// The theme index that a question index lives in.
pub open spec fn theme_of(idx: QuestionIdx) -> ThemeIdx {
    ThemeIdx { round_index: idx.round_index, index: idx.theme_index }
}

/// Updating the same position twice keeps only the second update.
pub broadcast proof fn lemma_seq_update_twice<T>(s: Seq<T>, i: int, a: T, b: T)
    requires
        0 <= i < s.len(),
    ensures
        #[trigger] s.update(i, a).update(i, b) == s.update(i, b),
{
    assert(s.update(i, a).update(i, b) =~= s.update(i, b));
}

/// The element at index `i` of an optional sequence, if both exist.
pub open spec fn elem_at<T>(s: Option<Seq<T>>, i: usize) -> Option<T> {
    match s {
        Some(s) => if i < s.len() {
            Some(s[i as int])
        } else {
            None
        },
        None => None,
    }
}

/// The length of an optional sequence (0 when absent).
pub open spec fn opt_len<T>(s: Option<Seq<T>>) -> nat {
    match s {
        Some(s) => s.len(),
        None => 0,
    }
}

/// The price suggested for a new question after the optional `questions`
/// (100 when the theme does not exist).
pub open spec fn guess_price_opt<Q: QuestionBase>(questions: Option<Seq<Q>>) -> int {
    match questions {
        Some(qs) => guess_price(prices_of(qs)),
        None => 100,
    }
}

/// The guessed price of a new question goes by the last two prices alone:
/// with two or more questions it is the last price plus the distance
/// between the last two prices, whatever questions come before them; with
/// one question it is that price plus 100; with none it is 100.
pub proof fn law_guess_price_from_last_two<Q: QuestionBase>(earlier: Seq<Q>, questions: Seq<Q>)
    ensures
        questions.len() >= 2 ==> {
            let last = questions[questions.len() - 1].spec_price() as int;
            let prev = questions[questions.len() - 2].spec_price() as int;
            let guess = guess_price_opt(Some(questions));
            &&& guess >= last
            &&& guess - last == last - prev || guess - last == prev - last
            &&& guess_price_opt(Some(earlier + questions)) == guess
        },
        questions.len() == 1 ==> guess_price_opt(Some(questions)) == questions[0].spec_price()
            + 100,
        questions.len() == 0 ==> guess_price_opt(Some(questions)) == 100,
{
    let n = questions.len() as int;
    let all = earlier + questions;
    let m = all.len() as int;
    assert(prices_of(questions).len() == n);
    assert(prices_of(all).len() == m);
    if n >= 2 {
        assert(prices_of(questions)[n - 1] == questions[n - 1].spec_price());
        assert(prices_of(questions)[n - 2] == questions[n - 2].spec_price());
        assert(all[m - 1] == questions[n - 1]);
        assert(all[m - 2] == questions[n - 2]);
        assert(prices_of(all)[m - 1] == questions[n - 1].spec_price());
        assert(prices_of(all)[m - 2] == questions[n - 2].spec_price());
    } else if n == 1 {
        assert(prices_of(questions)[0] == questions[0].spec_price());
    }
}

/// A package: rounds, with default and clone.
pub trait PackageBase: RoundContainer + Default + Clone {

}

/// A round: themes, with default and clone.
pub trait RoundBase: ThemesContainer + Default + Clone {

}

/// A theme: questions, with default and clone.
pub trait ThemeBase: QuestionsContainer + Default + Clone {

}

/// A question with a price.
pub trait QuestionBase: Default + Clone + Sized {
    /// The question's price.
    spec fn spec_price(&self) -> usize;

    /// The question with its price replaced.
    spec fn with_price(self, price: usize) -> Self;

    fn get_price(&self) -> (r: usize)
        ensures
            r == self.spec_price(),
    ;

    fn set_price(&mut self, price: usize)
        ensures
            *final(self) == old(self).with_price(price),
            final(self).spec_price() == price,
    ;
}

/// Something that holds rounds.
pub trait RoundContainer: Sized {
    type Round: RoundBase;

    /// Everything in the container except its rounds.
    type RoundsFrame;

    spec fn spec_rounds(&self) -> Seq<Self::Round>;

    spec fn rounds_frame(&self) -> Self::RoundsFrame;

    /// Immutable reference to rounds.
    fn get_rounds(&self) -> (r: &Vec<Self::Round>)
        ensures
            r@ == self.spec_rounds(),
    ;

    /// Mutable reference to rounds.
    fn get_rounds_mut(&mut self) -> (r: &mut Vec<Self::Round>)
        ensures
            r@ == old(self).spec_rounds(),
            final(self).spec_rounds() == final(r)@,
            final(self).rounds_frame() == old(self).rounds_frame(),
    ;

    /// Amount of rounds.
    fn count_rounds(&self) -> (r: usize)
        ensures
            r == self.spec_rounds().len(),
    {
        self.get_rounds().len()
    }

    /// Whether the round at `idx` exists.
    fn contains_round(&self, idx: RoundIdx) -> (r: bool)
        ensures
            r == (idx.index < self.spec_rounds().len()),
    {
        idx.index < self.count_rounds()
    }

    /// The round at `idx`.
    fn get_round(&self, idx: RoundIdx) -> (r: Option<&Self::Round>)
        ensures
            r is Some <==> idx.index < self.spec_rounds().len(),
            r is Some ==> *r->0 == self.spec_rounds()[idx.index as int],
    {
        let rounds = self.get_rounds();
        if idx.index < rounds.len() {
            Some(&rounds[idx.index])
        } else {
            None
        }
    }

    /// Mutable round at `idx`.
    fn get_round_mut(&mut self, idx: RoundIdx) -> (r: Option<&mut Self::Round>)
        ensures
            r is Some <==> idx.index < old(self).spec_rounds().len(),
            r is Some ==> *r->0 == old(self).spec_rounds()[idx.index as int]
                && final(self).spec_rounds() == old(self).spec_rounds().update(
                idx.index as int,
                *final(r->0),
            ),
            r is None ==> final(self).spec_rounds() == old(self).spec_rounds(),
            final(self).rounds_frame() == old(self).rounds_frame(),
    {
        let rounds = self.get_rounds_mut();
        if idx.index < rounds.len() {
            Some(&mut rounds[idx.index])
        } else {
            None
        }
    }

    /// Removes the round at `idx` and returns it.
    fn remove_round(&mut self, idx: RoundIdx) -> (r: Option<Self::Round>)
        ensures
            r is Some <==> idx.index < old(self).spec_rounds().len(),
            r is Some ==> r->0 == old(self).spec_rounds()[idx.index as int]
                && final(self).spec_rounds() == old(self).spec_rounds().remove(idx.index as int),
            r is None ==> final(self).spec_rounds() == old(self).spec_rounds(),
            final(self).rounds_frame() == old(self).rounds_frame(),
    {
        if idx.index >= self.count_rounds() {
            return None;
        }
        let rounds = self.get_rounds_mut();
        Some(rounds.remove(idx.index))
    }

    /// Appends a round and returns a reference to it.
    fn push_round(&mut self, round: Self::Round) -> (r: &mut Self::Round)
        ensures
            *r == round,
            final(self).spec_rounds() == old(self).spec_rounds().push(*final(r)),
            final(self).rounds_frame() == old(self).rounds_frame(),
    {
        let rounds = self.get_rounds_mut();
        rounds.push(round);
        let n = rounds.len();
        &mut rounds[n - 1]
    }

    /// Inserts a round at `idx` (at most the amount of rounds) and returns a
    /// reference to it.
    fn insert_round(&mut self, idx: RoundIdx, round: Self::Round) -> (r: Option<&mut Self::Round>)
        ensures
            r is Some <==> idx.index <= old(self).spec_rounds().len(),
            r is Some ==> *r->0 == round && final(self).spec_rounds() == old(self).spec_rounds().insert(idx.index as int, *final(r->0)),
            r is None ==> final(self).spec_rounds() == old(self).spec_rounds(),
            final(self).rounds_frame() == old(self).rounds_frame(),
    {
        if idx.index > self.count_rounds() {
            return None;
        }
        let rounds = self.get_rounds_mut();
        rounds.insert(idx.index, round);
        Some(&mut rounds[idx.index])
    }

    /// Inserts a clone of the round at `idx` right after it and returns a
    /// reference to the clone.
    fn duplicate_round(&mut self, idx: RoundIdx) -> (r: Option<&mut Self::Round>)
        ensures
            r is Some <==> idx.index < old(self).spec_rounds().len(),
            r is Some ==> cloned(old(self).spec_rounds()[idx.index as int], *r->0)
                && final(self).spec_rounds() == old(self).spec_rounds().insert(
                idx.index + 1,
                *final(r->0),
            ),
            r is None ==> final(self).spec_rounds() == old(self).spec_rounds(),
            final(self).rounds_frame() == old(self).rounds_frame(),
    {
        if idx.index >= self.count_rounds() {
            return None;
        }
        let copy = self.get_rounds()[idx.index].clone();
        self.insert_round(idx.next(), copy)
    }

    /// Appends a default round and returns a reference to it.
    fn allocate_round(&mut self) -> (r: &mut Self::Round)
        ensures
            is_default(*r),
            final(self).spec_rounds() == old(self).spec_rounds().push(*final(r)),
            final(self).rounds_frame() == old(self).rounds_frame(),
    {
        let round = Self::Round::default();
        self.push_round(round)
    }
}


/// Something that holds themes, addressed by the index of their round.
pub trait ThemesContainer: Sized {
    type Theme: ThemeBase;

    /// Everything in the container except the themes of one round.
    type ThemesFrame;

    /// The themes of round `idx`, if that round exists.
    spec fn spec_themes(&self, idx: RoundIdx) -> Option<Seq<Self::Theme>>;

    spec fn themes_frame(&self, idx: RoundIdx) -> Self::ThemesFrame;

    /// Immutable reference to the themes of round `idx`.
    fn get_themes(&self, idx: RoundIdx) -> (r: Option<&Vec<Self::Theme>>)
        ensures
            r is Some <==> self.spec_themes(idx) is Some,
            r is Some ==> self.spec_themes(idx) == Some(r->0@),
    ;

    /// Mutable reference to the themes of round `idx`.
    fn get_themes_mut(&mut self, idx: RoundIdx) -> (r: Option<&mut Vec<Self::Theme>>)
        ensures
            r is Some <==> old(self).spec_themes(idx) is Some,
            r is Some ==> old(self).spec_themes(idx) == Some(r->0@) && final(self).spec_themes(idx)
                == Some(final(r->0)@),
            r is None ==> final(self).spec_themes(idx) == old(self).spec_themes(idx),
            final(self).themes_frame(idx) == old(self).themes_frame(idx),
    ;

    /// Amount of themes in round `idx` (0 when the round does not exist).
    fn count_themes(&self, idx: RoundIdx) -> (r: usize)
        ensures
            r == opt_len(self.spec_themes(idx)),
    {
        match self.get_themes(idx) {
            Some(themes) => themes.len(),
            None => 0,
        }
    }

    /// Whether the theme at `idx` exists.
    fn contains_theme(&self, idx: ThemeIdx) -> (r: bool)
        ensures
            r == (idx.index < opt_len(self.spec_themes(round_of(idx)))),
            r == elem_at(self.spec_themes(round_of(idx)), idx.index) is Some,
    {
        idx.index < self.count_themes(idx.parent())
    }

    /// The theme at `idx`.
    fn get_theme(&self, idx: ThemeIdx) -> (r: Option<&Self::Theme>)
        ensures
            r is Some <==> elem_at(self.spec_themes(round_of(idx)), idx.index) is Some,
            r is Some ==> elem_at(self.spec_themes(round_of(idx)), idx.index) == Some(*r->0),
    {
        match self.get_themes(idx.parent()) {
            Some(themes) => if idx.index < themes.len() {
                Some(&themes[idx.index])
            } else {
                None
            },
            None => None,
        }
    }

    /// Mutable theme at `idx`.
    fn get_theme_mut(&mut self, idx: ThemeIdx) -> (r: Option<&mut Self::Theme>)
        ensures
            r is Some <==> elem_at(old(self).spec_themes(round_of(idx)), idx.index) is Some,
            r is Some ==> elem_at(old(self).spec_themes(round_of(idx)), idx.index) == Some(*r->0) && final(self).spec_themes(
                round_of(idx),
            ) == Some(
                old(self).spec_themes(round_of(idx))->0.update(idx.index as int, *final(r->0)),
            ),
            r is None ==> final(self).spec_themes(round_of(idx)) == old(self).spec_themes(
                round_of(idx),
            ),
            final(self).themes_frame(round_of(idx)) == old(self).themes_frame(round_of(idx)),
    {
        match self.get_themes_mut(idx.parent()) {
            Some(themes) => if idx.index < themes.len() {
                Some(&mut themes[idx.index])
            } else {
                None
            },
            None => None,
        }
    }

    /// Removes the theme at `idx` and returns it.
    fn remove_theme(&mut self, idx: ThemeIdx) -> (r: Option<Self::Theme>)
        ensures
            r is Some <==> elem_at(old(self).spec_themes(round_of(idx)), idx.index) is Some,
            r is Some ==> elem_at(old(self).spec_themes(round_of(idx)), idx.index) == Some(r->0) && final(self).spec_themes(
                round_of(idx),
            ) == Some(old(self).spec_themes(round_of(idx))->0.remove(idx.index as int)),
            r is None ==> final(self).spec_themes(round_of(idx)) == old(self).spec_themes(
                round_of(idx),
            ),
            final(self).themes_frame(round_of(idx)) == old(self).themes_frame(round_of(idx)),
    {
        match self.get_themes_mut(idx.parent()) {
            Some(themes) => if idx.index < themes.len() {
                Some(themes.remove(idx.index))
            } else {
                None
            },
            None => None,
        }
    }

    /// Appends a theme to round `idx` and returns a reference to it.
    fn push_theme(&mut self, idx: RoundIdx, theme: Self::Theme) -> (r: Option<&mut Self::Theme>)
        ensures
            r is Some <==> old(self).spec_themes(idx) is Some,
            r is Some ==> *r->0 == theme && final(self).spec_themes(idx) == Some(
                old(self).spec_themes(idx)->0.push(*final(r->0)),
            ),
            r is None ==> final(self).spec_themes(idx) == old(self).spec_themes(idx),
            final(self).themes_frame(idx) == old(self).themes_frame(idx),
    {
        match self.get_themes_mut(idx) {
            Some(themes) => {
                themes.push(theme);
                let n = themes.len();
                Some(&mut themes[n - 1])
            },
            None => None,
        }
    }

    /// Inserts a theme at `idx` (at most the amount of themes in its round)
    /// and returns a reference to it.
    fn insert_theme(&mut self, idx: ThemeIdx, theme: Self::Theme) -> (r: Option<&mut Self::Theme>)
        ensures
            r is Some <==> old(self).spec_themes(round_of(idx)) is Some && idx.index <= old(self).spec_themes(round_of(idx))->0.len(),
            r is Some ==> *r->0 == theme && final(self).spec_themes(round_of(idx)) == Some(
                old(self).spec_themes(round_of(idx))->0.insert(idx.index as int, *final(r->0)),
            ),
            r is None ==> final(self).spec_themes(round_of(idx)) == old(self).spec_themes(
                round_of(idx),
            ),
            final(self).themes_frame(round_of(idx)) == old(self).themes_frame(round_of(idx)),
    {
        match self.get_themes_mut(idx.parent()) {
            Some(themes) => if idx.index <= themes.len() {
                themes.insert(idx.index, theme);
                Some(&mut themes[idx.index])
            } else {
                None
            },
            None => None,
        }
    }

    /// Inserts a clone of the theme at `idx` right after it and returns a
    /// reference to the clone.
    fn duplicate_theme(&mut self, idx: ThemeIdx) -> (r: Option<&mut Self::Theme>)
        ensures
            r is Some <==> elem_at(old(self).spec_themes(round_of(idx)), idx.index) is Some,
            r is Some ==> cloned(elem_at(old(self).spec_themes(round_of(idx)), idx.index)->0, *r->0) && final(self).spec_themes(
                round_of(idx),
            ) == Some(
                old(self).spec_themes(round_of(idx))->0.insert(idx.index + 1, *final(r->0)),
            ),
            r is None ==> final(self).spec_themes(round_of(idx)) == old(self).spec_themes(
                round_of(idx),
            ),
            final(self).themes_frame(round_of(idx)) == old(self).themes_frame(round_of(idx)),
    {
        let copy = match self.get_themes(idx.parent()) {
            Some(themes) => if idx.index < themes.len() {
                themes[idx.index].clone()
            } else {
                return None;
            },
            None => {
                return None;
            },
        };
        self.insert_theme(idx.next(), copy)
    }

    /// Appends a default theme to round `idx` and returns a reference to it.
    fn allocate_theme(&mut self, idx: RoundIdx) -> (r: Option<&mut Self::Theme>)
        ensures
            r is Some <==> old(self).spec_themes(idx) is Some,
            r is Some ==> is_default(*r->0) && final(self).spec_themes(idx) == Some(
                old(self).spec_themes(idx)->0.push(*final(r->0)),
            ),
            r is None ==> final(self).spec_themes(idx) == old(self).spec_themes(idx),
            final(self).themes_frame(idx) == old(self).themes_frame(idx),
    {
        let theme = Self::Theme::default();
        self.push_theme(idx, theme)
    }
}

impl<C: RoundContainer> ThemesContainer for C {
    type Theme = <C::Round as ThemesContainer>::Theme;

    type ThemesFrame = (
        C::RoundsFrame,
        Seq<C::Round>,
        Option<<C::Round as ThemesContainer>::ThemesFrame>,
    );

    open spec fn spec_themes(&self, idx: RoundIdx) -> Option<Seq<Self::Theme>> {
        if idx.index < self.spec_rounds().len() {
            self.spec_rounds()[idx.index as int].spec_themes(idx)
        } else {
            None
        }
    }

    open spec fn themes_frame(&self, idx: RoundIdx) -> Self::ThemesFrame {
        if idx.index < self.spec_rounds().len() {
            (
                self.rounds_frame(),
                self.spec_rounds().update(idx.index as int, arbitrary::<C::Round>()),
                Some(self.spec_rounds()[idx.index as int].themes_frame(idx)),
            )
        } else {
            (self.rounds_frame(), self.spec_rounds(), None)
        }
    }

    fn get_themes(&self, idx: RoundIdx) -> (r: Option<&Vec<Self::Theme>>) {
        match self.get_round(idx) {
            Some(round) => round.get_themes(idx),
            None => None,
        }
    }

    fn get_themes_mut(&mut self, idx: RoundIdx) -> (r: Option<&mut Vec<Self::Theme>>) {
        broadcast use lemma_seq_update_twice;

        match self.get_round_mut(idx) {
            Some(round) => round.get_themes_mut(idx),
            None => None,
        }
    }
}


/// Something that holds questions, addressed by the indices of their theme.
pub trait QuestionsContainer: Sized {
    type Question: QuestionBase;

    /// Everything in the container except the questions of one theme.
    type QuestionsFrame;

    /// The questions of theme `idx`, if that theme exists.
    spec fn spec_questions(&self, idx: ThemeIdx) -> Option<Seq<Self::Question>>;

    spec fn questions_frame(&self, idx: ThemeIdx) -> Self::QuestionsFrame;

    /// Immutable reference to the questions of theme `idx`.
    fn get_questions(&self, idx: ThemeIdx) -> (r: Option<&Vec<Self::Question>>)
        ensures
            r is Some <==> self.spec_questions(idx) is Some,
            r is Some ==> self.spec_questions(idx) == Some(r->0@),
    ;

    /// Mutable reference to the questions of theme `idx`.
    fn get_questions_mut(&mut self, idx: ThemeIdx) -> (r: Option<&mut Vec<Self::Question>>)
        ensures
            r is Some <==> old(self).spec_questions(idx) is Some,
            r is Some ==> old(self).spec_questions(idx) == Some(r->0@) && final(self).spec_questions(idx) == Some(final(r->0)@),
            r is None ==> final(self).spec_questions(idx) == old(self).spec_questions(idx),
            final(self).questions_frame(idx) == old(self).questions_frame(idx),
    ;

    /// Suggested price for the next question of theme `idx`: the last price
    /// plus the difference of the last two prices, or the last price plus 100
    /// with a single question, or 100 with none.
    fn guess_next_question_price(&self, idx: ThemeIdx) -> (r: usize)
        requires
            guess_price_opt(self.spec_questions(idx)) <= usize::MAX,
        ensures
            r == guess_price_opt(self.spec_questions(idx)),
    {
        match self.get_questions(idx) {
            Some(questions) => {
                let n = questions.len();
                proof {
                    assert(prices_of(questions@).len() == n);
                }
                if n >= 2 {
                    let last = questions[n - 1].get_price();
                    let prev = questions[n - 2].get_price();
                    assert(prices_of(questions@)[n - 1] == last);
                    assert(prices_of(questions@)[n - 2] == prev);
                    let diff = if last >= prev {
                        last - prev
                    } else {
                        prev - last
                    };
                    last + diff
                } else if n == 1 {
                    let last = questions[0].get_price();
                    assert(prices_of(questions@)[0] == last);
                    last + 100
                } else {
                    100
                }
            },
            None => 100,
        }
    }

    /// Amount of questions in theme `idx` (0 when the theme does not exist).
    fn count_questions(&self, idx: ThemeIdx) -> (r: usize)
        ensures
            r == opt_len(self.spec_questions(idx)),
    {
        match self.get_questions(idx) {
            Some(questions) => questions.len(),
            None => 0,
        }
    }

    /// Whether the question at `idx` exists.
    fn contains_question(&self, idx: QuestionIdx) -> (r: bool)
        ensures
            r == (idx.index < opt_len(self.spec_questions(theme_of(idx)))),
            r == elem_at(self.spec_questions(theme_of(idx)), idx.index) is Some,
    {
        idx.index < self.count_questions(idx.parent())
    }

    /// The question at `idx`.
    fn get_question(&self, idx: QuestionIdx) -> (r: Option<&Self::Question>)
        ensures
            r is Some <==> elem_at(self.spec_questions(theme_of(idx)), idx.index) is Some,
            r is Some ==> elem_at(self.spec_questions(theme_of(idx)), idx.index) == Some(*r->0),
    {
        match self.get_questions(idx.parent()) {
            Some(questions) => if idx.index < questions.len() {
                Some(&questions[idx.index])
            } else {
                None
            },
            None => None,
        }
    }

    /// Mutable question at `idx`.
    fn get_question_mut(&mut self, idx: QuestionIdx) -> (r: Option<&mut Self::Question>)
        ensures
            r is Some <==> elem_at(old(self).spec_questions(theme_of(idx)), idx.index) is Some,
            r is Some ==> elem_at(old(self).spec_questions(theme_of(idx)), idx.index) == Some(*r->0) && final(self).spec_questions(theme_of(idx)) == Some(
                old(self).spec_questions(theme_of(idx))->0.update(idx.index as int, *final(r->0)),
            ),
            r is None ==> final(self).spec_questions(theme_of(idx)) == old(self).spec_questions(
                theme_of(idx),
            ),
            final(self).questions_frame(theme_of(idx)) == old(self).questions_frame(theme_of(idx)),
    {
        match self.get_questions_mut(idx.parent()) {
            Some(questions) => if idx.index < questions.len() {
                Some(&mut questions[idx.index])
            } else {
                None
            },
            None => None,
        }
    }

    /// Removes the question at `idx` and returns it.
    fn remove_question(&mut self, idx: QuestionIdx) -> (r: Option<Self::Question>)
        ensures
            r is Some <==> elem_at(old(self).spec_questions(theme_of(idx)), idx.index) is Some,
            r is Some ==> elem_at(old(self).spec_questions(theme_of(idx)), idx.index) == Some(r->0) && final(self).spec_questions(
                theme_of(idx),
            ) == Some(old(self).spec_questions(theme_of(idx))->0.remove(idx.index as int)),
            r is None ==> final(self).spec_questions(theme_of(idx)) == old(self).spec_questions(
                theme_of(idx),
            ),
            final(self).questions_frame(theme_of(idx)) == old(self).questions_frame(theme_of(idx)),
    {
        match self.get_questions_mut(idx.parent()) {
            Some(questions) => if idx.index < questions.len() {
                Some(questions.remove(idx.index))
            } else {
                None
            },
            None => None,
        }
    }

    /// Appends a question to theme `idx` and returns a reference to it.
    fn push_question(&mut self, idx: ThemeIdx, question: Self::Question) -> (r: Option<
        &mut Self::Question,
    >)
        ensures
            r is Some <==> old(self).spec_questions(idx) is Some,
            r is Some ==> *r->0 == question && final(self).spec_questions(idx) == Some(
                old(self).spec_questions(idx)->0.push(*final(r->0)),
            ),
            r is None ==> final(self).spec_questions(idx) == old(self).spec_questions(idx),
            final(self).questions_frame(idx) == old(self).questions_frame(idx),
    {
        match self.get_questions_mut(idx) {
            Some(questions) => {
                questions.push(question);
                let n = questions.len();
                Some(&mut questions[n - 1])
            },
            None => None,
        }
    }

    /// Inserts a question at `idx` (at most the amount of questions in its
    /// theme) and returns a reference to it.
    fn insert_question(&mut self, idx: QuestionIdx, question: Self::Question) -> (r: Option<
        &mut Self::Question,
    >)
        ensures
            r is Some <==> old(self).spec_questions(theme_of(idx)) is Some && idx.index <= old(self).spec_questions(theme_of(idx))->0.len(),
            r is Some ==> *r->0 == question && final(self).spec_questions(theme_of(idx)) == Some(
                old(self).spec_questions(theme_of(idx))->0.insert(idx.index as int, *final(r->0)),
            ),
            r is None ==> final(self).spec_questions(theme_of(idx)) == old(self).spec_questions(
                theme_of(idx),
            ),
            final(self).questions_frame(theme_of(idx)) == old(self).questions_frame(theme_of(idx)),
    {
        match self.get_questions_mut(idx.parent()) {
            Some(questions) => if idx.index <= questions.len() {
                questions.insert(idx.index, question);
                Some(&mut questions[idx.index])
            } else {
                None
            },
            None => None,
        }
    }

    /// Inserts a clone of the question at `idx` right after it and returns a
    /// reference to the clone.
    fn duplicate_question(&mut self, idx: QuestionIdx) -> (r: Option<&mut Self::Question>)
        ensures
            r is Some <==> elem_at(old(self).spec_questions(theme_of(idx)), idx.index) is Some,
            r is Some ==> cloned(elem_at(old(self).spec_questions(theme_of(idx)), idx.index)->0, *r->0) && final(self).spec_questions(theme_of(idx)) == Some(
                old(self).spec_questions(theme_of(idx))->0.insert(idx.index + 1, *final(r->0)),
            ),
            r is None ==> final(self).spec_questions(theme_of(idx)) == old(self).spec_questions(
                theme_of(idx),
            ),
            final(self).questions_frame(theme_of(idx)) == old(self).questions_frame(theme_of(idx)),
    {
        let copy = match self.get_questions(idx.parent()) {
            Some(questions) => if idx.index < questions.len() {
                questions[idx.index].clone()
            } else {
                return None;
            },
            None => {
                return None;
            },
        };
        self.insert_question(idx.next(), copy)
    }

    /// Appends a default question priced with [`Self::guess_next_question_price`]
    /// to theme `idx` and returns a reference to it.
    fn allocate_question(&mut self, idx: ThemeIdx) -> (r: Option<&mut Self::Question>)
        requires
            guess_price_opt(old(self).spec_questions(idx)) <= usize::MAX,
        ensures
            r is Some <==> old(self).spec_questions(idx) is Some,
            r is Some ==> (exists|d: Self::Question|
                is_default(d) && #[trigger] d.with_price(guess_price_opt(old(self).spec_questions(idx)) as usize)
                    == *r->0),
            r is Some ==> (*r->0).spec_price() == guess_price_opt(old(self).spec_questions(idx)),
            r is Some ==> final(self).spec_questions(idx) == Some(
                old(self).spec_questions(idx)->0.push(*final(r->0)),
            ),
            r is None ==> final(self).spec_questions(idx) == old(self).spec_questions(idx),
            final(self).questions_frame(idx) == old(self).questions_frame(idx),
    {
        let ghost guess = guess_price_opt(self.spec_questions(idx)) as usize;
        let price = self.guess_next_question_price(idx);
        let mut question = Self::Question::default();
        let ghost fresh = question;
        question.set_price(price);
        assert(fresh.with_price(guess) == question);
        let r = self.push_question(idx, question);
        assert(r is Some ==> fresh.with_price(guess) == *r->0);
        r
    }
}

impl<C: ThemesContainer> QuestionsContainer for C {
    type Question = <C::Theme as QuestionsContainer>::Question;

    type QuestionsFrame = (
        C::ThemesFrame,
        Option<Seq<C::Theme>>,
        Option<<C::Theme as QuestionsContainer>::QuestionsFrame>,
    );

    open spec fn spec_questions(&self, idx: ThemeIdx) -> Option<Seq<Self::Question>> {
        match elem_at(self.spec_themes(round_of(idx)), idx.index) {
            Some(theme) => theme.spec_questions(idx),
            None => None,
        }
    }

    open spec fn questions_frame(&self, idx: ThemeIdx) -> Self::QuestionsFrame {
        match self.spec_themes(round_of(idx)) {
            Some(themes) => if idx.index < themes.len() {
                (
                    self.themes_frame(round_of(idx)),
                    Some(themes.update(idx.index as int, arbitrary::<C::Theme>())),
                    Some(themes[idx.index as int].questions_frame(idx)),
                )
            } else {
                (self.themes_frame(round_of(idx)), Some(themes), None)
            },
            None => (self.themes_frame(round_of(idx)), None, None),
        }
    }

    fn get_questions(&self, idx: ThemeIdx) -> (r: Option<&Vec<Self::Question>>) {
        match self.get_theme(idx) {
            Some(theme) => theme.get_questions(idx),
            None => None,
        }
    }

    fn get_questions_mut(&mut self, idx: ThemeIdx) -> (r: Option<&mut Vec<Self::Question>>) {
        broadcast use lemma_seq_update_twice;

        match self.get_theme_mut(idx) {
            Some(theme) => theme.get_questions_mut(idx),
            None => None,
        }
    }
}


/// `after` is `before` with a clone of round `idx` inserted right after it
/// (unchanged when that round does not exist).
pub open spec fn round_duplicated<C: RoundContainer>(before: C, after: C, idx: RoundIdx) -> bool {
    &&& after.rounds_frame() == before.rounds_frame()
    &&& if idx.index < before.spec_rounds().len() {
        exists|c: C::Round|
            #[trigger] cloned(before.spec_rounds()[idx.index as int], c) && after.spec_rounds()
                == before.spec_rounds().insert(idx.index + 1, c)
    } else {
        after.spec_rounds() == before.spec_rounds()
    }
}

/// `after` is `before` with a clone of theme `idx` inserted right after it
/// (unchanged when that theme does not exist).
pub open spec fn theme_duplicated<C: ThemesContainer>(before: C, after: C, idx: ThemeIdx) -> bool {
    &&& after.themes_frame(round_of(idx)) == before.themes_frame(round_of(idx))
    &&& match elem_at(before.spec_themes(round_of(idx)), idx.index) {
        Some(theme) => exists|c: C::Theme|
            #[trigger] cloned(theme, c) && after.spec_themes(round_of(idx)) == Some(
                before.spec_themes(round_of(idx))->0.insert(idx.index + 1, c),
            ),
        None => after.spec_themes(round_of(idx)) == before.spec_themes(round_of(idx)),
    }
}

/// `after` is `before` with a clone of question `idx` inserted right after
/// it (unchanged when that question does not exist).
pub open spec fn question_duplicated<C: QuestionsContainer>(
    before: C,
    after: C,
    idx: QuestionIdx,
) -> bool {
    &&& after.questions_frame(theme_of(idx)) == before.questions_frame(theme_of(idx))
    &&& match elem_at(before.spec_questions(theme_of(idx)), idx.index) {
        Some(question) => exists|c: C::Question|
            #[trigger] cloned(question, c) && after.spec_questions(theme_of(idx)) == Some(
                before.spec_questions(theme_of(idx))->0.insert(idx.index + 1, c),
            ),
        None => after.spec_questions(theme_of(idx)) == before.spec_questions(theme_of(idx)),
    }
}

/// `after` is `before` with a default round appended.
pub open spec fn round_allocated<C: RoundContainer>(before: C, after: C) -> bool {
    &&& after.rounds_frame() == before.rounds_frame()
    &&& exists|d: C::Round| #[trigger] is_default(d) && after.spec_rounds() == before.spec_rounds().push(d)
}

/// `after` is `before` with a default theme appended to round `idx`
/// (unchanged when that round does not exist).
pub open spec fn theme_allocated<C: ThemesContainer>(before: C, after: C, idx: RoundIdx) -> bool {
    &&& after.themes_frame(idx) == before.themes_frame(idx)
    &&& match before.spec_themes(idx) {
        Some(themes) => exists|d: C::Theme|
            #[trigger] is_default(d) && after.spec_themes(idx) == Some(themes.push(d)),
        None => after.spec_themes(idx) == before.spec_themes(idx),
    }
}

/// `after` is `before` with a default question, priced with the guessed
/// price, appended to theme `idx` (unchanged when that theme does not exist).
pub open spec fn question_allocated<C: QuestionsContainer>(before: C, after: C, idx: ThemeIdx) -> bool {
    &&& after.questions_frame(idx) == before.questions_frame(idx)
    &&& match before.spec_questions(idx) {
        Some(questions) => exists|d: C::Question|
            #[trigger] is_default(d) && after.spec_questions(idx) == Some(
                questions.push(d.with_price(guess_price(prices_of(questions)) as usize)),
            ),
        None => after.spec_questions(idx) == before.spec_questions(idx),
    }
}

/// `after` is `before` without round `idx` (unchanged when it does not exist).
pub open spec fn round_removed<C: RoundContainer>(before: C, after: C, idx: RoundIdx) -> bool {
    &&& after.rounds_frame() == before.rounds_frame()
    &&& after.spec_rounds() == if idx.index < before.spec_rounds().len() {
        before.spec_rounds().remove(idx.index as int)
    } else {
        before.spec_rounds()
    }
}

/// `after` is `before` without theme `idx` (unchanged when it does not exist).
pub open spec fn theme_removed<C: ThemesContainer>(before: C, after: C, idx: ThemeIdx) -> bool {
    &&& after.themes_frame(round_of(idx)) == before.themes_frame(round_of(idx))
    &&& after.spec_themes(round_of(idx)) == match elem_at(
        before.spec_themes(round_of(idx)),
        idx.index,
    ) {
        Some(_) => Some(before.spec_themes(round_of(idx))->0.remove(idx.index as int)),
        None => before.spec_themes(round_of(idx)),
    }
}

/// `after` is `before` without question `idx` (unchanged when it does not exist).
pub open spec fn question_removed<C: QuestionsContainer>(before: C, after: C, idx: QuestionIdx) -> bool {
    &&& after.questions_frame(theme_of(idx)) == before.questions_frame(theme_of(idx))
    &&& after.spec_questions(theme_of(idx)) == match elem_at(
        before.spec_questions(theme_of(idx)),
        idx.index,
    ) {
        Some(_) => Some(before.spec_questions(theme_of(idx))->0.remove(idx.index as int)),
        None => before.spec_questions(theme_of(idx)),
    }
}

/// `after` is `before` with `node` duplicated (see [`round_duplicated`],
/// [`theme_duplicated`], [`question_duplicated`]).
pub open spec fn node_duplicated<C: RoundContainer>(before: C, after: C, node: PackageNode) -> bool {
    match node {
        PackageNode::Round(idx) => round_duplicated(before, after, idx),
        PackageNode::Theme(idx) => theme_duplicated(before, after, idx),
        PackageNode::Question(idx) => question_duplicated(before, after, idx),
    }
}

/// `after` is `before` with a new node appended next to `node`: a round,
/// a theme in the same round, or a question in the same theme.
pub open spec fn node_allocated<C: RoundContainer>(before: C, after: C, node: PackageNode) -> bool {
    match node {
        PackageNode::Round(_) => round_allocated(before, after),
        PackageNode::Theme(idx) => theme_allocated(before, after, round_of(idx)),
        PackageNode::Question(idx) => question_allocated(before, after, theme_of(idx)),
    }
}

/// `after` is `before` without `node`.
pub open spec fn node_removed<C: RoundContainer>(before: C, after: C, node: PackageNode) -> bool {
    match node {
        PackageNode::Round(idx) => round_removed(before, after, idx),
        PackageNode::Theme(idx) => theme_removed(before, after, idx),
        PackageNode::Question(idx) => question_removed(before, after, idx),
    }
}

/// `after` and `before` hold the same siblings of `node` (the rounds, the
/// themes of its round, or the questions of its theme) and agree on
/// everything else.
pub open spec fn siblings_unchanged<C: RoundContainer>(before: C, after: C, node: PackageNode) -> bool {
    match node {
        PackageNode::Round(_) => after.spec_rounds() == before.spec_rounds()
            && after.rounds_frame() == before.rounds_frame(),
        PackageNode::Theme(idx) => after.spec_themes(round_of(idx)) == before.spec_themes(
            round_of(idx),
        ) && after.themes_frame(round_of(idx)) == before.themes_frame(round_of(idx)),
        PackageNode::Question(idx) => after.spec_questions(theme_of(idx))
            == before.spec_questions(theme_of(idx)) && after.questions_frame(theme_of(idx))
            == before.questions_frame(theme_of(idx)),
    }
}

/// The node after `node` among its siblings.
pub open spec fn next_sibling(node: PackageNode) -> PackageNode {
    match node {
        PackageNode::Round(idx) => PackageNode::Round(RoundIdx { index: (idx.index + 1) as usize }),
        PackageNode::Theme(idx) => PackageNode::Theme(
            ThemeIdx { round_index: idx.round_index, index: (idx.index + 1) as usize },
        ),
        PackageNode::Question(idx) => PackageNode::Question(
            QuestionIdx {
                round_index: idx.round_index,
                theme_index: idx.theme_index,
                index: (idx.index + 1) as usize,
            },
        ),
    }
}

/// The amount of siblings of `node`, itself included when it exists.
pub open spec fn sibling_count<C: RoundContainer>(c: C, node: PackageNode) -> nat {
    match node {
        PackageNode::Round(_) => c.spec_rounds().len(),
        PackageNode::Theme(idx) => opt_len(c.spec_themes(round_of(idx))),
        PackageNode::Question(idx) => opt_len(c.spec_questions(theme_of(idx))),
    }
}

/// The sibling of `node` at position `index`.
pub open spec fn sibling_at(node: PackageNode, index: usize) -> PackageNode {
    match node {
        PackageNode::Round(_) => PackageNode::Round(RoundIdx { index }),
        PackageNode::Theme(idx) => PackageNode::Theme(ThemeIdx { round_index: idx.round_index, index }),
        PackageNode::Question(idx) => PackageNode::Question(
            QuestionIdx { round_index: idx.round_index, theme_index: idx.theme_index, index },
        ),
    }
}

/// Node-addressed editing of a package tree.
pub trait NodeContainer {
    /// Whether allocating at `node` keeps the guessed price within `usize`.
    spec fn node_allocatable(&self, node: PackageNode) -> bool;

    /// Clones a node and inserts the clone right after it.
    fn duplicate_node(&mut self, node: PackageNode);

    /// Appends a new default node next to `node`: a round, a theme in the
    /// same round, or a question in the same theme.
    fn allocate_node(&mut self, node: PackageNode)
        requires
            old(self).node_allocatable(node),
    ;

    /// Removes a single node.
    fn remove_node(&mut self, node: PackageNode);
}

impl<T: RoundContainer> NodeContainer for T {
    open spec fn node_allocatable(&self, node: PackageNode) -> bool {
        match node {
            PackageNode::Question(idx) => guess_price_opt(self.spec_questions(theme_of(idx)))
                <= usize::MAX,
            _ => true,
        }
    }

    fn duplicate_node(&mut self, node: PackageNode)
        ensures
            node_duplicated(*old(self), *final(self), node),
    {
        match node {
            PackageNode::Round(idx) => {
                let r = self.duplicate_round(idx);
                proof {
                    if r is Some {
                        assert(cloned(old(self).spec_rounds()[idx.index as int], *r->0));
                    }
                }
            },
            PackageNode::Theme(idx) => {
                let r = self.duplicate_theme(idx);
                proof {
                    if r is Some {
                        assert(cloned(
                            elem_at(old(self).spec_themes(round_of(idx)), idx.index)->0,
                            *r->0,
                        ));
                    }
                }
            },
            PackageNode::Question(idx) => {
                let r = self.duplicate_question(idx);
                proof {
                    if r is Some {
                        assert(cloned(
                            elem_at(old(self).spec_questions(theme_of(idx)), idx.index)->0,
                            *r->0,
                        ));
                    }
                }
            },
        };
    }

    fn allocate_node(&mut self, node: PackageNode)
        ensures
            node_allocated(*old(self), *final(self), node),
    {
        match node {
            PackageNode::Round(_) => {
                let r = self.allocate_round();
                assert(is_default(*r));
            },
            PackageNode::Theme(idx) => {
                let r = self.allocate_theme(idx.parent());
                proof {
                    if r is Some {
                        assert(is_default(*r->0));
                    }
                }
            },
            PackageNode::Question(idx) => {
                let r = self.allocate_question(idx.parent());
                proof {
                    if r is Some {
                        let d = choose|d: <T as QuestionsContainer>::Question|
                            is_default(d) && #[trigger] d.with_price(
                                guess_price_opt(old(self).spec_questions(theme_of(idx))) as usize,
                            ) == *r->0;
                        assert(is_default(d));
                    }
                }
            },
        };
    }

    fn remove_node(&mut self, node: PackageNode)
        ensures
            node_removed(*old(self), *final(self), node),
    {
        match node {
            PackageNode::Round(idx) => {
                self.remove_round(idx);
            },
            PackageNode::Theme(idx) => {
                self.remove_theme(idx);
            },
            PackageNode::Question(idx) => {
                self.remove_question(idx);
            },
        };
    }
}

} // verus!

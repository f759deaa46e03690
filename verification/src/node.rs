//! Typed indices of package tree nodes.
use vstd::prelude::*;
use crate::text::{decimal, push_char, push_decimal};

verus! {

/// Typed index of a round in a package.
#[derive(Debug, Clone, Copy, PartialEq, Eq, PartialOrd, Ord, Hash, Structural)]
pub struct RoundIdx {
    pub index: usize,
}

/// Typed indices of a theme: the round it belongs to and its own index.
#[derive(Debug, Clone, Copy, PartialEq, Eq, PartialOrd, Ord, Hash, Structural)]
pub struct ThemeIdx {
    pub round_index: usize,
    pub index: usize,
}

/// Typed indices of a question: its round, its theme and its own index.
#[derive(Debug, Clone, Copy, PartialEq, Eq, PartialOrd, Ord, Hash, Structural)]
pub struct QuestionIdx {
    pub round_index: usize,
    pub theme_index: usize,
    pub index: usize,
}

/// A package tree node addressed by indices; cheap to copy.
#[derive(Debug, Clone, Copy, PartialEq, Eq, PartialOrd, Ord, Hash, Structural)]
pub enum PackageNode {
    Round(RoundIdx),
    Theme(ThemeIdx),
    Question(QuestionIdx),
}

impl std::ops::Deref for RoundIdx {
    type Target = usize;

    /// The round's index.
    fn deref(&self) -> (r: &usize)
        ensures
            *r == self.index,
    {
        &self.index
    }
}

impl std::ops::Deref for ThemeIdx {
    type Target = usize;

    /// The theme's own index.
    fn deref(&self) -> (r: &usize)
        ensures
            *r == self.index,
    {
        &self.index
    }
}

impl std::ops::Deref for QuestionIdx {
    type Target = usize;

    /// The question's own index.
    fn deref(&self) -> (r: &usize)
        ensures
            *r == self.index,
    {
        &self.index
    }
}

impl AsRef<usize> for RoundIdx {
    fn as_ref(&self) -> (r: &usize)
        ensures
            *r == self.index,
    {
        &self.index
    }
}

impl AsRef<usize> for ThemeIdx {
    fn as_ref(&self) -> (r: &usize)
        ensures
            *r == self.index,
    {
        &self.index
    }
}

impl AsRef<usize> for QuestionIdx {
    fn as_ref(&self) -> (r: &usize)
        ensures
            *r == self.index,
    {
        &self.index
    }
}

impl RoundIdx {
    /// A [`ThemeIdx`] in this round with the given index.
    pub fn theme(&self, index: usize) -> (r: ThemeIdx)
        ensures
            r == (ThemeIdx { round_index: self.index, index }),
    {
        ThemeIdx { round_index: self.index, index }
    }

    /// The next round.
    pub fn next(&self) -> (r: Self)
        requires
            self.index < usize::MAX,
        ensures
            r == (RoundIdx { index: (self.index + 1) as usize }),
    {
        Self { index: self.index + 1 }
    }

    /// Printable form, e.g. `[2]`.
    pub fn to_string(&self) -> (r: String)
        ensures
            r@ == seq!['['] + decimal(self.index as nat) + seq![']'],
    {
        let mut s = String::new();
        push_char(&mut s, '[');
        push_decimal(&mut s, self.index);
        push_char(&mut s, ']');
        s
    }
}

impl ThemeIdx {
    /// A [`QuestionIdx`] in this theme with the given index.
    pub fn question(&self, index: usize) -> (r: QuestionIdx)
        ensures
            r == (QuestionIdx { round_index: self.round_index, theme_index: self.index, index }),
    {
        QuestionIdx { round_index: self.round_index, theme_index: self.index, index }
    }

    /// The round this theme belongs to.
    pub fn parent(&self) -> (r: RoundIdx)
        ensures
            r == (RoundIdx { index: self.round_index }),
    {
        RoundIdx { index: self.round_index }
    }

    /// The next theme in the same round.
    pub fn next(&self) -> (r: Self)
        requires
            self.index < usize::MAX,
        ensures
            r == (ThemeIdx { round_index: self.round_index, index: (self.index + 1) as usize }),
    {
        Self { round_index: self.round_index, index: self.index + 1 }
    }

    /// Printable form, e.g. `[1 > 2]`.
    pub fn to_string(&self) -> (r: String)
        ensures
            r@ == seq!['['] + decimal(self.round_index as nat) + seq![' ', '>', ' '] + decimal(
                self.index as nat,
            ) + seq![']'],
    {
        let mut s = String::new();
        push_char(&mut s, '[');
        push_decimal(&mut s, self.round_index);
        push_char(&mut s, ' ');
        push_char(&mut s, '>');
        push_char(&mut s, ' ');
        push_decimal(&mut s, self.index);
        push_char(&mut s, ']');
        s
    }
}

impl QuestionIdx {
    /// The theme this question belongs to.
    pub fn parent(&self) -> (r: ThemeIdx)
        ensures
            r == (ThemeIdx { round_index: self.round_index, index: self.theme_index }),
    {
        ThemeIdx { round_index: self.round_index, index: self.theme_index }
    }

    /// The next question in the same theme.
    pub fn next(&self) -> (r: Self)
        requires
            self.index < usize::MAX,
        ensures
            r == (QuestionIdx {
                round_index: self.round_index,
                theme_index: self.theme_index,
                index: (self.index + 1) as usize,
            }),
    {
        Self { round_index: self.round_index, theme_index: self.theme_index, index: self.index + 1 }
    }

    /// Printable form, e.g. `[1 > 2 > 3]`.
    pub fn to_string(&self) -> (r: String)
        ensures
            r@ == seq!['['] + decimal(self.round_index as nat) + seq![' ', '>', ' '] + decimal(
                self.theme_index as nat,
            ) + seq![' ', '>', ' '] + decimal(self.index as nat) + seq![']'],
    {
        let mut s = String::new();
        push_char(&mut s, '[');
        push_decimal(&mut s, self.round_index);
        push_char(&mut s, ' ');
        push_char(&mut s, '>');
        push_char(&mut s, ' ');
        push_decimal(&mut s, self.theme_index);
        push_char(&mut s, ' ');
        push_char(&mut s, '>');
        push_char(&mut s, ' ');
        push_decimal(&mut s, self.index);
        push_char(&mut s, ']');
        s
    }
}

/// The parent of a node in the tree: none for rounds, the round for themes,
/// the theme for questions.
pub open spec fn spec_parent(node: PackageNode) -> Option<PackageNode> {
    match node {
        PackageNode::Round(_) => None,
        PackageNode::Theme(t) => Some(PackageNode::Round(RoundIdx { index: t.round_index })),
        PackageNode::Question(q) => Some(
            PackageNode::Theme(ThemeIdx { round_index: q.round_index, index: q.theme_index }),
        ),
    }
}

/// The node's own index within its parent.
pub open spec fn spec_index(node: PackageNode) -> usize {
    match node {
        PackageNode::Round(r) => r.index,
        PackageNode::Theme(t) => t.index,
        PackageNode::Question(q) => q.index,
    }
}

impl PackageNode {
    /// Parent of the node, unless it is a [`PackageNode::Round`].
    pub fn parent(&self) -> (r: Option<PackageNode>)
        ensures
            r == spec_parent(*self),
    {
        match self {
            PackageNode::Round(_) => None,
            PackageNode::Theme(node) => Some(PackageNode::Round(node.parent())),
            PackageNode::Question(node) => Some(PackageNode::Theme(node.parent())),
        }
    }

    /// Index of the node itself.
    pub fn index(&self) -> (r: usize)
        ensures
            r == spec_index(*self),
    {
        match self {
            PackageNode::Round(RoundIdx { index }) => *index,
            PackageNode::Theme(ThemeIdx { index, .. }) => *index,
            PackageNode::Question(QuestionIdx { index, .. }) => *index,
        }
    }
}

impl From<usize> for RoundIdx {
    fn from(index: usize) -> (r: Self) {
        RoundIdx { index }
    }
}

impl vstd::std_specs::convert::FromSpecImpl<usize> for RoundIdx {
    open spec fn obeys_from_spec() -> bool {
        true
    }

    open spec fn from_spec(index: usize) -> Self {
        RoundIdx { index }
    }
}

impl From<(usize, usize)> for ThemeIdx {
    fn from(idx: (usize, usize)) -> (r: Self) {
        ThemeIdx { round_index: idx.0, index: idx.1 }
    }
}

impl vstd::std_specs::convert::FromSpecImpl<(usize, usize)> for ThemeIdx {
    open spec fn obeys_from_spec() -> bool {
        true
    }

    open spec fn from_spec(idx: (usize, usize)) -> Self {
        ThemeIdx { round_index: idx.0, index: idx.1 }
    }
}

impl From<(usize, usize, usize)> for QuestionIdx {
    fn from(idx: (usize, usize, usize)) -> (r: Self) {
        QuestionIdx { round_index: idx.0, theme_index: idx.1, index: idx.2 }
    }
}

impl vstd::std_specs::convert::FromSpecImpl<(usize, usize, usize)> for QuestionIdx {
    open spec fn obeys_from_spec() -> bool {
        true
    }

    open spec fn from_spec(idx: (usize, usize, usize)) -> Self {
        QuestionIdx { round_index: idx.0, theme_index: idx.1, index: idx.2 }
    }
}

impl From<RoundIdx> for PackageNode {
    fn from(idx: RoundIdx) -> (r: Self) {
        PackageNode::Round(idx)
    }
}

impl vstd::std_specs::convert::FromSpecImpl<RoundIdx> for PackageNode {
    open spec fn obeys_from_spec() -> bool {
        true
    }

    open spec fn from_spec(idx: RoundIdx) -> Self {
        PackageNode::Round(idx)
    }
}

impl From<ThemeIdx> for PackageNode {
    fn from(idx: ThemeIdx) -> (r: Self) {
        PackageNode::Theme(idx)
    }
}

impl vstd::std_specs::convert::FromSpecImpl<ThemeIdx> for PackageNode {
    open spec fn obeys_from_spec() -> bool {
        true
    }

    open spec fn from_spec(idx: ThemeIdx) -> Self {
        PackageNode::Theme(idx)
    }
}

impl From<QuestionIdx> for PackageNode {
    fn from(idx: QuestionIdx) -> (r: Self) {
        PackageNode::Question(idx)
    }
}

impl vstd::std_specs::convert::FromSpecImpl<QuestionIdx> for PackageNode {
    open spec fn obeys_from_spec() -> bool {
        true
    }

    open spec fn from_spec(idx: QuestionIdx) -> Self {
        PackageNode::Question(idx)
    }
}

impl From<usize> for PackageNode {
    fn from(idx: usize) -> (r: Self) {
        PackageNode::Round(RoundIdx { index: idx })
    }
}

impl vstd::std_specs::convert::FromSpecImpl<usize> for PackageNode {
    open spec fn obeys_from_spec() -> bool {
        true
    }

    open spec fn from_spec(idx: usize) -> Self {
        PackageNode::Round(RoundIdx { index: idx })
    }
}

impl From<(usize, usize)> for PackageNode {
    fn from(idx: (usize, usize)) -> (r: Self) {
        PackageNode::Theme(ThemeIdx { round_index: idx.0, index: idx.1 })
    }
}

impl vstd::std_specs::convert::FromSpecImpl<(usize, usize)> for PackageNode {
    open spec fn obeys_from_spec() -> bool {
        true
    }

    open spec fn from_spec(idx: (usize, usize)) -> Self {
        PackageNode::Theme(ThemeIdx { round_index: idx.0, index: idx.1 })
    }
}

impl From<(usize, usize, usize)> for PackageNode {
    fn from(idx: (usize, usize, usize)) -> (r: Self) {
        PackageNode::Question(QuestionIdx { round_index: idx.0, theme_index: idx.1, index: idx.2 })
    }
}

impl vstd::std_specs::convert::FromSpecImpl<(usize, usize, usize)> for PackageNode {
    open spec fn obeys_from_spec() -> bool {
        true
    }

    open spec fn from_spec(idx: (usize, usize, usize)) -> Self {
        PackageNode::Question(QuestionIdx { round_index: idx.0, theme_index: idx.1, index: idx.2 })
    }
}

/// Going down to a child and back up returns the node: the parent of theme
/// `i` of a round is that round, the parent of question `i` of a theme is
/// that theme, and the child's own index is `i`. The next sibling of a
/// theme or question has the same parent.
pub proof fn law_child_parent(r: RoundIdx, t: ThemeIdx, i: usize)
    ensures
        spec_parent(PackageNode::Theme(ThemeIdx { round_index: r.index, index: i })) == Some(
            PackageNode::Round(r),
        ),
        spec_index(PackageNode::Theme(ThemeIdx { round_index: r.index, index: i })) == i,
        spec_parent(
            PackageNode::Question(
                QuestionIdx { round_index: t.round_index, theme_index: t.index, index: i },
            ),
        ) == Some(PackageNode::Theme(t)),
        spec_index(
            PackageNode::Question(
                QuestionIdx { round_index: t.round_index, theme_index: t.index, index: i },
            ),
        ) == i,
        i < usize::MAX ==> spec_parent(
            PackageNode::Theme(ThemeIdx { round_index: r.index, index: (i + 1) as usize }),
        ) == spec_parent(PackageNode::Theme(ThemeIdx { round_index: r.index, index: i })),
{
}

} // verus!

//! The words on a widget.
//!
//! A caption is kept in spans, so that a coordinate can travel as a number and
//! be printed by the front end in its own number format. [`Caption::numbers`]
//! lists the coordinates to print; [`Caption::join`] puts the printed numbers
//! back between the text.

use crate::model::Coordinate;
use vstd::prelude::*;

verus! {

/// A piece of a caption.
#[derive(Clone, Debug, PartialEq, Eq)]
pub enum Span {
    /// Text to show as it stands.
    Text(String),
    /// A coordinate, to be shown the way the front end prints numbers.
    Number(Coordinate),
}

/// A [`Span`] as contracts see it.
pub enum SpanView {
    Text(Seq<char>),
    Number(Coordinate),
}

impl View for Span {
    type V = SpanView;

    open spec fn view(&self) -> SpanView {
        match self {
            Span::Text(text) => SpanView::Text(text@),
            Span::Number(value) => SpanView::Number(*value),
        }
    }
}

/// The views of a list of spans, in order.
pub open spec fn span_views(spans: Seq<Span>) -> Seq<SpanView> {
    spans.map_values(|span: Span| span@)
}

/// The words on a widget: its spans, read from left to right with nothing in
/// between. Its view is the sequence of their views.
#[derive(Clone, Debug, PartialEq, Eq)]
pub struct Caption {
    pub spans: Vec<Span>,
}

impl View for Caption {
    type V = Seq<SpanView>;

    open spec fn view(&self) -> Seq<SpanView> {
        span_views(self.spans@)
    }
}

/// A caption that is one run of text.
pub open spec fn plain(text: Seq<char>) -> Seq<SpanView> {
    seq![SpanView::Text(text)]
}

/// The coordinates among `spans`, in order.
pub open spec fn numbers_of(spans: Seq<SpanView>) -> Seq<Coordinate>
    decreases spans.len(),
{
    if spans.len() == 0 {
        Seq::empty()
    } else {
        let before = numbers_of(spans.drop_last());
        match spans.last() {
            SpanView::Number(value) => before.push(value),
            SpanView::Text(_) => before,
        }
    }
}

/// The text of `spans` read from left to right, where `printed` holds, in
/// order, what stands for each coordinate.
pub open spec fn joined(spans: Seq<SpanView>, printed: Seq<Seq<char>>) -> Seq<char>
    decreases spans.len(),
{
    if spans.len() == 0 {
        Seq::empty()
    } else {
        let before = joined(spans.drop_last(), printed);
        match spans.last() {
            SpanView::Text(text) => before + text,
            SpanView::Number(_) => before + printed[numbers_of(spans.drop_last()).len() as int],
        }
    }
}

/// The views of a list of strings, in order.
pub open spec fn string_views(strings: Seq<String>) -> Seq<Seq<char>> {
    strings.map_values(|string: String| string@)
}

impl Caption {
    /// The coordinates of this caption, in the order in which they appear.
    pub fn numbers(&self) -> (numbers: Vec<Coordinate>)
        ensures
            numbers@ == numbers_of(self@),
    {
        let mut numbers: Vec<Coordinate> = Vec::new();
        let mut index: usize = 0;
        assert(self@.take(0) =~= Seq::empty());
        while index < self.spans.len()
            invariant
                index <= self.spans.len(),
                numbers@ == numbers_of(self@.take(index as int)),
            decreases self.spans.len() - index,
        {
            assert(self@.take(index + 1).drop_last() =~= self@.take(index as int));
            match &self.spans[index] {
                Span::Number(value) => {
                    numbers.push(*value);
                },
                Span::Text(_) => {},
            }
            index += 1;
        }
        assert(self@.take(index as int) =~= self@);
        numbers
    }

    /// The text of this caption, with `printed[k]` in the place of its
    /// coordinate number `k`. Answers `None` unless `printed` holds exactly
    /// one string for each coordinate.
    pub fn join(&self, printed: &Vec<String>) -> (text: Option<String>)
        ensures
            printed@.len() == numbers_of(self@).len() ==> text is Some && text->0@ == joined(
                self@,
                string_views(printed@),
            ),
            printed@.len() != numbers_of(self@).len() ==> text is None,
    {
        let mut text = String::new();
        let mut used: usize = 0;
        let mut index: usize = 0;
        assert(self@.take(0) =~= Seq::empty());
        while index < self.spans.len()
            invariant
                index <= self.spans.len(),
                used == numbers_of(self@.take(index as int)).len(),
                used <= index,
                used <= printed@.len(),
                text@ == joined(self@.take(index as int), string_views(printed@)),
            decreases self.spans.len() - index,
        {
            assert(self@.take(index + 1).drop_last() =~= self@.take(index as int));
            match &self.spans[index] {
                Span::Text(piece) => {
                    text.append(piece.as_str());
                },
                Span::Number(_) => {
                    if used >= printed.len() {
                        proof {
                            lemma_numbers_grow(self@, index + 1);
                        }
                        return None;
                    }
                    text.append(printed[used].as_str());
                    used += 1;
                },
            }
            index += 1;
        }
        assert(self@.take(index as int) =~= self@);
        if used == printed.len() {
            Some(text)
        } else {
            None
        }
    }
}

/// A run of text at the end of a caption adds its text and no coordinate.
pub proof fn lemma_push_text(spans: Seq<SpanView>, text: Seq<char>, printed: Seq<Seq<char>>)
    ensures
        numbers_of(spans.push(SpanView::Text(text))) == numbers_of(spans),
        joined(spans.push(SpanView::Text(text)), printed) == joined(spans, printed) + text,
{
    assert(spans.push(SpanView::Text(text)).drop_last() =~= spans);
}

/// A coordinate at the end of a caption adds that coordinate, and to the
/// text what is printed for it.
pub proof fn lemma_push_number(spans: Seq<SpanView>, value: Coordinate, printed: Seq<Seq<char>>)
    ensures
        numbers_of(spans.push(SpanView::Number(value))) == numbers_of(spans).push(value),
        joined(spans.push(SpanView::Number(value)), printed) == joined(spans, printed)
            + printed[numbers_of(spans).len() as int],
{
    assert(spans.push(SpanView::Number(value)).drop_last() =~= spans);
}

/// A caption that is one run of text reads as that text.
pub proof fn lemma_plain_text(text: Seq<char>, printed: Seq<Seq<char>>)
    ensures
        numbers_of(plain(text)) == Seq::<Coordinate>::empty(),
        joined(plain(text), printed) == text,
{
    let none = Seq::<SpanView>::empty();
    lemma_push_text(none, text, printed);
    assert(plain(text) =~= none.push(SpanView::Text(text)));
    assert(joined(none, printed) + text =~= text);
}

/// A longer stretch of a caption holds at least as many coordinates.
pub proof fn lemma_numbers_grow(spans: Seq<SpanView>, count: int)
    requires
        0 <= count <= spans.len(),
    ensures
        numbers_of(spans.take(count)).len() <= numbers_of(spans).len(),
    decreases spans.len() - count,
{
    if count < spans.len() {
        assert(spans.take(count + 1).drop_last() =~= spans.take(count));
        lemma_numbers_grow(spans, count + 1);
    } else {
        assert(spans.take(count) =~= spans);
    }
}

/// A caption that is the one run of text `text`.
pub fn plain_caption(text: &str) -> (caption: Caption)
    ensures
        caption@ == plain(text@),
{
    let mut spans: Vec<Span> = Vec::new();
    spans.push(Span::Text(String::from_str(text)));
    let caption = Caption { spans };
    assert(caption@ =~= plain(text@));
    caption
}

} // verus!

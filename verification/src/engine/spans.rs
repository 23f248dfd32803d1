//! Styled text as a terminal widget takes it: lines of spans, each span a
//! text with its colours and boldness.

use super::segments::color_utils::TerminalColor;
use vstd::prelude::*;

verus! {

/// The look of one span; `None` leaves the terminal's own colour in place.
#[derive(Clone, Copy, Debug, PartialEq, Eq, Structural)]
pub struct SpanStyle {
    pub fg: Option<TerminalColor>,
    pub bg: Option<TerminalColor>,
    pub bold: bool,
}

/// The look of text that is drawn as the terminal draws it by default.
pub open spec fn plain_style() -> SpanStyle {
    SpanStyle { fg: None, bg: None, bold: false }
}

/// The look of text in the given foreground colour, nothing else set.
pub open spec fn colored(color: TerminalColor) -> SpanStyle {
    SpanStyle { fg: Some(color), bg: None, bold: false }
}

/// A run of text in one style.
#[derive(Debug)]
pub struct StyledSpan {
    pub content: String,
    pub style: SpanStyle,
}

/// What a [`StyledSpan`] holds.
pub struct StyledSpanView {
    pub content: Seq<char>,
    pub style: SpanStyle,
}

impl View for StyledSpan {
    type V = StyledSpanView;

    open spec fn view(&self) -> StyledSpanView {
        StyledSpanView { content: self.content@, style: self.style }
    }
}

impl Clone for StyledSpan {
    fn clone(&self) -> (r: Self)
        ensures
            r@ == self@,
    {
        StyledSpan { content: self.content.clone(), style: self.style }
    }
}

/// What a run of spans holds, one by one.
pub open spec fn spans_view(spans: Seq<StyledSpan>) -> Seq<StyledSpanView> {
    Seq::new(spans.len(), |i: int| spans[i]@)
}

/// One line of styled text.
#[derive(Debug)]
pub struct StyledLine {
    pub spans: Vec<StyledSpan>,
}

impl View for StyledLine {
    type V = Seq<StyledSpanView>;

    open spec fn view(&self) -> Seq<StyledSpanView> {
        spans_view(self.spans@)
    }
}

impl Clone for StyledLine {
    fn clone(&self) -> (r: Self)
        ensures
            r@ == self@,
    {
        let mut spans: Vec<StyledSpan> = Vec::new();
        let mut i: usize = 0;
        while i < self.spans.len()
            invariant
                i <= self.spans@.len(),
                spans@.len() == i,
                forall|j: int| 0 <= j < i ==> (#[trigger] spans@[j])@ == self.spans@[j]@,
            decreases self.spans@.len() - i,
        {
            spans.push(self.spans[i].clone());
            i += 1;
        }
        assert(spans_view(spans@) =~= spans_view(self.spans@));
        StyledLine { spans }
    }
}

/// What a run of lines holds, line by line.
pub open spec fn text_view(lines: Seq<StyledLine>) -> Seq<Seq<StyledSpanView>> {
    Seq::new(lines.len(), |i: int| lines[i]@)
}

/// A copy of `lines`.
pub fn clone_lines(lines: &Vec<StyledLine>) -> (r: Vec<StyledLine>)
    ensures
        text_view(r@) == text_view(lines@),
{
    let mut r: Vec<StyledLine> = Vec::new();
    let mut i: usize = 0;
    while i < lines.len()
        invariant
            i <= lines@.len(),
            r@.len() == i,
            forall|j: int| 0 <= j < i ==> (#[trigger] r@[j])@ == lines@[j]@,
        decreases lines@.len() - i,
    {
        r.push(lines[i].clone());
        i += 1;
    }
    assert(text_view(r@) =~= text_view(lines@));
    r
}

} // verus!

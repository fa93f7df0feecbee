//! Styled text for terminal popups: colors, span styles, spans and lines,
//! with their mathematical views.
use vstd::prelude::*;

verus! {

/// A terminal color.
#[derive(Debug, Clone, Copy, PartialEq, Eq)]
pub enum PopupColor {
    Black,
    Red,
    Green,
    Yellow,
    Cyan,
    Gray,
    DarkGray,
    White,
}

/// How a span of text is drawn.
#[derive(Debug, Clone, Copy, PartialEq, Eq)]
pub struct SpanStyle {
    pub fg: Option<PopupColor>,
    pub bg: Option<PopupColor>,
    pub bold: bool,
}

/// A piece of text drawn in one style.
#[derive(Debug, Clone)]
pub struct StyledSpan {
    pub text: String,
    pub style: SpanStyle,
}

/// One line of styled text.
#[derive(Debug, Clone)]
pub struct PopupLine {
    pub spans: Vec<StyledSpan>,
}

/// A span as text and style.
pub struct SpanView {
    pub text: Seq<char>,
    pub style: SpanStyle,
}

impl View for StyledSpan {
    type V = SpanView;

    open spec fn view(&self) -> SpanView {
        SpanView { text: self.text@, style: self.style }
    }
}

/// The views of a sequence of spans.
pub open spec fn spans_view(spans: Seq<StyledSpan>) -> Seq<SpanView> {
    spans.map_values(|s: StyledSpan| s@)
}

impl View for PopupLine {
    type V = Seq<SpanView>;

    open spec fn view(&self) -> Seq<SpanView> {
        spans_view(self.spans@)
    }
}

/// The views of a sequence of lines.
pub open spec fn lines_view(lines: Seq<PopupLine>) -> Seq<Seq<SpanView>> {
    lines.map_values(|l: PopupLine| l@)
}

/// The default style: terminal colors, not bold.
pub open spec fn plain() -> SpanStyle {
    SpanStyle { fg: None, bg: None, bold: false }
}

/// Foreground color `c`, not bold.
pub open spec fn fg(c: PopupColor) -> SpanStyle {
    SpanStyle { fg: Some(c), bg: None, bold: false }
}

/// Foreground color `c`, bold.
pub open spec fn fg_bold(c: PopupColor) -> SpanStyle {
    SpanStyle { fg: Some(c), bg: None, bold: true }
}

/// Foreground `f` on background `b`, not bold.
pub open spec fn fg_on(f: PopupColor, b: PopupColor) -> SpanStyle {
    SpanStyle { fg: Some(f), bg: Some(b), bold: false }
}

/// A span view.
pub open spec fn sv(text: Seq<char>, style: SpanStyle) -> SpanView {
    SpanView { text, style }
}

/// The empty line.
pub open spec fn blank() -> Seq<SpanView> {
    seq![]
}

/// The default style.
pub fn style_plain() -> (res: SpanStyle)
    ensures
        res == plain(),
{
    SpanStyle { fg: None, bg: None, bold: false }
}

/// Foreground color `c`, not bold.
pub fn style_fg(c: PopupColor) -> (res: SpanStyle)
    ensures
        res == fg(c),
{
    SpanStyle { fg: Some(c), bg: None, bold: false }
}

/// Foreground color `c`, bold.
pub fn style_fg_bold(c: PopupColor) -> (res: SpanStyle)
    ensures
        res == fg_bold(c),
{
    SpanStyle { fg: Some(c), bg: None, bold: true }
}

/// Foreground `f` on background `b`.
pub fn style_fg_on(f: PopupColor, b: PopupColor) -> (res: SpanStyle)
    ensures
        res == fg_on(f, b),
{
    SpanStyle { fg: Some(f), bg: Some(b), bold: false }
}

/// A span of `text` in `style`.
pub fn span(text: &str, style: SpanStyle) -> (res: StyledSpan)
    ensures
        res@ == sv(text@, style),
{
    StyledSpan { text: text.to_string(), style }
}

/// A span of owned `text` in `style`.
pub fn span_owned(text: String, style: SpanStyle) -> (res: StyledSpan)
    ensures
        res@ == sv(text@, style),
{
    StyledSpan { text, style }
}

/// A line made of `spans`.
pub fn line_of(spans: Vec<StyledSpan>) -> (res: PopupLine)
    ensures
        res@ == spans_view(spans@),
{
    PopupLine { spans }
}

/// The empty line.
pub fn blank_line() -> (res: PopupLine)
    ensures
        res@ == blank(),
{
    let res = PopupLine { spans: Vec::new() };
    assert(res@ =~= blank());
    res
}

/// Appends a span to a list of spans.
pub fn push_span(spans: &mut Vec<StyledSpan>, s: StyledSpan)
    ensures
        spans_view(final(spans)@) == spans_view(old(spans)@).push(s@),
{
    spans.push(s);
    assert(spans_view(spans@) =~= spans_view(old(spans)@).push(s@));
}

/// Appends a line to a list of lines.
pub fn push_line(lines: &mut Vec<PopupLine>, l: PopupLine)
    ensures
        lines_view(final(lines)@) == lines_view(old(lines)@).push(l@),
{
    lines.push(l);
    assert(lines_view(lines@) =~= lines_view(old(lines)@).push(l@));
}

} // verus!

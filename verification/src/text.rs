use vstd::prelude::*;

verus! {

/// Foreground colours used by the user interface.
#[derive(Clone, Copy, Debug, PartialEq, Eq, Structural)]
pub enum Color {
    Black,
    White,
    DarkGray,
    Yellow,
    Cyan,
    Green,
    Red,
}

/// How a piece of text is drawn.
#[derive(Clone, Copy, Debug, PartialEq, Eq, Structural)]
pub struct SpanStyle {
    /// Foreground colour; `None` keeps the terminal's default.
    pub fg: Option<Color>,
    pub bold: bool,
    pub slow_blink: bool,
}

/// A piece of the text of a span.
#[derive(Clone, Debug)]
pub enum TextPiece {
    /// Literal text.
    Str(String),
    /// A number of seconds, written by the application's duration formatter.
    Secs(u64),
}

/// A run of text drawn in one style.
#[derive(Clone, Debug)]
pub struct Span {
    pub pieces: Vec<TextPiece>,
    pub style: SpanStyle,
}

/// One line of text: a sequence of spans.
#[derive(Clone, Debug)]
pub struct TextLine {
    pub spans: Vec<Span>,
}

/// A [`TextPiece`] with its string taken by its characters.
pub enum PieceView {
    Str(Seq<char>),
    Secs(u64),
}

/// A [`Span`] as plain values.
pub struct SpanView {
    pub pieces: Seq<PieceView>,
    pub style: SpanStyle,
}

impl View for TextPiece {
    type V = PieceView;

    open spec fn view(&self) -> PieceView {
        match self {
            TextPiece::Str(s) => PieceView::Str(s@),
            TextPiece::Secs(n) => PieceView::Secs(*n),
        }
    }
}

impl View for Span {
    type V = SpanView;

    open spec fn view(&self) -> SpanView {
        SpanView { pieces: self.pieces@.map_values(|p: TextPiece| p@), style: self.style }
    }
}

impl View for TextLine {
    type V = Seq<SpanView>;

    open spec fn view(&self) -> Seq<SpanView> {
        self.spans@.map_values(|s: Span| s@)
    }
}

/// The default style.
pub open spec fn plain_style() -> SpanStyle {
    SpanStyle { fg: None, bold: false, slow_blink: false }
}

/// A style with a foreground colour.
pub open spec fn fg_style(c: Color) -> SpanStyle {
    SpanStyle { fg: Some(c), bold: false, slow_blink: false }
}

/// A bold style with a foreground colour.
pub open spec fn bold_style(c: Color) -> SpanStyle {
    SpanStyle { fg: Some(c), bold: true, slow_blink: false }
}

/// A span made of one literal string.
pub open spec fn str_span(s: Seq<char>, style: SpanStyle) -> SpanView {
    SpanView { pieces: seq![PieceView::Str(s)], style }
}

/// A line made of one literal span.
pub open spec fn str_line(s: Seq<char>, style: SpanStyle) -> Seq<SpanView> {
    seq![str_span(s, style)]
}

/// The empty line.
pub open spec fn empty_line() -> Seq<SpanView> {
    str_line(Seq::empty(), plain_style())
}

/// The style with the given colour, weight and blinking.
pub fn style(fg: Option<Color>, bold: bool, slow_blink: bool) -> (s: SpanStyle)
    ensures
        s == (SpanStyle { fg, bold, slow_blink }),
{
    SpanStyle { fg, bold, slow_blink }
}

/// A span holding a copy of `s`.
pub fn str_span_of(s: &str, st: SpanStyle) -> (r: Span)
    ensures
        r@ == str_span(s@, st),
{
    let mut pieces: Vec<TextPiece> = Vec::new();
    pieces.push(TextPiece::Str(String::from_str(s)));
    let r = Span { pieces, style: st };
    assert(r@.pieces =~= seq![PieceView::Str(s@)]);
    r
}

/// A line holding a single span.
pub fn line_of(sp: Span) -> (r: TextLine)
    ensures
        r@ == seq![sp@],
{
    let mut spans: Vec<Span> = Vec::new();
    spans.push(sp);
    let r = TextLine { spans };
    assert(r@ =~= seq![sp@]);
    r
}

/// A line holding two spans.
pub fn line_of2(a: Span, b: Span) -> (r: TextLine)
    ensures
        r@ == seq![a@, b@],
{
    let mut spans: Vec<Span> = Vec::new();
    spans.push(a);
    spans.push(b);
    let r = TextLine { spans };
    assert(r@ =~= seq![a@, b@]);
    r
}

/// The empty line.
pub fn empty_text_line() -> (r: TextLine)
    ensures
        r@ == empty_line(),
{
    proof {
        reveal_strlit("");
        assert(""@ =~= Seq::<char>::empty());
    }
    let sp = str_span_of("", style(None, false, false));
    line_of(sp)
}

} // verus!

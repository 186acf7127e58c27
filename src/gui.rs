use vstd::prelude::*;
use crate::text::{
    center, concat, lemma_concat_step, lines, pad_right, pieces_view, push_centered, push_char,
    push_left, push_repeat, repeat, text_lines, to_chars, widest, widest_of,
};

verus! {

/// A horizontal rule of `w` fill characters between two corners, ending the line.
pub open spec fn rule(fill: char, w: nat) -> Seq<char> {
    seq!['+'] + repeat(fill, w) + seq!['+', '\n']
}

/// Each line centred in a field of `w` between two bars.
pub open spec fn button_body(ls: Seq<Seq<char>>, w: nat) -> Seq<char> {
    concat(ls.map_values(|l: Seq<char>| seq!['|'] + center(l, w) + seq!['|', '\n']))
}

/// Each line left-aligned in a field of `w` between two bars and a space on each side.
pub open spec fn window_body(ls: Seq<Seq<char>>, w: nat) -> Seq<char> {
    concat(ls.map_values(|l: Seq<char>| seq!['|', ' '] + pad_right(l, w) + seq![' ', '|', '\n']))
}

/// A piece of a text user interface that knows its width and draws itself as text.
pub trait Widget {
    /// The width the widget takes, in characters.
    spec fn natural_width(&self) -> nat;

    /// The text the widget draws.
    spec fn rendering(&self) -> Seq<char>;

    /// Whether the widths involved in drawing fit in a `usize`.
    spec fn fits(&self) -> bool;

    /// Natural width of `self`.
    fn width(&self) -> (r: usize)
        requires
            self.fits(),
        ensures
            r == self.natural_width(),
    ;

    /// Draw the widget into a buffer.
    fn draw_into(&self, buffer: &mut String)
        requires
            self.fits(),
        ensures
            final(buffer)@ == old(buffer)@ + self.rendering(),
    ;
}

/// A line of text, or several.
pub struct Label {
    label: String,
}

impl View for Label {
    type V = Seq<char>;

    closed spec fn view(&self) -> Seq<char> {
        self.label@
    }
}

impl Label {
    pub fn new(label: &str) -> (r: Label)
        ensures
            r@ == label@,
    {
        Label { label: label.to_owned() }
    }
}

impl Widget for Label {
    /// The length of the longest line.
    open spec fn natural_width(&self) -> nat {
        widest(lines(self@))
    }

    /// The text centred in its own width, and a line end.
    open spec fn rendering(&self) -> Seq<char> {
        center(self@, self.natural_width()) + seq!['\n']
    }

    open spec fn fits(&self) -> bool {
        true
    }

    fn width(&self) -> (r: usize) {
        widest_of(&text_lines(self.label.as_str()))
    }

    fn draw_into(&self, buffer: &mut String) {
        let w = self.width();
        let text = to_chars(self.label.as_str());
        push_centered(buffer, &text, w);
        push_char(buffer, '\n');
    }
}

/// A framed label with an action to run when it is clicked.
pub struct Button<F: FnMut()> {
    label: Label,
    callback: F,
}

impl<F: FnMut()> Button<F> {
    /// The text on the button.
    pub closed spec fn text(&self) -> Seq<char> {
        self.label@
    }

    /// The action the button runs.
    pub closed spec fn action(&self) -> F {
        self.callback
    }

    pub fn new(label: &str, callback: F) -> (r: Button<F>)
        ensures
            r.text() == label@,
            r.action() == callback,
    {
        Button { label: Label::new(label), callback }
    }
}

impl<F: FnMut()> Widget for Button<F> {
    /// The width of its label.
    open spec fn natural_width(&self) -> nat {
        widest(lines(self.text()))
    }

    /// The lines of the drawn label, each between bars, with a rule above and below.
    open spec fn rendering(&self) -> Seq<char> {
        let w = self.natural_width();
        let drawn = center(self.text(), w) + seq!['\n'];
        rule('-', w) + button_body(lines(drawn), w) + rule('-', w)
    }

    open spec fn fits(&self) -> bool {
        true
    }

    fn width(&self) -> (r: usize) {
        self.label.width()
    }

    fn draw_into(&self, buffer: &mut String) {
        let w = self.width();
        let mut label = String::new();
        self.label.draw_into(&mut label);
        push_rule(buffer, '-', w);
        let ls = text_lines(label.as_str());
        let ghost parts = lines(label@).map_values(
            |l: Seq<char>| seq!['|'] + center(l, w as nat) + seq!['|', '\n'],
        );
        let ghost start = buffer@;
        let mut i: usize = 0;
        while i < ls.len()
            invariant
                pieces_view(ls@) == lines(label@),
                parts == lines(label@).map_values(
                    |l: Seq<char>| seq!['|'] + center(l, w as nat) + seq!['|', '\n'],
                ),
                i <= ls@.len(),
                buffer@ == start + concat(parts.take(i as int)),
            decreases ls.len() - i,
        {
            proof {
                lemma_concat_step(parts, i as int);
                assert(pieces_view(ls@)[i as int] == ls@[i as int]@);
            }
            push_char(buffer, '|');
            push_centered(buffer, &ls[i], w);
            push_char(buffer, '|');
            push_char(buffer, '\n');
            i = i + 1;
            assert(buffer@ =~= start + concat(parts.take(i as int)));
        }
        assert(parts.take(ls@.len() as int) =~= parts);
        push_rule(buffer, '-', w);
        assert(buffer@ =~= old(buffer)@ + self.rendering());
    }
}

/// Appends a rule of `w` fill characters.
fn push_rule(buffer: &mut String, fill: char, w: usize)
    ensures
        final(buffer)@ == old(buffer)@ + rule(fill, w as nat),
{
    push_char(buffer, '+');
    push_repeat(buffer, fill, w);
    push_char(buffer, '+');
    push_char(buffer, '\n');
    assert(buffer@ =~= old(buffer)@ + rule(fill, w as nat));
}

/// The widest natural width among `ws`, or zero where there is none.
pub open spec fn widest_widget(ws: Seq<Box<dyn Widget>>) -> nat
    decreases ws.len(),
{
    if ws.len() == 0 {
        0
    } else {
        let m = widest_widget(ws.drop_last());
        if ws.last().natural_width() > m {
            ws.last().natural_width()
        } else {
            m
        }
    }
}

/// What the widgets draw, one after another.
pub open spec fn renderings(ws: Seq<Box<dyn Widget>>) -> Seq<char>
    decreases ws.len(),
{
    if ws.len() == 0 {
        Seq::empty()
    } else {
        renderings(ws.drop_last()) + ws.last().rendering()
    }
}

/// A titled frame around a column of widgets.
pub struct Window {
    title: String,
    widgets: Vec<Box<dyn Widget>>,
}

impl Window {
    /// The title.
    pub closed spec fn title_view(&self) -> Seq<char> {
        self.title@
    }

    /// The widgets, in the order they were added.
    pub closed spec fn widgets_view(&self) -> Seq<Box<dyn Widget>> {
        self.widgets@
    }

    /// The width inside the frame: that of the title or of the widest widget.
    pub open spec fn inner_width_spec(&self) -> nat {
        let t = self.title_view().len();
        let m = widest_widget(self.widgets_view());
        if t > m {
            t
        } else {
            m
        }
    }

    pub fn new(title: &str) -> (r: Window)
        ensures
            r.title_view() == title@,
            r.widgets_view() == Seq::<Box<dyn Widget>>::empty(),
    {
        Window { title: title.to_owned(), widgets: Vec::new() }
    }

    pub fn add_widget(&mut self, widget: Box<dyn Widget>)
        ensures
            final(self).title_view() == old(self).title_view(),
            final(self).widgets_view() == old(self).widgets_view().push(widget),
    {
        self.widgets.push(widget);
    }

    pub fn inner_width(&self) -> (r: usize)
        requires
            forall|i: int| 0 <= i < self.widgets_view().len() ==> #[trigger] self.widgets_view()[i].fits(),
        ensures
            r == self.inner_width_spec(),
    {
        let mut m: usize = 0;
        let mut i: usize = 0;
        while i < self.widgets.len()
            invariant
                forall|j: int| 0 <= j < self.widgets_view().len() ==> #[trigger] self.widgets_view()[j].fits(),
                i <= self.widgets@.len(),
                m == widest_widget(self.widgets@.take(i as int)),
            decreases self.widgets.len() - i,
        {
            assert(self.widgets@.take(i + 1).drop_last() =~= self.widgets@.take(i as int));
            assert(self.widgets_view()[i as int].fits());
            let w = self.widgets[i].width();
            if w > m {
                m = w;
            }
            i = i + 1;
        }
        assert(self.widgets@.take(self.widgets@.len() as int) =~= self.widgets@);
        let t = self.title.as_str().unicode_len();
        if t > m {
            t
        } else {
            m
        }
    }
}

impl Widget for Window {
    /// The inner width and a border and a space on each side.
    open spec fn natural_width(&self) -> nat {
        self.inner_width_spec() + 4
    }

    /// A frame holding the centred title, a double rule, and the lines the
    /// widgets draw, each left-aligned.
    open spec fn rendering(&self) -> Seq<char> {
        let iw = self.inner_width_spec();
        rule('-', iw + 2) + seq!['|', ' '] + center(self.title_view(), iw) + seq![' ', '|', '\n']
            + rule('=', iw + 2) + window_body(lines(renderings(self.widgets_view())), iw)
            + rule('-', iw + 2)
    }

    open spec fn fits(&self) -> bool {
        &&& self.inner_width_spec() + 4 <= usize::MAX
        &&& forall|i: int| 0 <= i < self.widgets_view().len() ==> #[trigger] self.widgets_view()[i].fits()
    }

    fn width(&self) -> (r: usize) {
        self.inner_width() + 4
    }

    fn draw_into(&self, buffer: &mut String) {
        let mut inner = String::new();
        let mut k: usize = 0;
        while k < self.widgets.len()
            invariant
                self.fits(),
                k <= self.widgets@.len(),
                inner@ == renderings(self.widgets@.take(k as int)),
            decreases self.widgets.len() - k,
        {
            assert(self.widgets@.take(k + 1).drop_last() =~= self.widgets@.take(k as int));
            assert(self.widgets_view()[k as int].fits());
            self.widgets[k].draw_into(&mut inner);
            k = k + 1;
        }
        assert(self.widgets@.take(self.widgets@.len() as int) =~= self.widgets@);
        let iw = self.inner_width();
        push_rule(buffer, '-', iw + 2);
        push_char(buffer, '|');
        push_char(buffer, ' ');
        let title = to_chars(self.title.as_str());
        push_centered(buffer, &title, iw);
        push_char(buffer, ' ');
        push_char(buffer, '|');
        push_char(buffer, '\n');
        push_rule(buffer, '=', iw + 2);
        let ls = text_lines(inner.as_str());
        let ghost parts = lines(inner@).map_values(
            |l: Seq<char>| seq!['|', ' '] + pad_right(l, iw as nat) + seq![' ', '|', '\n'],
        );
        let ghost start = buffer@;
        let mut i: usize = 0;
        while i < ls.len()
            invariant
                pieces_view(ls@) == lines(inner@),
                parts == lines(inner@).map_values(
                    |l: Seq<char>| seq!['|', ' '] + pad_right(l, iw as nat) + seq![' ', '|', '\n'],
                ),
                i <= ls@.len(),
                buffer@ == start + concat(parts.take(i as int)),
            decreases ls.len() - i,
        {
            proof {
                lemma_concat_step(parts, i as int);
                assert(pieces_view(ls@)[i as int] == ls@[i as int]@);
            }
            push_char(buffer, '|');
            push_char(buffer, ' ');
            push_left(buffer, &ls[i], iw);
            push_char(buffer, ' ');
            push_char(buffer, '|');
            push_char(buffer, '\n');
            i = i + 1;
            assert(buffer@ =~= start + concat(parts.take(i as int)));
        }
        assert(parts.take(ls@.len() as int) =~= parts);
        push_rule(buffer, '-', iw + 2);
        assert(buffer@ =~= old(buffer)@ + self.rendering());
    }
}

} // verus!

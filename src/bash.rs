use vstd::prelude::*;
use vstd::string::StringExecFns;

use crate::style::{prefix_of, reset, style_prefix, style_suffix};

verus! {

/// `code` between Bash's markers of non-printing text, `\[` and `\]`, so that
/// Bash leaves it out when it measures the prompt.
pub open spec fn marked(code: Seq<char>) -> Seq<char> {
    seq!['\\', '['] + code + seq!['\\', ']']
}

/// One coloured text for a Bash prompt: marked prefix, text, marked reset.
pub open spec fn bash_span(c: u8, text: Seq<char>) -> Seq<char> {
    marked(prefix_of(c)) + text + marked(reset())
}

/// Each text of `spans` after its own marked prefix, with no reset.
pub open spec fn bash_body(spans: Seq<(Seq<char>, u8)>) -> Seq<char>
    decreases spans.len(),
{
    if spans.len() == 0 {
        seq![]
    } else {
        bash_body(spans.drop_last()) + marked(prefix_of(spans.last().1)) + spans.last().0
    }
}

/// Several coloured texts for a Bash prompt: each after its own marked
/// prefix, then a single marked reset after the last.
pub open spec fn bash_run(spans: Seq<(Seq<char>, u8)>) -> Seq<char> {
    if spans.len() == 0 {
        seq![]
    } else {
        bash_body(spans) + marked(reset())
    }
}

/// Appends `code` between the markers of non-printing text.
fn push_marked(buf: &mut String, code: &str)
    ensures
        final(buf)@ == old(buf)@ + marked(code@),
{
    let open = "\\[";
    let close = "\\]";
    proof {
        reveal_strlit("\\[");
        reveal_strlit("\\]");
    }
    buf.append(open);
    buf.append(code);
    buf.append(close);
    assert(open@ =~= seq!['\\', '[']);
    assert(close@ =~= seq!['\\', ']']);
    assert(final(buf)@ =~= old(buf)@ + marked(code@));
}

/// A text and the colour it is shown in, for a Bash prompt.
pub struct BashString {
    pub style: u8,
    pub string: String,
}

/// The text and colour of a span.
pub open spec fn span_of(s: BashString) -> (Seq<char>, u8) {
    (s.string@, s.style)
}

impl BashString {
    /// `string` shown in colour `style`.
    pub fn new(style: u8, string: &str) -> (r: BashString)
        ensures
            r.style == style,
            r.string@ == string@,
    {
        BashString { style, string: String::from_str(string) }
    }

    /// The text with its style codes, each marked as non-printing.
    pub fn render(&self) -> (r: String)
        ensures
            r@ == bash_span(self.style, self.string@),
    {
        let mut buf = String::new();
        let prefix = style_prefix(self.style);
        push_marked(&mut buf, prefix.as_str());
        buf.append(self.string.as_str());
        let suffix = style_suffix(self.style);
        push_marked(&mut buf, suffix.as_str());
        assert(buf@ =~= bash_span(self.style, self.string@));
        buf
    }
}

/// Texts shown one after the other in a Bash prompt; all of them are bold, so
/// one reset after the last is enough.
pub struct BashStrings {
    pub strings: Vec<BashString>,
}

impl BashStrings {
    /// The given texts, in order.
    pub fn new(strings: Vec<BashString>) -> (r: BashStrings)
        ensures
            r.strings@ == strings@,
    {
        BashStrings { strings }
    }

    /// The texts, each after its marked prefix, and a marked reset after the last.
    pub fn render(&self) -> (r: String)
        ensures
            r@ == bash_run(self.strings@.map_values(|s: BashString| span_of(s))),
    {
        let ghost spans = self.strings@.map_values(|s: BashString| span_of(s));
        let mut buf = String::new();
        let n = self.strings.len();
        let mut i: usize = 0;
        while i < n
            invariant
                n == self.strings@.len(),
                spans == self.strings@.map_values(|s: BashString| span_of(s)),
                i <= n,
                buf@ == bash_body(spans.take(i as int)),
            decreases n - i,
        {
            let s = &self.strings[i];
            let prefix = style_prefix(s.style);
            push_marked(&mut buf, prefix.as_str());
            buf.append(s.string.as_str());
            assert(spans.take(i + 1).drop_last() =~= spans.take(i as int));
            i = i + 1;
        }
        assert(spans.take(n as int) =~= spans);
        if n > 0 {
            let suffix = style_suffix(self.strings[n - 1].style);
            push_marked(&mut buf, suffix.as_str());
        }
        buf
    }
}

} // verus!

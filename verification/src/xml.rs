//! XML text: attribute escaping and an indenting element writer.

use vstd::prelude::*;
use crate::text::push_char;

verus! {

/// The text that stands for one character inside an attribute value.
pub open spec fn escape_char(c: char) -> Seq<char> {
    if c == '&' {
        "&amp;"@
    } else if c == '<' {
        "&lt;"@
    } else if c == '>' {
        "&gt;"@
    } else if c == '"' {
        "&quot;"@
    } else if c == '\'' {
        "&apos;"@
    } else {
        seq![c]
    }
}

/// The escaped form of a whole text: each character replaced by its escape.
pub open spec fn escape_text(s: Seq<char>) -> Seq<char>
    decreases s.len(),
{
    if s.len() == 0 {
        Seq::empty()
    } else {
        escape_text(s.drop_last()) + escape_char(s.last())
    }
}

/// Escape XML special characters in attribute values.
pub fn xml_escape(s: &str) -> (out: String)
    ensures
        out@ == escape_text(s@),
{
    let mut out = String::new();
    for c in iter: s.chars()
        invariant
            iter.seq() == s@,
            out@ == escape_text(s@.take(iter.index() as int)),
    {
        let ghost before = s@.take(iter.index() as int);
        assert(s@.take(iter.index() + 1).drop_last() =~= before);
        if c == '&' {
            out.append("&amp;");
        } else if c == '<' {
            out.append("&lt;");
        } else if c == '>' {
            out.append("&gt;");
        } else if c == '"' {
            out.append("&quot;");
        } else if c == '\'' {
            out.append("&apos;");
        } else {
            push_char(&mut out, c);
        }
    }
    assert(s@.take(s@.len() as int) =~= s@);
    out
}

/// A character that may not stand unescaped inside a quoted attribute value.
pub open spec fn is_markup_char(c: char) -> bool {
    c == '<' || c == '>' || c == '"' || c == '\''
}

proof fn lemma_escape_char_no_markup(c: char)
    ensures
        forall|i: int| 0 <= i < escape_char(c).len() ==> !is_markup_char(#[trigger] escape_char(c)[i]),
{
    reveal_strlit("&amp;");
    reveal_strlit("&lt;");
    reveal_strlit("&gt;");
    reveal_strlit("&quot;");
    reveal_strlit("&apos;");
}

/// Escaped text holds no `<`, `>`, `"` or `'`: it cannot end the quoted value or open a tag.
pub proof fn escaped_text_has_no_markup(s: Seq<char>)
    ensures
        forall|i: int| 0 <= i < escape_text(s).len() ==> !is_markup_char(#[trigger] escape_text(s)[i]),
    decreases s.len(),
{
    if s.len() > 0 {
        escaped_text_has_no_markup(s.drop_last());
        lemma_escape_char_no_markup(s.last());
        let a = escape_text(s.drop_last());
        let b = escape_char(s.last());
        assert forall|i: int| 0 <= i < escape_text(s).len() implies !is_markup_char(#[trigger] escape_text(s)[i]) by {
            if i < a.len() {
                assert(escape_text(s)[i] == a[i]);
            } else {
                assert(escape_text(s)[i] == b[i - a.len()]);
            }
        }
    }
}

/// The text that an XML reader makes of an attribute value: the five entities
/// `&amp;`, `&lt;`, `&gt;`, `&quot;`, `&apos;` stand for their characters.
pub open spec fn unescape_text(t: Seq<char>) -> Seq<char>
    decreases t.len(),
{
    if t.len() == 0 {
        Seq::empty()
    } else if t.len() >= 5 && t.take(5) == "&amp;"@ {
        seq!['&'] + unescape_text(t.skip(5))
    } else if t.len() >= 4 && t.take(4) == "&lt;"@ {
        seq!['<'] + unescape_text(t.skip(4))
    } else if t.len() >= 4 && t.take(4) == "&gt;"@ {
        seq!['>'] + unescape_text(t.skip(4))
    } else if t.len() >= 6 && t.take(6) == "&quot;"@ {
        seq!['"'] + unescape_text(t.skip(6))
    } else if t.len() >= 6 && t.take(6) == "&apos;"@ {
        seq!['\''] + unescape_text(t.skip(6))
    } else {
        seq![t[0]] + unescape_text(t.skip(1))
    }
}

proof fn lemma_escape_text_front(s: Seq<char>)
    requires
        s.len() > 0,
    ensures
        escape_text(s) == escape_char(s[0]) + escape_text(s.skip(1)),
    decreases s.len(),
{
    if s.len() == 1 {
        assert(s.drop_last() =~= Seq::<char>::empty());
        assert(s.skip(1) =~= Seq::<char>::empty());
        assert(escape_text(s.skip(1)) =~= Seq::<char>::empty());
        assert(escape_text(s) =~= escape_char(s[0]));
    } else {
        lemma_escape_text_front(s.drop_last());
        assert(s.drop_last().skip(1) =~= s.skip(1).drop_last());
        assert(s.skip(1).last() == s.last());
        assert(s.drop_last()[0] == s[0]);
        assert(escape_text(s) =~= escape_char(s[0]) + escape_text(s.skip(1)));
    }
}

/// Escaping loses nothing: reading the escaped text back gives the original text.
pub proof fn escape_round_trip(s: Seq<char>)
    ensures
        unescape_text(escape_text(s)) == s,
    decreases s.len(),
{
    reveal_strlit("&amp;");
    reveal_strlit("&lt;");
    reveal_strlit("&gt;");
    reveal_strlit("&quot;");
    reveal_strlit("&apos;");
    if s.len() == 0 {
        assert(escape_text(s) =~= Seq::<char>::empty());
    } else {
        lemma_escape_text_front(s);
        escape_round_trip(s.skip(1));
        let e = escape_char(s[0]);
        let rest = escape_text(s.skip(1));
        let t = e + rest;
        assert(t.skip(e.len() as int) =~= rest);
        assert(t.take(e.len() as int) =~= e);
        assert(forall|j: int| 0 <= j < e.len() ==> t[j] == e[j]);
        if s[0] == '&' {
            assert(t.take(5) =~= "&amp;"@);
        } else if s[0] == '<' {
            assert(t.take(4) =~= "&lt;"@);
            assert(t[1] == 'l');
            assert(t.len() < 5 || t.take(5)[1] != "&amp;"@[1]);
        } else if s[0] == '>' {
            assert(t.take(4) =~= "&gt;"@);
            assert(t[1] == 'g');
            assert(t.len() < 5 || t.take(5)[1] != "&amp;"@[1]);
            assert(t.take(4) != "&lt;"@);
        } else if s[0] == '"' {
            assert(t.take(6) =~= "&quot;"@);
            assert(t[1] == 'q');
            assert(t.take(5)[1] != "&amp;"@[1]);
            assert(t.take(4)[1] != "&lt;"@[1]);
            assert(t.take(4)[1] != "&gt;"@[1]);
        } else if s[0] == '\'' {
            assert(t.take(6) =~= "&apos;"@);
            assert(t[1] == 'a');
            assert(t[2] == 'p');
            assert(t.take(5)[2] != "&amp;"@[2]);
            assert(t.take(4)[1] != "&lt;"@[1]);
            assert(t.take(4)[1] != "&gt;"@[1]);
            assert(t.take(6)[1] != "&quot;"@[1]);
        } else {
            assert(e =~= seq![s[0]]);
            assert(t[0] == s[0]);
            if s[0] != '&' {
                assert(t.len() < 5 || t.take(5)[0] != "&amp;"@[0]);
                assert(t.len() < 4 || t.take(4)[0] != "&lt;"@[0]);
                assert(t.len() < 4 || t.take(4)[0] != "&gt;"@[0]);
                assert(t.len() < 6 || t.take(6)[0] != "&quot;"@[0]);
                assert(t.len() < 6 || t.take(6)[0] != "&apos;"@[0]);
            }
        }
        assert(unescape_text(t) =~= s);
    }
}

/// `n` levels of indentation, two spaces each.
pub open spec fn indent_text(n: nat) -> Seq<char>
    decreases n,
{
    if n == 0 {
        Seq::empty()
    } else {
        indent_text((n - 1) as nat) + "  "@
    }
}

/// The attributes of a tag as text: ` key="escaped value"` for each pair, in order.
pub open spec fn attrs_text(attrs: Seq<(Seq<char>, Seq<char>)>) -> Seq<char>
    decreases attrs.len(),
{
    if attrs.len() == 0 {
        Seq::empty()
    } else {
        attrs_text(attrs.drop_last()) + " "@ + attrs.last().0 + "=\""@ + escape_text(attrs.last().1)
            + "\""@
    }
}

/// The characters of each key and value of an attribute list.
pub open spec fn attr_views(attrs: Seq<(&str, &str)>) -> Seq<(Seq<char>, Seq<char>)> {
    Seq::new(attrs.len(), |i: int| (attrs[i].0@, attrs[i].1@))
}

/// The line that opens an element.
pub open spec fn open_line(indent: nat, name: Seq<char>, attrs: Seq<(Seq<char>, Seq<char>)>) -> Seq<char> {
    indent_text(indent) + "<"@ + name + attrs_text(attrs) + ">\n"@
}

/// The line of an element without content.
pub open spec fn leaf_line(indent: nat, name: Seq<char>, attrs: Seq<(Seq<char>, Seq<char>)>) -> Seq<char> {
    indent_text(indent) + "<"@ + name + attrs_text(attrs) + "/>\n"@
}

/// The line that closes an element.
pub open spec fn close_line(indent: nat, name: Seq<char>) -> Seq<char> {
    indent_text(indent) + "</"@ + name + ">\n"@
}

/// How each character is written inside an attribute value: `&`, `<`, `>`, `"`
/// and `'` become `&amp;`, `&lt;`, `&gt;`, `&quot;`, `&apos;`; every other
/// character stands for itself. Escaping a text escapes each character in turn.
pub proof fn escape_table(c: char, a: Seq<char>, b: Seq<char>)
    ensures
        escape_char('&') == seq!['&', 'a', 'm', 'p', ';'],
        escape_char('<') == seq!['&', 'l', 't', ';'],
        escape_char('>') == seq!['&', 'g', 't', ';'],
        escape_char('"') == seq!['&', 'q', 'u', 'o', 't', ';'],
        escape_char('\'') == seq!['&', 'a', 'p', 'o', 's', ';'],
        (c != '&' && c != '<' && c != '>' && c != '"' && c != '\'') ==> escape_char(c) == seq![c],
        escape_text(Seq::empty()) == Seq::<char>::empty(),
        escape_text(seq![c]) == escape_char(c),
        escape_text(a + b) == escape_text(a) + escape_text(b),
    decreases b.len(),
{
    reveal_strlit("&amp;");
    reveal_strlit("&lt;");
    reveal_strlit("&gt;");
    reveal_strlit("&quot;");
    reveal_strlit("&apos;");
    assert("&amp;"@ =~= seq!['&', 'a', 'm', 'p', ';']);
    assert("&lt;"@ =~= seq!['&', 'l', 't', ';']);
    assert("&gt;"@ =~= seq!['&', 'g', 't', ';']);
    assert("&quot;"@ =~= seq!['&', 'q', 'u', 'o', 't', ';']);
    assert("&apos;"@ =~= seq!['&', 'a', 'p', 'o', 's', ';']);
    assert(seq![c].drop_last() =~= Seq::<char>::empty());
    assert(seq![c].last() == c);
    assert(escape_text(Seq::<char>::empty()) =~= Seq::<char>::empty());
    assert(Seq::<char>::empty() + escape_char(c) =~= escape_char(c));
    assert(escape_text(seq![c]) =~= escape_char(c));
    if b.len() == 0 {
        assert(a + b =~= a);
    } else {
        escape_table(c, a, b.drop_last());
        assert((a + b).drop_last() =~= a + b.drop_last());
        assert((a + b).last() == b.last());
        assert(escape_text(a + b) =~= escape_text(a) + escape_text(b));
    }
}

/// `n` levels of indentation are `2 * n` spaces.
pub proof fn indent_is_two_spaces_per_level(n: nat)
    ensures
        indent_text(n).len() == 2 * n,
        forall|i: int| 0 <= i < indent_text(n).len() ==> #[trigger] indent_text(n)[i] == ' ',
    decreases n,
{
    reveal_strlit("  ");
    assert("  "@ =~= seq![' ', ' ']);
    if n > 0 {
        indent_is_two_spaces_per_level((n - 1) as nat);
        let a = indent_text((n - 1) as nat);
        assert forall|i: int| 0 <= i < indent_text(n).len() implies #[trigger] indent_text(n)[i] == ' ' by {
            if i < a.len() {
                assert(indent_text(n)[i] == a[i]);
            } else {
                assert(indent_text(n)[i] == "  "@[i - a.len()]);
            }
        }
    }
}

/// Each attribute is written as a space, its key, `="`, its escaped value and `"`,
/// in the order given; the attributes of two lists are those of the first, then
/// those of the second.
pub proof fn attrs_written_in_order(
    a: Seq<(Seq<char>, Seq<char>)>,
    b: Seq<(Seq<char>, Seq<char>)>,
    k: Seq<char>,
    v: Seq<char>,
)
    ensures
        attrs_text(Seq::empty()) == Seq::<char>::empty(),
        attrs_text(seq![(k, v)]) == seq![' '] + k + seq!['=', '"'] + escape_text(v) + seq!['"'],
        attrs_text(a + b) == attrs_text(a) + attrs_text(b),
    decreases b.len(),
{
    reveal_strlit(" ");
    reveal_strlit("=\"");
    reveal_strlit("\"");
    assert(" "@ =~= seq![' ']);
    assert("=\""@ =~= seq!['=', '"']);
    assert("\""@ =~= seq!['"']);
    let one = seq![(k, v)];
    assert(one.drop_last() =~= Seq::<(Seq<char>, Seq<char>)>::empty());
    assert(one.last() == (k, v));
    assert(attrs_text(Seq::<(Seq<char>, Seq<char>)>::empty()) =~= Seq::<char>::empty());
    assert(attrs_text(one) == attrs_text(one.drop_last()) + " "@ + k + "=\""@ + escape_text(v) + "\""@);
    assert(attrs_text(one) =~= seq![' '] + k + seq!['=', '"'] + escape_text(v) + seq!['"']);
    if b.len() == 0 {
        assert(a + b =~= a);
        assert(attrs_text(a + b) =~= attrs_text(a) + attrs_text(b));
    } else {
        attrs_written_in_order(a, b.drop_last(), k, v);
        assert((a + b).drop_last() =~= a + b.drop_last());
        assert((a + b).last() == b.last());
        assert(attrs_text(a + b) =~= attrs_text(a) + attrs_text(b));
    }
}

/// An opening line is the indentation, `<`, the name, the attributes and `>` with
/// a line break; an element without content ends in `/>` instead; a closing line
/// is the indentation, `</`, the name and `>` with a line break.
pub proof fn line_forms(indent: nat, name: Seq<char>, attrs: Seq<(Seq<char>, Seq<char>)>)
    ensures
        open_line(indent, name, attrs) == indent_text(indent) + seq!['<'] + name + attrs_text(attrs) + seq!['>', '\n'],
        leaf_line(indent, name, attrs) == indent_text(indent) + seq!['<'] + name + attrs_text(attrs) + seq!['/', '>', '\n'],
        close_line(indent, name) == indent_text(indent) + seq!['<', '/'] + name + seq!['>', '\n'],
{
    reveal_strlit("<");
    reveal_strlit(">\n");
    reveal_strlit("/>\n");
    reveal_strlit("</");
    assert("<"@ =~= seq!['<']);
    assert(">\n"@ =~= seq!['>', '\n']);
    assert("/>\n"@ =~= seq!['/', '>', '\n']);
    assert("</"@ =~= seq!['<', '/']);
}

/// Simple XML string builder with indentation.
///
/// The writer only ever appends to its text; each opened element raises the
/// indentation by one level and each closed element lowers it again.
pub struct XmlWriter {
    buf: String,
    indent: usize,
}

impl XmlWriter {
    /// The text written so far.
    pub closed spec fn text(&self) -> Seq<char> {
        self.buf@
    }

    /// The current indentation level.
    pub closed spec fn depth(&self) -> nat {
        self.indent as nat
    }

    /// An empty writer at indentation level zero.
    pub fn new() -> (w: Self)
        ensures
            w.text() == Seq::<char>::empty(),
            w.depth() == 0,
    {
        XmlWriter { buf: String::new(), indent: 0 }
    }

    /// Appends text as it is, without indentation or escaping.
    pub fn raw(&mut self, s: &str)
        ensures
            final(self).text() == old(self).text() + s@,
            final(self).depth() == old(self).depth(),
    {
        self.buf.append(s);
    }

    fn write_attrs(&mut self, attrs: &[(&str, &str)])
        ensures
            final(self).text() == old(self).text() + attrs_text(attr_views(attrs@)),
            final(self).depth() == old(self).depth(),
    {
        let ghost start = self.buf@;
        let mut i: usize = 0;
        while i < attrs.len()
            invariant
                i <= attrs@.len(),
                self.indent == old(self).indent,
                self.buf@ == start + attrs_text(attr_views(attrs@).take(i as int)),
            decreases attrs@.len() - i,
        {
            let (k, v) = attrs[i];
            self.buf.append(" ");
            self.buf.append(k);
            self.buf.append("=\"");
            let escaped = xml_escape(v);
            self.buf.append(escaped.as_str());
            self.buf.append("\"");
            assert(attr_views(attrs@).take(i + 1).drop_last() =~= attr_views(attrs@).take(i as int));
            assert(attr_views(attrs@).take(i + 1).last() == (k@, v@));
            i = i + 1;
        }
        assert(attr_views(attrs@).take(attrs@.len() as int) =~= attr_views(attrs@));
    }

    /// Writes an opening tag on its own line and raises the indentation.
    pub fn open_tag(&mut self, name: &str, attrs: &[(&str, &str)])
        requires
            old(self).depth() < usize::MAX,
        ensures
            final(self).text() == old(self).text() + open_line(old(self).depth(), name@, attr_views(attrs@)),
            final(self).depth() == old(self).depth() + 1,
    {
        let ghost start = self.buf@;
        self.write_indent();
        self.buf.append("<");
        self.buf.append(name);
        self.write_attrs(attrs);
        self.buf.append(">\n");
        self.indent = self.indent + 1;
        assert(self.buf@ =~= start + open_line(old(self).depth(), name@, attr_views(attrs@)));
    }

    /// Writes an element without content on its own line.
    pub fn self_closing_tag(&mut self, name: &str, attrs: &[(&str, &str)])
        ensures
            final(self).text() == old(self).text() + leaf_line(old(self).depth(), name@, attr_views(attrs@)),
            final(self).depth() == old(self).depth(),
    {
        let ghost start = self.buf@;
        self.write_indent();
        self.buf.append("<");
        self.buf.append(name);
        self.write_attrs(attrs);
        self.buf.append("/>\n");
        assert(self.buf@ =~= start + leaf_line(old(self).depth(), name@, attr_views(attrs@)));
    }

    /// Lowers the indentation (not below zero) and writes a closing tag on its own line.
    pub fn close_tag(&mut self, name: &str)
        ensures
            final(self).depth() == (if old(self).depth() == 0 { 0 } else { (old(self).depth() - 1) as nat }),
            final(self).text() == old(self).text() + close_line(final(self).depth(), name@),
    {
        let ghost start = self.buf@;
        self.indent = self.indent.saturating_sub(1);
        self.write_indent();
        self.buf.append("</");
        self.buf.append(name);
        self.buf.append(">\n");
        assert(self.buf@ =~= start + close_line(self.indent as nat, name@));
    }

    /// Writes the current indentation.
    pub fn write_indent(&mut self)
        ensures
            final(self).text() == old(self).text() + indent_text(old(self).depth()),
            final(self).depth() == old(self).depth(),
    {
        let ghost start = self.buf@;
        let mut i: usize = 0;
        while i < self.indent
            invariant
                i <= self.indent,
                self.indent == old(self).indent,
                self.buf@ == start + indent_text(i as nat),
            decreases self.indent - i,
        {
            self.buf.append("  ");
            i = i + 1;
            assert(indent_text(i as nat) == indent_text((i - 1) as nat) + "  "@);
        }
    }

    /// The text written.
    pub fn finish(self) -> (s: String)
        ensures
            s@ == self.text(),
    {
        self.buf
    }
}

} // verus!

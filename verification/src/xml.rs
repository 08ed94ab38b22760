//! Writing XML through `quick_xml`'s event writer, and what each event puts
//! into the output.

use vstd::prelude::*;
use vstd::utf8::*;
use quick_xml::events::{BytesEnd, BytesStart, BytesText, Event};

verus! {

/// A `quick_xml` writer into a growing byte buffer. The writer type itself
/// is held privately, since its parameter is bound by `std::io::Write`.
#[verifier::external_body]
pub struct XmlWriter {
    inner: quick_xml::Writer<Vec<u8>>,
}

/// The bytes a writer into a `Vec<u8>` has written so far.
pub uninterp spec fn xml_written(w: XmlWriter) -> Seq<u8>;

/// The indentation state of a writer: `None` for a writer without
/// indentation, otherwise the indentation byte, the indentation step, the
/// current indentation width, and whether the next tag starts on a new line.
pub uninterp spec fn xml_indentation(w: XmlWriter) -> Option<(u8, usize, usize, bool)>;

/// How `quick_xml` escapes one byte of text or of an attribute value.
pub open spec fn escape_byte(b: u8) -> Seq<u8> {
    if b == 60 {
        seq![38u8, 108u8, 116u8, 59u8]
    } else if b == 62 {
        seq![38u8, 103u8, 116u8, 59u8]
    } else if b == 39 {
        seq![38u8, 97u8, 112u8, 111u8, 115u8, 59u8]
    } else if b == 38 {
        seq![38u8, 97u8, 109u8, 112u8, 59u8]
    } else if b == 34 {
        seq![38u8, 113u8, 117u8, 111u8, 116u8, 59u8]
    } else {
        seq![b]
    }
}

/// `quick_xml`'s escaping: `<`, `>`, `'`, `&` and `"` become `&lt;`, `&gt;`,
/// `&apos;`, `&amp;` and `&quot;`; every other byte stays as it is.
pub open spec fn escape_bytes(s: Seq<u8>) -> Seq<u8>
    decreases s.len(),
{
    if s.len() == 0 {
        Seq::empty()
    } else {
        escape_byte(s[0]) + escape_bytes(s.drop_first())
    }
}

/// The bytes of the attributes of a start tag: ` key="escaped value"` each.
pub open spec fn attr_bytes(attrs: Seq<(Seq<char>, Seq<char>)>) -> Seq<u8>
    decreases attrs.len(),
{
    if attrs.len() == 0 {
        Seq::empty()
    } else {
        seq![32u8] + encode_utf8(attrs[0].0) + seq![61u8, 34u8] + escape_bytes(encode_utf8(attrs[0].1))
            + seq![34u8] + attr_bytes(attrs.drop_first())
    }
}

/// The bytes of a start tag.
pub open spec fn start_tag_bytes(tag: Seq<char>, attrs: Seq<(Seq<char>, Seq<char>)>) -> Seq<u8> {
    seq![60u8] + encode_utf8(tag) + attr_bytes(attrs) + seq![62u8]
}

/// The bytes of an end tag.
pub open spec fn end_tag_bytes(tag: Seq<char>) -> Seq<u8> {
    seq![60u8, 47u8] + encode_utf8(tag) + seq![62u8]
}

/// The line break and indentation written before a tag.
pub open spec fn line_break_bytes(ind: Option<(u8, usize, usize, bool)>) -> Seq<u8> {
    match ind {
        Some((ch, _, width, true)) => seq![10u8] + Seq::new(width as nat, |i: int| ch),
        _ => Seq::empty(),
    }
}


/// How one character of text or of an attribute value is escaped.
pub open spec fn escape_char(c: char) -> Seq<char> {
    if c == '<' {
        seq!['&', 'l', 't', ';']
    } else if c == '>' {
        seq!['&', 'g', 't', ';']
    } else if c == '\'' {
        seq!['&', 'a', 'p', 'o', 's', ';']
    } else if c == '&' {
        seq!['&', 'a', 'm', 'p', ';']
    } else if c == '"' {
        seq!['&', 'q', 'u', 'o', 't', ';']
    } else {
        seq![c]
    }
}

/// XML escaping of text: `<`, `>`, `'`, `&` and `"` become `&lt;`, `&gt;`,
/// `&apos;`, `&amp;` and `&quot;`.
pub open spec fn escape_chars(s: Seq<char>) -> Seq<char>
    decreases s.len(),
{
    if s.len() == 0 {
        Seq::empty()
    } else {
        escape_char(s[0]) + escape_chars(s.drop_first())
    }
}

/// The attributes of a start tag: ` key="escaped value"` each.
pub open spec fn attr_chars(attrs: Seq<(Seq<char>, Seq<char>)>) -> Seq<char>
    decreases attrs.len(),
{
    if attrs.len() == 0 {
        Seq::empty()
    } else {
        seq![' '] + attrs[0].0 + seq!['=', '"'] + escape_chars(attrs[0].1) + seq!['"'] + attr_chars(attrs.drop_first())
    }
}

/// A start tag: `<tag key="value" ...>`.
pub open spec fn start_tag_chars(tag: Seq<char>, attrs: Seq<(Seq<char>, Seq<char>)>) -> Seq<char> {
    seq!['<'] + tag + attr_chars(attrs) + seq!['>']
}

/// An end tag: `</tag>`.
pub open spec fn end_tag_chars(tag: Seq<char>) -> Seq<char> {
    seq!['<', '/'] + tag + seq!['>']
}

/// A line break followed by `width` spaces, when one is owed.
pub open spec fn line_break_chars(ind: Option<(u8, usize, usize, bool)>) -> Seq<char> {
    match ind {
        Some((_, _, width, true)) => seq!['\n'] + Seq::new(width as nat, |i: int| ' '),
        _ => Seq::empty(),
    }
}

pub proof fn lemma_encode_concat(a: Seq<char>, b: Seq<char>)
    ensures
        encode_utf8(a + b) == encode_utf8(a) + encode_utf8(b),
    decreases a.len(),
{
    if a.len() == 0 {
        assert(a + b =~= b);
        assert(encode_utf8(a) =~= Seq::<u8>::empty());
        assert(encode_utf8(a) + encode_utf8(b) =~= encode_utf8(b));
    } else {
        assert((a + b).drop_first() =~= a.drop_first() + b);
        assert((a + b)[0] == a[0]);
        lemma_encode_concat(a.drop_first(), b);
        assert(encode_utf8(a + b) =~= encode_scalar(a[0] as u32) + encode_utf8(a.drop_first() + b));
        assert(encode_utf8(a + b) =~= encode_utf8(a) + encode_utf8(b));
    }
}

pub proof fn lemma_escape_concat(a: Seq<u8>, b: Seq<u8>)
    ensures
        escape_bytes(a + b) == escape_bytes(a) + escape_bytes(b),
    decreases a.len(),
{
    if a.len() == 0 {
        assert(a + b =~= b);
        assert(escape_bytes(a) + escape_bytes(b) =~= escape_bytes(b));
    } else {
        assert((a + b).drop_first() =~= a.drop_first() + b);
        assert((a + b)[0] == a[0]);
        lemma_escape_concat(a.drop_first(), b);
        assert(escape_bytes(a + b) =~= escape_bytes(a) + escape_bytes(b));
    }
}

/// Bytes at or above 0x80 are never escaped.
proof fn lemma_escape_high(s: Seq<u8>)
    requires
        forall|i: int| 0 <= i < s.len() ==> s[i] >= 0x80,
    ensures
        escape_bytes(s) == s,
    decreases s.len(),
{
    if s.len() > 0 {
        lemma_escape_high(s.drop_first());
        assert(escape_bytes(s) =~= s);
    }
}

/// An ASCII character encodes as its own code.
proof fn lemma_encode_ascii_char(c: char)
    requires
        (c as u32) < 0x80,
    ensures
        encode_utf8(seq![c]) == seq![(c as u32) as u8],
{
    let v = c as u32;
    assert(((v & 0x7F) as u8) == (v as u8)) by (bit_vector)
        requires
            v < 0x80,
    ;
    assert(seq![c].drop_first() =~= Seq::<char>::empty());
    assert(encode_utf8(seq![c]) =~= encode_scalar(v) + encode_utf8(Seq::<char>::empty()));
}

/// A sequence of ASCII characters encodes as their codes.
pub proof fn lemma_encode_ascii(s: Seq<char>)
    requires
        forall|i: int| 0 <= i < s.len() ==> (s[i] as u32) < 0x80,
    ensures
        encode_utf8(s) == s.map_values(|c: char| (c as u32) as u8),
    decreases s.len(),
{
    if s.len() > 0 {
        lemma_encode_ascii(s.drop_first());
        lemma_encode_ascii_char(s[0]);
        assert(s =~= seq![s[0]] + s.drop_first());
        lemma_encode_concat(seq![s[0]], s.drop_first());
        assert(encode_utf8(s) =~= s.map_values(|c: char| (c as u32) as u8));
    }
}

/// Escaping the encoding of a character is encoding its escaped form.
proof fn lemma_escape_encode_char(c: char)
    ensures
        escape_bytes(encode_utf8(seq![c])) == encode_utf8(escape_char(c)),
{
    let v = c as u32;
    assert(seq![c].drop_first() =~= Seq::<char>::empty());
    assert(encode_utf8(seq![c]) =~= encode_scalar(v) + encode_utf8(Seq::<char>::empty()));
    if v < 0x80 {
        lemma_encode_ascii_char(c);
        let b = (v as u8);
        assert(seq![b].drop_first() =~= Seq::<u8>::empty());
        assert(escape_bytes(Seq::<u8>::empty()) =~= Seq::<u8>::empty());
        assert(seq![b][0] == b);
        assert(escape_bytes(seq![b]) =~= escape_byte(b) + escape_bytes(Seq::<u8>::empty()));
        assert(escape_bytes(seq![b]) =~= escape_byte(b));
        lemma_encode_ascii(escape_char(c));
        assert(encode_utf8(escape_char(c)) =~= escape_byte(b));
    } else {
        vstd::utf8::char_is_scalar(c);
        let e = encode_scalar(v);
        assert forall|i: int| 0 <= i < e.len() implies e[i] >= 0x80 by {
            assert(forall|x: u8| #[trigger] (0xC0u8 | x) >= 0x80) by (bit_vector);
            assert(forall|x: u8| #[trigger] (0xE0u8 | x) >= 0x80) by (bit_vector);
            assert(forall|x: u8| #[trigger] (0xF0u8 | x) >= 0x80) by (bit_vector);
            assert(forall|x: u8| #[trigger] (0x80u8 | x) >= 0x80) by (bit_vector);
        }
        lemma_escape_high(e);
    }
}

pub proof fn lemma_escape_encode(s: Seq<char>)
    ensures
        escape_bytes(encode_utf8(s)) == encode_utf8(escape_chars(s)),
    decreases s.len(),
{
    if s.len() == 0 {
        assert(encode_utf8(s) =~= Seq::<u8>::empty());
        assert(escape_chars(s) =~= Seq::<char>::empty());
    } else {
        assert(s =~= seq![s[0]] + s.drop_first());
        lemma_encode_concat(seq![s[0]], s.drop_first());
        lemma_escape_concat(encode_utf8(seq![s[0]]), encode_utf8(s.drop_first()));
        lemma_escape_encode_char(s[0]);
        lemma_escape_encode(s.drop_first());
        lemma_encode_concat(escape_char(s[0]), escape_chars(s.drop_first()));
    }
}


proof fn lemma_encode_lit1(c: char, b: u8)
    requires
        (c as u32) < 0x80,
        (c as u32) as u8 == b,
    ensures
        encode_utf8(seq![c]) == seq![b],
{
    lemma_encode_ascii_char(c);
}

pub proof fn lemma_attr_encode(attrs: Seq<(Seq<char>, Seq<char>)>)
    ensures
        encode_utf8(attr_chars(attrs)) == attr_bytes(attrs),
    decreases attrs.len(),
{
    if attrs.len() == 0 {
        assert(encode_utf8(Seq::<char>::empty()) =~= Seq::<u8>::empty());
    } else {
        let k = attrs[0].0;
        let v = attrs[0].1;
        let rest = attrs.drop_first();
        lemma_attr_encode(rest);
        lemma_escape_encode(v);
        lemma_encode_lit1(' ', 32u8);
        lemma_encode_lit1('"', 34u8);
        lemma_encode_ascii(seq!['=', '"']);
        assert(seq!['=', '"'].map_values(|c: char| (c as u32) as u8) =~= seq![61u8, 34u8]);
        let a = seq![' '];
        let b = seq!['=', '"'];
        let e = escape_chars(v);
        let q = seq!['"'];
        let r = attr_chars(rest);
        lemma_encode_concat(a, k);
        lemma_encode_concat(a + k, b);
        lemma_encode_concat(a + k + b, e);
        lemma_encode_concat(a + k + b + e, q);
        lemma_encode_concat(a + k + b + e + q, r);
        assert(attr_chars(attrs) == a + k + b + e + q + r);
    }
}

pub proof fn lemma_start_encode(tag: Seq<char>, attrs: Seq<(Seq<char>, Seq<char>)>)
    ensures
        encode_utf8(start_tag_chars(tag, attrs)) == start_tag_bytes(tag, attrs),
{
    lemma_attr_encode(attrs);
    lemma_encode_lit1('<', 60u8);
    lemma_encode_lit1('>', 62u8);
    let a = seq!['<'];
    let r = attr_chars(attrs);
    let z = seq!['>'];
    lemma_encode_concat(a, tag);
    lemma_encode_concat(a + tag, r);
    lemma_encode_concat(a + tag + r, z);
}

pub proof fn lemma_end_encode(tag: Seq<char>)
    ensures
        encode_utf8(end_tag_chars(tag)) == end_tag_bytes(tag),
{
    lemma_encode_ascii(seq!['<', '/']);
    assert(seq!['<', '/'].map_values(|c: char| (c as u32) as u8) =~= seq![60u8, 47u8]);
    lemma_encode_lit1('>', 62u8);
    let a = seq!['<', '/'];
    let z = seq!['>'];
    lemma_encode_concat(a, tag);
    lemma_encode_concat(a + tag, z);
}

pub proof fn lemma_line_break_encode(ind: Option<(u8, usize, usize, bool)>)
    requires
        ind matches Some((ch, _, _, _)) ==> ch == 32,
    ensures
        encode_utf8(line_break_chars(ind)) == line_break_bytes(ind),
{
    match ind {
        Some((ch, _, width, true)) => {
            let s = seq!['\n'] + Seq::new(width as nat, |i: int| ' ');
            lemma_encode_ascii(s);
            assert(s.map_values(|c: char| (c as u32) as u8) =~= line_break_bytes(ind));
        },
        _ => {
            assert(encode_utf8(Seq::<char>::empty()) =~= Seq::<u8>::empty());
        },
    }
}

/// Creates a writer without indentation into an empty buffer.
#[verifier::external_body]
pub fn xml_writer_new() -> (w: XmlWriter)
    ensures
        xml_written(w) == Seq::<u8>::empty(),
        xml_indentation(w) == None::<(u8, usize, usize, bool)>,
{
    XmlWriter { inner: quick_xml::Writer::new(Vec::new()) }
}

/// Creates a writer that indents nested tags by `indent` spaces.
#[verifier::external_body]
pub fn xml_writer_new_with_indent(indent: usize) -> (w: XmlWriter)
    ensures
        xml_written(w) == Seq::<u8>::empty(),
        xml_indentation(w) == Some((32u8, indent, 0usize, false)),
{
    XmlWriter { inner: quick_xml::Writer::new_with_indent(Vec::new(), b' ', indent) }
}

/// An event to write: a start tag with its attributes, an end tag, or text.
pub enum XmlEvent<'a> {
    Start(&'a String, &'a Vec<(String, String)>),
    End(&'a String),
    Text(&'a String),
}

/// The indentation state once an event has been written: after a start tag
/// one step deeper, before an end tag one step shallower (not below zero),
/// and a line break owed after tags but not after text.
pub open spec fn indentation_after(ind: Option<(u8, usize, usize, bool)>, ev: XmlEvent) -> Option<(u8, usize, usize, bool)> {
    match ind {
        None => None,
        Some((ch, step, width, lb)) => match ev {
            XmlEvent::Start(_, _) => Some((ch, step, (width + step) as usize, true)),
            XmlEvent::End(_) => Some((ch, step, if width >= step { (width - step) as usize } else { 0usize }, true)),
            XmlEvent::Text(_) => Some((ch, step, width, false)),
        },
    }
}

/// The bytes that writing an event adds: tags come after the line break
/// owed by the previous event (an end tag at the shallower width), text is
/// escaped and follows directly.
pub open spec fn event_bytes(ind: Option<(u8, usize, usize, bool)>, ev: XmlEvent) -> Seq<u8> {
    match ev {
        XmlEvent::Start(tag, attrs) => line_break_bytes(ind) + start_tag_bytes(
            tag@,
            attrs@.map_values(|a: (String, String)| (a.0@, a.1@)),
        ),
        XmlEvent::End(tag) => line_break_bytes(
            match ind {
                Some((ch, step, width, lb)) => Some((ch, step, if width >= step { (width - step) as usize } else { 0usize }, lb)),
                None => None,
            },
        ) + end_tag_bytes(tag@),
        XmlEvent::Text(text) => escape_bytes(encode_utf8(text@)),
    }
}

/// Writes one event (`Writer::write_event` with `Event::Start` built by
/// `BytesStart::borrowed_name(..).with_attributes(..)`, `Event::End` built by
/// `BytesEnd::borrowed`, or `Event::Text` built by
/// `BytesText::from_plain_str`). Writing into a `Vec<u8>` cannot fail.
#[verifier::external_body]
pub fn xml_write_event(w: &mut XmlWriter, ev: XmlEvent)
    requires
        ev is Start ==> (xml_indentation(*old(w)) matches Some((_, step, width, _)) ==> width + step <= usize::MAX),
    ensures
        xml_written(*final(w)) == xml_written(*old(w)) + event_bytes(xml_indentation(*old(w)), ev),
        xml_indentation(*final(w)) == indentation_after(xml_indentation(*old(w)), ev),
{
    let event = match ev {
        XmlEvent::Start(tag, attrs) => Event::Start(BytesStart::borrowed_name(tag.as_bytes())
            .with_attributes(attrs.iter().map(|(n, v)| (n.as_str(), v.as_str())))),
        XmlEvent::End(tag) => Event::End(BytesEnd::borrowed(tag.as_bytes())),
        XmlEvent::Text(text) => Event::Text(BytesText::from_plain_str(text)),
    };
    w.inner.write_event(event).expect("writing to a buffer");
}

/// Takes the written bytes out of the writer (`Writer::into_inner`).
#[verifier::external_body]
pub fn xml_writer_into_bytes(w: XmlWriter) -> (r: Vec<u8>)
    ensures
        r@ == xml_written(w),
{
    w.inner.into_inner()
}

/// `String::from_utf8`, which succeeds exactly on valid UTF-8.
#[verifier::external_body]
pub fn string_from_utf8(bytes: Vec<u8>) -> (r: Option<String>)
    ensures
        r is Some <==> valid_utf8(bytes@),
        r matches Some(s) ==> s@ == decode_utf8(bytes@),
{
    String::from_utf8(bytes).ok()
}

} // verus!

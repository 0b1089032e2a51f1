//! Helpers for writing Alfred script filter XML output (Alfred 2)
//!
//! Unless you specifically need Alfred 2 compatibility, you should use the `alfred::json` module
//! instead.
//!
//! The text of an item is computed by [`Item::write_xml`].  An [`XMLWriter`]
//! hands a whole document to a [`Sink`], piece by piece: the header when it is
//! made, one item with every [`XMLWriter::write_item`], the footer when it is
//! closed.  [`Buffer`] is a sink that keeps the text in memory; [`Recorded`]
//! is a sink on an [`Output`], which stands for a file or standard output.

use vstd::prelude::*;
use crate::text::chars_of;
use crate::{Icon, IconView, Item, ItemType, ItemView, Modifier, ModifierDataView};

verus! {

/// What begins a document.
pub const HEADER: &'static str = "<?xml version=\"1.0\" encoding=\"UTF-8\"?>\n<items>\n";

/// What ends a document.
pub const FOOTER: &'static str = "</items>\n";

/// Why a sink refused a text.
#[derive(Clone, Debug, PartialEq, Eq)]
pub enum SavedError {
    /// An error of the operating system, by its number.
    Os(i32),
    /// Any other error, by its description.
    Custom(String),
}

impl SavedError {
    /// A copy of the error.
    pub fn duplicate(&self) -> (r: SavedError)
        ensures
            r == *self,
    {
        match self {
            SavedError::Os(code) => SavedError::Os(*code),
            SavedError::Custom(s) => SavedError::Custom(s.clone()),
        }
    }
}

/// Something that text can be written to, and that says in contracts what it
/// has taken.
///
/// [`Buffer`] is such a sink in memory.  What writes to the world, a file or
/// standard output, is an [`Output`]; [`Recorded`] makes a sink of it.
pub trait Sink {
    /// The text that the sink has taken so far.
    spec fn written(&self) -> Seq<char>;

    /// Whether the sink takes every text and stays so, as a sink in memory
    /// does.  A sink that may refuse a text, as a file may, is not reliable.
    spec fn reliable(&self) -> bool;

    /// Writes the whole of `text`.  A reliable sink takes it; nothing is known
    /// of what a sink has taken of a text that it refused.
    fn write_all(&mut self, text: &str) -> (r: Result<(), SavedError>)
        ensures
            r is Ok ==> final(self).written() == old(self).written() + text@,
            old(self).reliable() ==> r is Ok && final(self).reliable(),
    ;

    /// Passes on what the sink may have held back; its text stays the same.
    fn flush(&mut self) -> (r: Result<(), SavedError>)
        ensures
            final(self).written() == old(self).written(),
            old(self).reliable() ==> r is Ok && final(self).reliable(),
    ;
}

/// Something that text can be written to, of which nothing is known: it may
/// take a text or refuse it, as it likes.
pub trait Output {
    /// Writes the whole of `text`, or refuses it.
    fn write_all(&mut self, text: &str) -> Result<(), SavedError>;

    /// Passes on what the output may have held back.
    fn flush(&mut self) -> Result<(), SavedError>;
}

/// An [`Output`] as a [`Sink`]: it keeps a record of every text that the
/// output has taken.  It is not reliable, since the output may refuse a text.
pub struct Recorded<O: Output> {
    out: O,
    taken: Ghost<Seq<char>>,
}

impl<O: Output> Recorded<O> {
    /// The output that the sink writes to.
    pub closed spec fn output(&self) -> O {
        self.out
    }

    /// A sink on `out` that has taken nothing yet.
    pub fn new(out: O) -> (r: Recorded<O>)
        ensures
            r.written() == Seq::<char>::empty(),
            r.output() == out,
    {
        Recorded { out, taken: Ghost(Seq::empty()) }
    }

    /// Gives the output back.
    pub fn into_inner(self) -> (r: O)
        ensures
            r == self.output(),
    {
        self.out
    }
}

impl<O: Output> Sink for Recorded<O> {
    closed spec fn written(&self) -> Seq<char> {
        self.taken@
    }

    open spec fn reliable(&self) -> bool {
        false
    }

    fn write_all(&mut self, text: &str) -> (r: Result<(), SavedError>) {
        match self.out.write_all(text) {
            Ok(()) => {
                self.taken = Ghost(self.taken@ + text@);
                Ok(())
            },
            Err(e) => Err(e),
        }
    }

    fn flush(&mut self) -> (r: Result<(), SavedError>) {
        self.out.flush()
    }
}

/// A sink that keeps its text in memory, and never refuses one.
#[derive(Clone, Debug, PartialEq, Eq)]
pub struct Buffer {
    /// The text written so far.
    pub text: String,
}

impl Buffer {
    /// A buffer without text.
    pub fn new() -> (r: Buffer)
        ensures
            r.written() == Seq::<char>::empty(),
    {
        Buffer { text: String::new() }
    }
}

impl Sink for Buffer {
    open spec fn written(&self) -> Seq<char> {
        self.text@
    }

    open spec fn reliable(&self) -> bool {
        true
    }

    fn write_all(&mut self, text: &str) -> (r: Result<(), SavedError>)
        ensures
            r is Ok,
    {
        self.text.append(text);
        Ok(())
    }

    fn flush(&mut self) -> (r: Result<(), SavedError>)
        ensures
            r is Ok,
    {
        Ok(())
    }
}

/// Whether a character must not occur in XML.
pub open spec fn is_invalid(c: char) -> bool {
    c <= '\x08' || ('\x0B' <= c && c <= '\x0C') || ('\x0E' <= c && c <= '\x1F') || c == '\u{FFFE}' || c
        == '\u{FFFF}'
}

/// What stands for a character in XML: an entity for `<`, `>`, `"` and `&`,
/// the replacement character for a character that must not occur, and the
/// character itself otherwise.
pub open spec fn entity(c: char) -> Seq<char> {
    if c == '<' {
        "&lt;"@
    } else if c == '>' {
        "&gt;"@
    } else if c == '"' {
        "&quot;"@
    } else if c == '&' {
        "&amp;"@
    } else if is_invalid(c) {
        seq!['\u{FFFD}']
    } else {
        seq![c]
    }
}

/// A text in which every character is replaced by what stands for it in XML.
pub open spec fn encoded(s: Seq<char>) -> Seq<char>
    decreases s.len(),
{
    if s.len() == 0 {
        Seq::empty()
    } else {
        encoded(s.drop_last()) + entity(s.last())
    }
}

/// `n` times four spaces.
pub open spec fn indentation(n: nat) -> Seq<char>
    decreases n,
{
    if n == 0 {
        Seq::empty()
    } else {
        indentation((n - 1) as nat) + "    "@
    }
}

/// `before`, the encoded text and `after`, where there is a text; nothing
/// otherwise.
pub open spec fn wrapped(before: Seq<char>, v: Option<Seq<char>>, after: Seq<char>) -> Seq<char> {
    match v {
        Some(s) => before + encoded(s) + after,
        None => Seq::empty(),
    }
}

/// A line of its own for the text, where there is one: indented, between
/// `before` and `after`.
pub open spec fn line(n: nat, before: Seq<char>, v: Option<Seq<char>>, after: Seq<char>) -> Seq<char> {
    match v {
        Some(s) => indentation(n) + before + encoded(s) + after,
        None => Seq::empty(),
    }
}

/// The attribute `type` of an item; the default type has none.
pub open spec fn type_xml(t: ItemType) -> Seq<char> {
    match t {
        ItemType::Default => Seq::empty(),
        ItemType::File => " type=\"file\""@,
        ItemType::FileSkipCheck => " type=\"file:skipcheck\""@,
    }
}

/// The attribute `valid` of an item; a valid item has none.
pub open spec fn valid_xml(valid: bool) -> Seq<char> {
    if valid {
        Seq::empty()
    } else {
        " valid=\"no\""@
    }
}

/// The line of the icon of an item.
pub open spec fn icon_xml(n: nat, icon: Option<IconView>) -> Seq<char> {
    match icon {
        None => Seq::empty(),
        Some(IconView::Path(s)) => indentation(n) + "<icon>"@ + encoded(s) + "</icon>\n"@,
        Some(IconView::File(s)) => indentation(n) + "<icon type=\"fileicon\">"@ + encoded(s) + "</icon>\n"@,
        Some(IconView::FileType(s)) => indentation(n) + "<icon type=\"filetype\">"@ + encoded(s) + "</icon>\n"@,
    }
}

/// The attribute `valid` of a modifier.
pub open spec fn mod_valid_xml(valid: Option<bool>) -> Seq<char> {
    match valid {
        None => Seq::empty(),
        Some(true) => " valid=\"yes\""@,
        Some(false) => " valid=\"no\""@,
    }
}

/// The line of a modifier, where it overrides something: the tag `mod` with
/// the key of the modifier, then the subtitle, the arg and the validity that
/// it sets, each as an attribute.
pub open spec fn mod_xml(n: nat, mods: Map<Modifier, ModifierDataView>, modifier: Modifier) -> Seq<char> {
    if mods.contains_key(modifier) {
        indentation(n) + "<mod key=\""@ + crate::json::modifier_key(modifier) + "\""@ + wrapped(
            " subtitle=\""@,
            mods[modifier].subtitle,
            "\""@,
        ) + wrapped(" arg=\""@, mods[modifier].arg, "\""@) + mod_valid_xml(mods[modifier].valid) + "/>\n"@
    } else {
        Seq::empty()
    }
}

/// The XML fragment that stands for an item, at the depth `indent`.
///
/// The tag `item` carries the attributes `uid`, `arg`, `type`, `valid` and
/// `autocomplete`, each where it is set.  Its children follow, one on a line:
/// the title, the subtitle, the icon, the modifiers in the order Command,
/// Option, Control, Shift, Fn, the text to copy, the text for large type and
/// the url for Quick Look.
pub open spec fn item_xml(i: ItemView, indent: nat) -> Seq<char> {
    indentation(indent) + "<item"@ + wrapped(" uid=\""@, i.uid, "\""@) + wrapped(" arg=\""@, i.arg, "\""@)
        + type_xml(i.type_) + valid_xml(i.valid) + wrapped(" autocomplete=\""@, i.autocomplete, "\""@) + ">\n"@
        + line(indent + 1, "<title>"@, Some(i.title), "</title>\n"@) + line(
        indent + 1,
        "<subtitle>"@,
        i.subtitle,
        "</subtitle>\n"@,
    ) + icon_xml(indent + 1, i.icon) + mod_xml(indent + 1, i.modifiers, Modifier::Command) + mod_xml(
        indent + 1,
        i.modifiers,
        Modifier::Option,
    ) + mod_xml(indent + 1, i.modifiers, Modifier::Control) + mod_xml(indent + 1, i.modifiers, Modifier::Shift)
        + mod_xml(indent + 1, i.modifiers, Modifier::Fn) + line(
        indent + 1,
        "<text type=\"copy\">"@,
        i.text_copy,
        "</text>\n"@,
    ) + line(indent + 1, "<text type=\"largetype\">"@, i.text_large_type, "</text>\n"@) + line(
        indent + 1,
        "<quicklookurl>"@,
        i.quicklook_url,
        "</quicklookurl>\n"@,
    ) + indentation(indent) + "</item>\n"@
}

/// The fragments of a sequence of items at depth 1, one after the other.
pub open spec fn items_xml(items: Seq<ItemView>) -> Seq<char>
    decreases items.len(),
{
    if items.len() == 0 {
        Seq::empty()
    } else {
        items_xml(items.drop_last()) + item_xml(items.last(), 1)
    }
}

/// The whole document of a sequence of items.
pub open spec fn document_xml(items: Seq<ItemView>) -> Seq<char> {
    HEADER@ + items_xml(items) + FOOTER@
}

/// The text with every character replaced by what stands for it in XML.
pub fn encode_entities(s: &str) -> (r: String)
    ensures
        r@ == encoded(s@),
{
    let chars = chars_of(s);
    let mut out = String::new();
    let mut i: usize = 0;
    while i < chars.len()
        invariant
            i <= chars.len(),
            out@ == encoded(chars@.take(i as int)),
        decreases chars.len() - i,
    {
        let c = chars[i];
        proof {
            assert(chars@.take(i + 1).drop_last() =~= chars@.take(i as int));
            assert(chars@.take(i + 1).last() == c);
        }
        if c == '<' {
            out.append("&lt;");
        } else if c == '>' {
            out.append("&gt;");
        } else if c == '"' {
            out.append("&quot;");
        } else if c == '&' {
            out.append("&amp;");
        } else if c <= '\x08' || ('\x0B' <= c && c <= '\x0C') || ('\x0E' <= c && c <= '\x1F') || c == '\u{FFFE}'
            || c == '\u{FFFF}' {
            out.push('\u{FFFD}');
            assert(out@ =~= encoded(chars@.take(i as int)) + seq!['\u{FFFD}']);
        } else {
            out.push(c);
            assert(out@ =~= encoded(chars@.take(i as int)) + seq![c]);
        }
        i = i + 1;
    }
    assert(chars@.take(chars@.len() as int) =~= chars@);
    out
}

/// Appends `n` times four spaces.
fn push_indent(out: &mut String, n: u64)
    ensures
        final(out)@ == old(out)@ + indentation(n as nat),
{
    let mut i: u64 = 0;
    assert(out@ =~= old(out)@ + indentation(0));
    while i < n
        invariant
            i <= n,
            out@ == old(out)@ + indentation(i as nat),
        decreases n - i,
    {
        out.append("    ");
        i = i + 1;
        assert(out@ =~= old(out)@ + indentation(i as nat));
    }
}

/// Appends `before`, the encoded text and `after`, where there is a text.
fn push_wrapped(out: &mut String, before: &str, v: &Option<String>, after: &str)
    ensures
        final(out)@ == old(out)@ + wrapped(before@, crate::text_view(*v), after@),
{
    match v {
        Some(s) => {
            out.append(before);
            let e = encode_entities(s.as_str());
            out.append(e.as_str());
            out.append(after);
            assert(out@ =~= old(out)@ + (before@ + encoded(s@) + after@));
        },
        None => {
            assert(out@ =~= old(out)@ + Seq::<char>::empty());
        },
    }
}

/// Appends a line of its own for the text.
fn push_text_line(out: &mut String, n: u64, before: &str, s: &str, after: &str)
    ensures
        final(out)@ == old(out)@ + line(n as nat, before@, Some(s@), after@),
{
    push_indent(out, n);
    out.append(before);
    let e = encode_entities(s);
    out.append(e.as_str());
    out.append(after);
    assert(out@ =~= old(out)@ + (indentation(n as nat) + before@ + encoded(s@) + after@));
}

/// Appends a line of its own for the text, where there is one.
fn push_line(out: &mut String, n: u64, before: &str, v: &Option<String>, after: &str)
    ensures
        final(out)@ == old(out)@ + line(n as nat, before@, crate::text_view(*v), after@),
{
    match v {
        Some(s) => {
            push_text_line(out, n, before, s.as_str(), after);
        },
        None => {
            assert(out@ =~= old(out)@ + Seq::<char>::empty());
        },
    }
}

/// Appends the line of an icon, where there is one.
fn push_icon(out: &mut String, n: u64, icon: &Option<Icon>)
    ensures
        final(out)@ == old(out)@ + icon_xml(n as nat, crate::icon_view(*icon)),
{
    match icon {
        None => {
            assert(out@ =~= old(out)@ + Seq::<char>::empty());
        },
        Some(Icon::Path(s)) => {
            push_text_line(out, n, "<icon>", s.as_str(), "</icon>\n");
        },
        Some(Icon::File(s)) => {
            push_text_line(out, n, "<icon type=\"fileicon\">", s.as_str(), "</icon>\n");
        },
        Some(Icon::FileType(s)) => {
            push_text_line(out, n, "<icon type=\"filetype\">", s.as_str(), "</icon>\n");
        },
    }
}

/// Appends the line of a modifier, where the item holds data for it.
fn push_mod(out: &mut String, n: u64, item: &Item, modifier: Modifier)
    ensures
        final(out)@ == old(out)@ + mod_xml(n as nat, item@.modifiers, modifier),
{
    match item.modifiers.get(modifier) {
        None => {
            assert(out@ =~= old(out)@ + Seq::<char>::empty());
        },
        Some(data) => {
            push_indent(out, n);
            out.append("<mod key=\"");
            out.append(modifier.key());
            out.append("\"");
            push_wrapped(out, " subtitle=\"", &data.subtitle, "\"");
            push_wrapped(out, " arg=\"", &data.arg, "\"");
            match data.valid {
                None => {},
                Some(true) => {
                    out.append(" valid=\"yes\"");
                },
                Some(false) => {
                    out.append(" valid=\"no\"");
                },
            }
            out.append("/>\n");
            assert(out@ =~= old(out)@ + mod_xml(n as nat, item@.modifiers, modifier));
        },
    }
}

impl Item {
    /// Gives the XML fragment representing the `Item`, at the depth `indent`.
    ///
    /// `XMLWriter` should be used instead if at all possible, in order to
    /// write the XML header/footer and maintain proper error discipline.
    pub fn write_xml(&self, indent: u32) -> (r: String)
        ensures
            r@ == item_xml(self@, indent as nat),
    {
        let outer: u64 = indent as u64;
        let inner: u64 = outer + 1;
        let mut w = String::new();
        push_indent(&mut w, outer);
        assert(w@ =~= indentation(indent as nat));
        w.append("<item");
        push_wrapped(&mut w, " uid=\"", &self.uid, "\"");
        push_wrapped(&mut w, " arg=\"", &self.arg, "\"");
        match self.type_ {
            ItemType::Default => {
                assert(w@ =~= w@ + Seq::<char>::empty());
            },
            ItemType::File => {
                w.append(" type=\"file\"");
            },
            ItemType::FileSkipCheck => {
                w.append(" type=\"file:skipcheck\"");
            },
        }
        if !self.valid {
            w.append(" valid=\"no\"");
        } else {
            assert(w@ =~= w@ + Seq::<char>::empty());
        }
        push_wrapped(&mut w, " autocomplete=\"", &self.autocomplete, "\"");
        w.append(">\n");
        push_text_line(&mut w, inner, "<title>", self.title.as_str(), "</title>\n");
        push_line(&mut w, inner, "<subtitle>", &self.subtitle, "</subtitle>\n");
        push_icon(&mut w, inner, &self.icon);
        push_mod(&mut w, inner, self, Modifier::Command);
        push_mod(&mut w, inner, self, Modifier::Option);
        push_mod(&mut w, inner, self, Modifier::Control);
        push_mod(&mut w, inner, self, Modifier::Shift);
        push_mod(&mut w, inner, self, Modifier::Fn);
        push_line(&mut w, inner, "<text type=\"copy\">", &self.text_copy, "</text>\n");
        push_line(&mut w, inner, "<text type=\"largetype\">", &self.text_large_type, "</text>\n");
        push_line(&mut w, inner, "<quicklookurl>", &self.quicklook_url, "</quicklookurl>\n");
        push_indent(&mut w, outer);
        w.append("</item>\n");
        w
    }
}

/// Helper struct used to manage the XML serialization of `Item`s.
///
/// When the `XMLWriter` is first created, the XML header is immediately
/// written. The XML footer is written when the `XMLWriter` is closed.
///
/// Once the sink has refused a text, the writer writes nothing more and
/// repeats the error of the sink: what was refused may have been written in
/// part.
pub struct XMLWriter<W: Sink> {
    w: W,
    last_err: Option<SavedError>,
}

impl<W: Sink> XMLWriter<W> {
    /// The sink that the writer writes to.
    pub closed spec fn sink(&self) -> W {
        self.w
    }

    /// The error that has stopped the writer, if one has.
    pub closed spec fn failure(&self) -> Option<SavedError> {
        self.last_err
    }

    /// Returns a new `XMLWriter` that writes to the given sink.
    ///
    /// The XML header is written immediately.  With a reliable sink this
    /// succeeds; with another sink it fails where the sink refuses the header.
    pub fn new(w: W) -> (r: Result<XMLWriter<W>, SavedError>)
        ensures
            r is Ok ==> r->Ok_0.failure() is None && r->Ok_0.sink().written() == w.written() + HEADER@,
            w.reliable() ==> r is Ok && r->Ok_0.sink().reliable(),
    {
        let mut w = w;
        match w.write_all(HEADER) {
            Ok(()) => Ok(XMLWriter { w, last_err: None }),
            Err(err) => Err(err),
        }
    }

    /// Writes an `Item` to the underlying sink.
    ///
    /// If a previous write produced an error, any subsequent write will do
    /// nothing and return the same error. This is because the previous write
    /// may have partially completed, and attempting to write any more data
    /// will be unlikely to work properly.
    pub fn write_item(&mut self, item: &Item) -> (r: Result<(), SavedError>)
        ensures
            old(self).failure() is Some ==> r == Err::<(), SavedError>(old(self).failure()->0) && *final(self)
                == *old(self),
            old(self).failure() is None ==> match r {
                Ok(_) => final(self).failure() is None && final(self).sink().written() == old(
                    self,
                ).sink().written() + item_xml(item@, 1),
                Err(e) => final(self).failure() == Some(e),
            },
            old(self).failure() is None && old(self).sink().reliable() ==> r is Ok && final(self).sink().reliable(),
    {
        match &self.last_err {
            Some(err) => {
                return Err(err.duplicate());
            },
            None => {},
        }
        let fragment = item.write_xml(1);
        match self.w.write_all(fragment.as_str()) {
            Ok(()) => Ok(()),
            Err(err) => {
                self.last_err = Some(err.duplicate());
                Err(err)
            },
        }
    }

    /// Consumes the `XMLWriter` and writes the XML footer.
    ///
    /// As with `write_item()`, if a previous invocation of `write_item()`
    /// returned an error, `close()` will return the same error without
    /// attempting to write the XML footer.
    ///
    /// The footer is written, but the sink is not flushed.
    pub fn close(self) -> (r: Result<W, SavedError>)
        ensures
            self.failure() is Some ==> r == Err::<W, SavedError>(self.failure()->0),
            self.failure() is None && r is Ok ==> r->Ok_0.written() == self.sink().written() + FOOTER@,
            self.failure() is None && self.sink().reliable() ==> r is Ok && r->Ok_0.reliable(),
    {
        let XMLWriter { w, last_err } = self;
        match last_err {
            Some(err) => {
                return Err(err);
            },
            None => {},
        }
        let mut w = w;
        match write_footer(&mut w) {
            Ok(()) => Ok(w),
            Err(err) => Err(err),
        }
    }
}

/// Writes what ends a document.  A reliable sink takes it; another sink may
/// refuse it, and its error is returned.
pub fn write_footer<W: Sink>(w: &mut W) -> (r: Result<(), SavedError>)
    ensures
        r is Ok ==> final(w).written() == old(w).written() + FOOTER@,
        old(w).reliable() ==> r is Ok && final(w).reliable(),
{
    w.write_all(FOOTER)
}

/// Writes a complete XML document representing the `Item`s to the sink, and
/// gives the sink back.
///
/// The sink is flushed after the XML document is written.  With a reliable
/// sink this succeeds; with another sink it fails where the sink refuses a
/// part of the document.
pub fn write_items<W: Sink>(w: W, items: &[Item]) -> (r: Result<W, SavedError>)
    ensures
        r is Ok ==> r->Ok_0.written() == w.written() + document_xml(crate::json::item_views(items@)),
        w.reliable() ==> r is Ok && r->Ok_0.reliable(),
{
    let mut xmlw = match XMLWriter::new(w) {
        Ok(x) => x,
        Err(e) => {
            return Err(e);
        },
    };
    let ghost all = crate::json::item_views(items@);
    let mut i: usize = 0;
    assert(all.take(0) =~= Seq::<ItemView>::empty());
    while i < items.len()
        invariant
            i <= items.len(),
            all == crate::json::item_views(items@),
            xmlw.failure() is None,
            xmlw.sink().written() == w.written() + HEADER@ + items_xml(all.take(i as int)),
            w.reliable() ==> xmlw.sink().reliable(),
        decreases items.len() - i,
    {
        match xmlw.write_item(&items[i]) {
            Ok(()) => {},
            Err(e) => {
                return Err(e);
            },
        }
        proof {
            assert(all.take(i + 1).drop_last() =~= all.take(i as int));
            assert(all.take(i + 1).last() == items@[i as int]@);
            assert(xmlw.sink().written() =~= w.written() + HEADER@ + items_xml(all.take(i + 1)));
        }
        i = i + 1;
    }
    assert(all.take(all.len() as int) =~= all);
    let mut w = match xmlw.close() {
        Ok(w) => w,
        Err(e) => {
            return Err(e);
        },
    };
    match w.flush() {
        Ok(()) => Ok(w),
        Err(e) => Err(e),
    }
}

} // verus!

use alfred::xml::{encode_entities, write_items, Buffer, Output, Recorded, SavedError, FOOTER, HEADER};
use alfred::{Item, ItemBuilder, ItemType, Modifier, XMLWriter};

struct Refusing {
    accepted: usize,
    text: String,
}

impl Output for Refusing {
    fn write_all(&mut self, text: &str) -> Result<(), SavedError> {
        if self.accepted == 0 {
            return Err(SavedError::Os(28));
        }
        self.accepted -= 1;
        self.text.push_str(text);
        Ok(())
    }

    fn flush(&mut self) -> Result<(), SavedError> {
        Ok(())
    }
}

#[test]
fn entities_are_encoded() {
    assert_eq!(encode_entities("plain text"), "plain text");
    assert_eq!(encode_entities("a<b>c\"d&e"), "a&lt;b&gt;c&quot;d&amp;e");
    assert_eq!(encode_entities("x\u{0}y\u{8}z\u{b}\u{c}\u{e}\u{1f}"), "x\u{fffd}y\u{fffd}z\u{fffd}\u{fffd}\u{fffd}\u{fffd}");
    assert_eq!(encode_entities("\u{fffe}\u{ffff}"), "\u{fffd}\u{fffd}");
    assert_eq!(encode_entities("tab\tnewline\nreturn\r"), "tab\tnewline\nreturn\r");
    assert_eq!(encode_entities(""), "");
}

#[test]
fn item_fragment_has_title_only() {
    let item = Item::new("Item 1");
    assert_eq!(item.write_xml(1), "    <item>\n        <title>Item 1</title>\n    </item>\n");
    assert_eq!(item.write_xml(0), "<item>\n    <title>Item 1</title>\n</item>\n");
}

#[test]
fn item_fragment_has_all_parts_in_order() {
    let item = ItemBuilder::new("A & B")
        .uid("id<1>")
        .arg("Argument")
        .type_(ItemType::File)
        .valid(false)
        .autocomplete("auto")
        .subtitle("Subtitle")
        .icon_filetype("public.folder")
        .subtitle_mod(Modifier::Command, "Cmd")
        .valid_mod(Modifier::Command, true)
        .arg_mod(Modifier::Fn, "fn arg")
        .text_copy("copy")
        .text_large_type("large")
        .quicklook_url("http://example.com/")
        .into_item();
    let expected = [
        "    <item uid=\"id&lt;1&gt;\" arg=\"Argument\" type=\"file\" valid=\"no\" autocomplete=\"auto\">\n",
        "        <title>A &amp; B</title>\n",
        "        <subtitle>Subtitle</subtitle>\n",
        "        <icon type=\"filetype\">public.folder</icon>\n",
        "        <mod key=\"cmd\" subtitle=\"Cmd\" valid=\"yes\"/>\n",
        "        <mod key=\"fn\" arg=\"fn arg\"/>\n",
        "        <text type=\"copy\">copy</text>\n",
        "        <text type=\"largetype\">large</text>\n",
        "        <quicklookurl>http://example.com/</quicklookurl>\n",
        "    </item>\n",
    ]
    .concat();
    assert_eq!(item.write_xml(1), expected);
}

#[test]
fn writer_writes_header_items_and_footer() {
    let mut xmlw = XMLWriter::new(Buffer::new()).unwrap();
    xmlw.write_item(&Item::new("Item 1")).unwrap();
    xmlw.write_item(&ItemBuilder::new("Item 2").subtitle("Subtitle").into_item()).unwrap();
    let buffer = xmlw.close().unwrap();
    let expected = [
        "<?xml version=\"1.0\" encoding=\"UTF-8\"?>\n<items>\n",
        "    <item>\n        <title>Item 1</title>\n    </item>\n",
        "    <item>\n        <title>Item 2</title>\n        <subtitle>Subtitle</subtitle>\n    </item>\n",
        "</items>\n",
    ]
    .concat();
    assert_eq!(buffer.text, expected);
}

#[test]
fn whole_document_is_written_at_once() {
    let items = [Item::new("Item 1")];
    let buffer = write_items(Buffer::new(), &items).unwrap();
    assert_eq!(
        buffer.text,
        format!("{}{}{}", HEADER, "    <item>\n        <title>Item 1</title>\n    </item>\n", FOOTER)
    );
    let empty: [Item; 0] = [];
    assert_eq!(write_items(Buffer::new(), &empty).unwrap().text, format!("{}{}", HEADER, FOOTER));
}

#[test]
fn writer_repeats_the_error_of_its_sink() {
    let sink = Refusing { accepted: 1, text: String::new() };
    let mut xmlw = XMLWriter::new(Recorded::new(sink)).unwrap();
    assert_eq!(xmlw.write_item(&Item::new("Item 1")), Err(SavedError::Os(28)));
    assert_eq!(xmlw.write_item(&Item::new("Item 2")), Err(SavedError::Os(28)));
    match xmlw.close() {
        Err(e) => assert_eq!(e, SavedError::Os(28)),
        Ok(_) => panic!("a writer that failed must not close"),
    }
}

#[test]
fn writer_fails_where_the_header_is_refused() {
    let sink = Refusing { accepted: 0, text: String::new() };
    assert!(XMLWriter::new(Recorded::new(sink)).is_err());
    let items = [Item::new("Item 1")];
    assert!(write_items(Recorded::new(Refusing { accepted: 2, text: String::new() }), &items).is_err());
    let done = write_items(Recorded::new(Refusing { accepted: 3, text: String::new() }), &items).unwrap();
    let done = done.into_inner();
    assert!(done.text.ends_with(FOOTER));
    assert!(done.text.starts_with(HEADER));
}

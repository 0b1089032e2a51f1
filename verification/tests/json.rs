use alfred::json::{write_items, Builder};
use alfred::{Item, ItemBuilder, Modifier};
use serde_json::Value;

fn text(s: &str) -> Value {
    Value::String(s.to_string())
}

fn object(members: Vec<(&str, Value)>) -> Value {
    let mut m = serde_json::Map::new();
    for (k, v) in members {
        m.insert(k.to_string(), v);
    }
    Value::Object(m)
}

#[test]
fn test_into_json() {
    let item = Item::new("Item 1");
    assert_eq!(item.into_json(), object(vec![("title", text("Item 1"))]));
    let item = ItemBuilder::new("Item 2").subtitle("Subtitle").into_item();
    assert_eq!(
        item.into_json(),
        object(vec![("title", text("Item 2")), ("subtitle", text("Subtitle"))])
    );
    let item = ItemBuilder::new("Item 3")
        .arg("Argument")
        .subtitle("Subtitle")
        .icon_filetype("public.folder")
        .into_item();
    assert_eq!(
        item.into_json(),
        object(vec![
            ("title", text("Item 3")),
            ("subtitle", text("Subtitle")),
            ("arg", text("Argument")),
            (
                "icon",
                object(vec![("type", text("filetype")), ("path", text("public.folder"))])
            ),
        ])
    );
    let item = ItemBuilder::new("Item 4")
        .arg("Argument")
        .subtitle("Subtitle")
        .arg_mod(Modifier::Option, "Alt Argument")
        .valid_mod(Modifier::Option, false)
        .icon_file_mod(Modifier::Option, "opt.png")
        .arg_mod(Modifier::Control, "Ctrl Argument")
        .subtitle_mod(Modifier::Control, "Ctrl Subtitle")
        .icon_path_mod(Modifier::Control, "ctrl.png")
        .arg_mod(Modifier::Shift, "Shift Argument")
        .into_item();
    assert_eq!(
        item.into_json(),
        object(vec![
            ("title", text("Item 4")),
            ("subtitle", text("Subtitle")),
            ("arg", text("Argument")),
            (
                "mods",
                object(vec![
                    (
                        "alt",
                        object(vec![
                            ("arg", text("Alt Argument")),
                            ("valid", Value::Bool(false)),
                            (
                                "icon",
                                object(vec![("type", text("fileicon")), ("path", text("opt.png"))])
                            ),
                        ])
                    ),
                    (
                        "ctrl",
                        object(vec![
                            ("arg", text("Ctrl Argument")),
                            ("subtitle", text("Ctrl Subtitle")),
                            ("icon", object(vec![("path", text("ctrl.png"))])),
                        ])
                    ),
                    ("shift", object(vec![("arg", text("Shift Argument"))])),
                ])
            ),
        ])
    );
}

#[test]
fn test_builder() {
    let items = [
        Item::new("Item 1"),
        ItemBuilder::new("Item 2").subtitle("Subtitle").into_item(),
        ItemBuilder::new("Item 3")
            .arg("Argument")
            .subtitle("Subtitle")
            .icon_filetype("public.folder")
            .into_item(),
    ];
    let json = Builder::with_items(&items)
        .variable("fruit", "banana")
        .variable("vegetable", "carrot")
        .into_json();
    assert_eq!(
        json,
        object(vec![
            (
                "items",
                Value::Array(vec![
                    object(vec![("title", text("Item 1"))]),
                    object(vec![("title", text("Item 2")), ("subtitle", text("Subtitle"))]),
                    object(vec![
                        ("title", text("Item 3")),
                        ("arg", text("Argument")),
                        ("subtitle", text("Subtitle")),
                        (
                            "icon",
                            object(vec![("type", text("filetype")), ("path", text("public.folder"))])
                        ),
                    ]),
                ])
            ),
            (
                "variables",
                object(vec![("fruit", text("banana")), ("vegetable", text("carrot"))])
            ),
        ])
    );
}

#[test]
fn document_text_is_compact_json() {
    let items = [Item::new("Item 1")];
    assert_eq!(write_items(&items), "{\"items\":[{\"title\":\"Item 1\"}]}");
    let text = Builder::with_items(&items).variable("fruit", "banana").write();
    assert_eq!(
        text,
        "{\"items\":[{\"title\":\"Item 1\"}],\"variables\":{\"fruit\":\"banana\"}}"
    );
    assert_eq!(Builder::new().write(), "{\"items\":[]}");
}

#[test]
fn item_members_follow_what_is_set() {
    let item = ItemBuilder::new("T")
        .uid("u")
        .type_(alfred::ItemType::FileSkipCheck)
        .valid(false)
        .autocomplete("auto")
        .text_copy("copy me")
        .text_large_type("LARGE")
        .quicklook_url("http://example.com/")
        .icon_path("icon.png")
        .variable("hidden", "value")
        .into_item();
    assert_eq!(
        item.into_json(),
        object(vec![
            ("title", text("T")),
            ("uid", text("u")),
            ("type", text("file:skipcheck")),
            ("valid", Value::Bool(false)),
            ("autocomplete", text("auto")),
            (
                "text",
                object(vec![("copy", text("copy me")), ("largetype", text("LARGE"))])
            ),
            ("quicklookurl", text("http://example.com/")),
            ("icon", object(vec![("path", text("icon.png"))])),
        ])
    );
}

#[test]
fn later_variable_replaces_earlier_one() {
    let items: [Item; 0] = [];
    let json = Builder::with_items(&items)
        .variable("fruit", "banana")
        .variable("fruit", "cherry")
        .into_json();
    assert_eq!(
        json,
        object(vec![
            ("items", Value::Array(vec![])),
            ("variables", object(vec![("fruit", text("cherry"))])),
        ])
    );
}

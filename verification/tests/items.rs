use alfred::{Item, ItemBuilder, ItemType, Modifier, Variables};

#[test]
fn test_variables() {
    let mut builder = ItemBuilder::new("Name");
    builder.set_variable("fruit", "banana");
    builder.set_variable(&"vegetable".to_owned(), "carrot");
    let item = builder.clone().into_item();
    assert_eq!(item.variables.get("fruit").map(|x| x.as_str()), Some("banana"));
    assert_eq!(item.variables.get("vegetable").map(|x| x.as_str()), Some("carrot"));
    assert_eq!(item.variables.get("meat"), None);
    builder.unset_variable("fruit");
    builder.unset_variable("vegetable");
    let item = builder.into_item();
    assert_eq!(item.variables, Variables::new());
}

#[test]
fn new_item_has_only_a_title() {
    let item = Item::new("Item 1");
    assert_eq!(item.title, "Item 1");
    assert_eq!(item.subtitle, None);
    assert_eq!(item.type_, ItemType::Default);
    assert!(item.valid);
    assert!(item.modifiers.is_empty());
    assert!(item.variables.is_empty());
    assert_eq!(item.modifiers.get(Modifier::Command), None);
}

#[test]
fn variables_are_a_map() {
    let mut a = Variables::new();
    assert!(a.is_empty());
    assert_eq!(0, a.len());
    a.insert("fruit", "banana");
    a.insert("vegetable", "carrot");
    a.insert("fruit", "cherry");
    assert_eq!(2, a.len());
    assert_eq!(Some("cherry"), a.get("fruit").map(|s| s.as_str()));
    assert!(a.contains_key("vegetable"));
    assert!(!a.contains_key("meat"));

    let mut b = Variables::new();
    b.insert("vegetable", "carrot");
    b.insert("fruit", "cherry");
    assert_eq!(a, b);
    assert_eq!(a.clone(), b);
    b.insert("fruit", "banana");
    assert_ne!(a, b);
    b.remove("fruit");
    assert_ne!(a, b);
    a.remove("fruit");
    a.remove("fruit");
    assert_eq!(a, b);
    assert_eq!(1, a.pairs().len());
    a.clear();
    assert!(a.is_empty());
    assert_eq!(Variables::default(), a);

    let pairs = vec![
        ("k".to_string(), "1".to_string()),
        ("l".to_string(), "2".to_string()),
        ("k".to_string(), "3".to_string()),
    ];
    let c = Variables::from_pairs(&pairs);
    assert_eq!(2, c.len());
    assert_eq!(Some("3"), c.get("k").map(|s| s.as_str()));
}

#[test]
fn builder_sets_and_unsets_plain_fields() {
    let mut b = ItemBuilder::new("Old");
    b.set_title("Title");
    b.set_subtitle("Subtitle");
    b.set_uid("uid");
    b.set_arg("arg");
    b.set_type(ItemType::File);
    b.set_valid(false);
    b.set_autocomplete("auto");
    b.set_text_copy("copy");
    b.set_text_large_type("large");
    b.set_quicklook_url("url");
    b.set_icon_file("file.png");
    let item = b.clone().into_item();
    assert_eq!("Title", item.title);
    assert_eq!(Some("Subtitle".to_string()), item.subtitle);
    assert_eq!(Some("uid".to_string()), item.uid);
    assert_eq!(Some("arg".to_string()), item.arg);
    assert_eq!(ItemType::File, item.type_);
    assert!(!item.valid);
    assert_eq!(Some("auto".to_string()), item.autocomplete);
    assert_eq!(Some("copy".to_string()), item.text_copy);
    assert_eq!(Some("large".to_string()), item.text_large_type);
    assert_eq!(Some("url".to_string()), item.quicklook_url);
    assert_eq!(Some(alfred::Icon::File("file.png".to_string())), item.icon);

    b.unset_subtitle();
    b.unset_uid();
    b.unset_arg();
    b.unset_autocomplete();
    b.unset_text_copy();
    b.unset_text_large_type();
    b.unset_quicklook_url();
    b.unset_icon();
    b.set_valid(true);
    b.set_type(ItemType::Default);
    assert_eq!(Item::new("Title"), b.into_item());

    let chained = ItemBuilder::new("x")
        .title("Title")
        .icon_path("p")
        .icon_file("f")
        .icon_filetype("t")
        .into_item();
    assert_eq!(Some(alfred::Icon::FileType("t".to_string())), chained.icon);
}

#[test]
fn builder_keeps_overrides_by_modifier() {
    let mut b = ItemBuilder::new("T");
    b.set_subtitle_mod(Modifier::Command, "cmd subtitle");
    b.set_arg_mod(Modifier::Command, "cmd arg");
    b.set_valid_mod(Modifier::Option, true);
    b.set_icon_path_mod(Modifier::Fn, "fn.png");
    b.set_variable_mod(Modifier::Shift, "k", "v");
    let item = b.clone().into_item();
    let cmd = item.modifiers.get(Modifier::Command).unwrap();
    assert_eq!(Some("cmd subtitle".to_string()), cmd.subtitle);
    assert_eq!(Some("cmd arg".to_string()), cmd.arg);
    assert_eq!(None, cmd.valid);
    assert_eq!(Some(true), item.modifiers.get(Modifier::Option).unwrap().valid);
    assert_eq!(
        Some(alfred::Icon::Path("fn.png".to_string())),
        item.modifiers.get(Modifier::Fn).unwrap().icon
    );
    assert_eq!(Some("v"), item.modifiers.get(Modifier::Shift).unwrap().variables.get("k").map(|s| s.as_str()));
    assert_eq!(None, item.modifiers.get(Modifier::Control));

    // data that overrides nothing any more leaves the item
    b.unset_subtitle_mod(Modifier::Command);
    assert!(b.clone().into_item().modifiers.get(Modifier::Command).is_some());
    b.unset_arg_mod(Modifier::Command);
    assert_eq!(None, b.clone().into_item().modifiers.get(Modifier::Command));
    b.unset_valid_mod(Modifier::Option);
    b.unset_icon_mod(Modifier::Fn);
    b.unset_variable_mod(Modifier::Shift, "other");
    assert!(b.clone().into_item().modifiers.get(Modifier::Shift).is_some());
    b.unset_variable_mod(Modifier::Shift, "k");
    b.unset_variable_mod(Modifier::Control, "k");
    b.unset_subtitle_mod(Modifier::Control);
    assert!(b.clone().into_item().modifiers.is_empty());
    assert_eq!(Item::new("T"), b.into_item());
}

#[test]
fn builder_clears_a_part_everywhere() {
    let full = ItemBuilder::new("T")
        .subtitle("s")
        .arg("a")
        .valid(false)
        .icon_path("i")
        .variable("k", "v")
        .subtitle_mod(Modifier::Command, "cs")
        .arg_mod(Modifier::Command, "ca")
        .subtitle_mod(Modifier::Option, "os")
        .valid_mod(Modifier::Control, false)
        .icon_filetype_mod(Modifier::Shift, "public.folder")
        .variable_mod(Modifier::Fn, "k", "v")
        .variables_mod(Modifier::Fn, &vec![("a".to_string(), "b".to_string())]);

    let mut b = full.clone();
    b.clear_subtitle();
    let item = b.into_item();
    assert_eq!(None, item.subtitle);
    assert_eq!(None, item.modifiers.get(Modifier::Command).unwrap().subtitle);
    assert_eq!(Some("ca".to_string()), item.modifiers.get(Modifier::Command).unwrap().arg);
    assert_eq!(None, item.modifiers.get(Modifier::Option));
    assert!(item.modifiers.get(Modifier::Control).is_some());

    let mut b = full.clone();
    b.clear_arg();
    let item = b.into_item();
    assert_eq!(None, item.arg);
    assert_eq!(None, item.modifiers.get(Modifier::Command).unwrap().arg);
    assert_eq!(Some("s".to_string()), item.subtitle);

    let mut b = full.clone();
    b.clear_valid();
    let item = b.into_item();
    assert!(item.valid);
    assert_eq!(None, item.modifiers.get(Modifier::Control));

    let mut b = full.clone();
    b.clear_icon();
    let item = b.into_item();
    assert_eq!(None, item.icon);
    assert_eq!(None, item.modifiers.get(Modifier::Shift));

    let mut b = full.clone();
    b.clear_variables();
    let item = b.into_item();
    assert!(item.variables.is_empty());
    assert_eq!(None, item.modifiers.get(Modifier::Fn));

    let mut b = full.clone();
    b.unset_variables();
    b.unset_variables_mod(Modifier::Fn);
    b.unset_variables_mod(Modifier::Command);
    let item = b.into_item();
    assert!(item.variables.is_empty());
    assert_eq!(None, item.modifiers.get(Modifier::Fn));
    assert!(item.modifiers.get(Modifier::Command).is_some());

    let fn_data = full.clone().into_item();
    let data = fn_data.modifiers.get(Modifier::Fn).unwrap();
    assert_eq!(1, data.variables.len());
    assert_eq!(Some("b"), data.variables.get("a").map(|s| s.as_str()));
}

#[test]
fn builder_sets_a_whole_modifier() {
    let mut b = ItemBuilder::new("T").subtitle_mod(Modifier::Command, "old").variable_mod(Modifier::Command, "k", "v");
    b.set_modifier(Modifier::Command, None, Some("arg"), false, Some(alfred::Icon::Path("p".to_string())));
    let item = b.clone().into_item();
    let data = item.modifiers.get(Modifier::Command).unwrap();
    assert_eq!(None, data.subtitle);
    assert_eq!(Some("arg".to_string()), data.arg);
    assert_eq!(Some(false), data.valid);
    assert_eq!(Some(alfred::Icon::Path("p".to_string())), data.icon);
    assert!(data.variables.is_empty());
    b.unset_modifier(Modifier::Command);
    b.unset_modifier(Modifier::Option);
    assert!(b.into_item().modifiers.is_empty());

    let item = ItemBuilder::new("T").modifier(Modifier::Shift, Some("s"), None, true, None).into_item();
    let data = item.modifiers.get(Modifier::Shift).unwrap();
    assert_eq!(Some("s".to_string()), data.subtitle);
    assert_eq!(Some(true), data.valid);
    assert!(!data.is_empty());
    assert!(alfred::ModifierData::new().is_empty());
    assert_eq!(alfred::ModifierData::default(), alfred::ModifierData::new());
}

#[test]
fn builder_sets_all_variables_at_once() {
    let pairs = vec![("a".to_string(), "1".to_string()), ("b".to_string(), "2".to_string())];
    let item = ItemBuilder::new("T").variable("old", "x").variables(&pairs).into_item();
    assert_eq!(2, item.variables.len());
    assert!(!item.variables.contains_key("old"));
    assert_eq!(Some("2"), item.variables.get("b").map(|s| s.as_str()));
}

//! Helpers for writing Alfred script filter JSON output (Alfred 3)
//!
//! The document is built as a `serde_json::Value`; [`write_items`] and
//! [`Builder::write`] give its compact text, which the caller writes out.
//! What a value is built of is stated by [`item_json`] and [`document`].
//!
//! The variables of an item and of its modifiers are not part of the
//! document; the variables of the [`Builder`] are.

use vstd::prelude::*;
use crate::value::{
    array, boolean, json_model, json_models, json_text, map_insert, map_new, members, object, render, text,
    JsonMap, JsonModel,
};
use crate::variables::{lemma_pairs_map_push, pairs_map, Variables};
use crate::{Icon, IconView, Item, ItemType, ItemView, Modifier, ModifierData, ModifierDataView};

verus! {

/// The members `m` and, where `v` is there, the string `v` under `key`.
pub open spec fn with_text(m: Map<Seq<char>, JsonModel>, key: Seq<char>, v: Option<Seq<char>>) -> Map<
    Seq<char>,
    JsonModel,
> {
    match v {
        Some(s) => m.insert(key, JsonModel::Text(s)),
        None => m,
    }
}

/// The members `m` and, where `v` is there, the value `v` under `key`.
pub open spec fn with_value(m: Map<Seq<char>, JsonModel>, key: Seq<char>, v: Option<JsonModel>) -> Map<
    Seq<char>,
    JsonModel,
> {
    match v {
        Some(x) => m.insert(key, x),
        None => m,
    }
}

/// The object that stands for an icon.
pub open spec fn icon_json(i: IconView) -> JsonModel {
    match i {
        IconView::Path(s) => JsonModel::Object(Map::empty().insert("path"@, JsonModel::Text(s))),
        IconView::File(s) => JsonModel::Object(
            Map::empty().insert("type"@, JsonModel::Text("fileicon"@)).insert("path"@, JsonModel::Text(s)),
        ),
        IconView::FileType(s) => JsonModel::Object(
            Map::empty().insert("type"@, JsonModel::Text("filetype"@)).insert("path"@, JsonModel::Text(s)),
        ),
    }
}

/// The object that stands for an icon, where there is one.
pub open spec fn optional_icon_json(i: Option<IconView>) -> Option<JsonModel> {
    match i {
        Some(icon) => Some(icon_json(icon)),
        None => None,
    }
}

/// The name of a modifier in a document.
pub open spec fn modifier_key(m: Modifier) -> Seq<char> {
    match m {
        Modifier::Command => "cmd"@,
        Modifier::Option => "alt"@,
        Modifier::Control => "ctrl"@,
        Modifier::Shift => "shift"@,
        Modifier::Fn => "fn"@,
    }
}

/// The truth value, where there is one.
pub open spec fn optional_bool_json(b: Option<bool>) -> Option<JsonModel> {
    match b {
        Some(x) => Some(JsonModel::Bool(x)),
        None => None,
    }
}

/// The object that stands for what a modifier overrides: its members are
/// `subtitle`, `arg`, `valid` and `icon`, each where it is set.
pub open spec fn data_json(d: ModifierDataView) -> JsonModel {
    JsonModel::Object(
        with_value(
            with_value(
                with_text(with_text(Map::empty(), "subtitle"@, d.subtitle), "arg"@, d.arg),
                "valid"@,
                optional_bool_json(d.valid),
            ),
            "icon"@,
            optional_icon_json(d.icon),
        ),
    )
}

/// The members `m` and, where `mods` holds data for `modifier`, the object of
/// that data under the name of the modifier.
pub open spec fn with_modifier(
    m: Map<Seq<char>, JsonModel>,
    mods: Map<Modifier, ModifierDataView>,
    modifier: Modifier,
) -> Map<Seq<char>, JsonModel> {
    if mods.contains_key(modifier) {
        m.insert(modifier_key(modifier), data_json(mods[modifier]))
    } else {
        m
    }
}

/// The members of the object `mods` of an item: one for each modifier that
/// overrides something.
pub open spec fn mods_json(mods: Map<Modifier, ModifierDataView>) -> Map<Seq<char>, JsonModel> {
    with_modifier(
        with_modifier(
            with_modifier(
                with_modifier(with_modifier(Map::empty(), mods, Modifier::Command), mods, Modifier::Option),
                mods,
                Modifier::Control,
            ),
            mods,
            Modifier::Shift,
        ),
        mods,
        Modifier::Fn,
    )
}

/// What stands for the type of an item; the default type is not written.
pub open spec fn type_json(t: ItemType) -> Option<Seq<char>> {
    match t {
        ItemType::Default => None,
        ItemType::File => Some("file"@),
        ItemType::FileSkipCheck => Some("file:skipcheck"@),
    }
}

/// The object `text` of an item, where the item has a text to copy or a text
/// for large type.
pub open spec fn texts_json(i: ItemView) -> Option<JsonModel> {
    if i.text_copy is Some || i.text_large_type is Some {
        Some(
            JsonModel::Object(
                with_text(with_text(Map::empty(), "copy"@, i.text_copy), "largetype"@, i.text_large_type),
            ),
        )
    } else {
        None
    }
}

/// The members of the object that stands for an item, up to `autocomplete`.
pub open spec fn item_head(i: ItemView) -> Map<Seq<char>, JsonModel> {
    with_text(
        with_value(
            with_text(
                with_text(
                    with_text(
                        with_value(
                            with_text(
                                Map::empty().insert("title"@, JsonModel::Text(i.title)),
                                "subtitle"@,
                                i.subtitle,
                            ),
                            "icon"@,
                            optional_icon_json(i.icon),
                        ),
                        "uid"@,
                        i.uid,
                    ),
                    "arg"@,
                    i.arg,
                ),
                "type"@,
                type_json(i.type_),
            ),
            "valid"@,
            if i.valid {
                None
            } else {
                Some(JsonModel::Bool(false))
            },
        ),
        "autocomplete"@,
        i.autocomplete,
    )
}

/// The object that stands for an item.
///
/// Its members are `title`, then `subtitle`, `icon`, `uid`, `arg` and
/// `autocomplete` where they are set, `type` where it is not the default,
/// `valid` where the item is not valid, `text` and `quicklookurl` where they
/// are set, and `mods` where a modifier overrides something.
pub open spec fn item_json(i: ItemView) -> JsonModel {
    JsonModel::Object(
        with_value(
            with_text(with_value(item_head(i), "text"@, texts_json(i)), "quicklookurl"@, i.quicklook_url),
            "mods"@,
            if i.modifiers == Map::<Modifier, ModifierDataView>::empty() {
                None
            } else {
                Some(JsonModel::Object(mods_json(i.modifiers)))
            },
        ),
    )
}

/// The strings of a map of variables, as values of JSON.
pub open spec fn texts(variables: Map<Seq<char>, Seq<char>>) -> Map<Seq<char>, JsonModel> {
    Map::new(|k: Seq<char>| variables.contains_key(k), |k: Seq<char>| JsonModel::Text(variables[k]))
}

/// The views of a sequence of items.
pub open spec fn item_views(items: Seq<Item>) -> Seq<ItemView> {
    items.map_values(|i: Item| i@)
}

/// The objects that stand for a sequence of items.
pub open spec fn items_json(items: Seq<ItemView>) -> Seq<JsonModel> {
    items.map_values(|i: ItemView| item_json(i))
}

/// The document of items and variables: an object with the array `items` and,
/// where there are variables, the object `variables`.
pub open spec fn document(items: Seq<ItemView>, variables: Map<Seq<char>, Seq<char>>) -> JsonModel {
    JsonModel::Object(
        with_value(
            Map::empty().insert("items"@, JsonModel::Array(items_json(items))),
            "variables"@,
            if variables == Map::<Seq<char>, Seq<char>>::empty() {
                None
            } else {
                Some(JsonModel::Object(texts(variables)))
            },
        ),
    )
}

/// Puts the string `v` under `key`, where `v` is there.
fn insert_text(m: &mut JsonMap, key: &str, v: &Option<String>)
    ensures
        members(*final(m)) == with_text(members(*old(m)), key@, crate::text_view(*v)),
{
    match v {
        Some(s) => {
            map_insert(m, key, text(s.as_str()));
        },
        None => {},
    }
}

/// Gives the complete JSON document representing the `Item`s.
pub fn write_items(items: &[Item]) -> (r: String)
    ensures
        r@ == json_text(document(item_views(items@), Map::empty())),
{
    Builder::with_items(items).write()
}

/// A helper type for writing out items with top-level variables.
///
/// Note: If you don't need top-level variables the `write_items()` function is easier to use.
pub struct Builder<'a> {
    /// The items that will be written out.
    pub items: &'a [Item],
    /// The variables that will be written out.
    pub variables: Variables,
}

/// What a [`Builder`] is in contracts.
pub struct BuilderView {
    pub items: Seq<ItemView>,
    pub variables: Map<Seq<char>, Seq<char>>,
}

impl<'a> View for Builder<'a> {
    type V = BuilderView;

    open spec fn view(&self) -> BuilderView {
        BuilderView { items: item_views(self.items@), variables: self.variables@ }
    }
}

impl<'a> Builder<'a> {
    /// Returns a new `Builder` with no items.
    pub fn new() -> (r: Builder<'a>)
        ensures
            r@ == (BuilderView { items: Seq::empty(), variables: Map::empty() }),
    {
        let items: &[Item] = &[];
        let r = Builder { items, variables: Variables::new() };
        assert(r@.items =~= Seq::<ItemView>::empty());
        r
    }

    /// Returns a new `Builder` with the given items.
    pub fn with_items(items: &'a [Item]) -> (r: Builder<'a>)
        ensures
            r@ == (BuilderView { items: item_views(items@), variables: Map::empty() }),
    {
        Builder { items, variables: Variables::new() }
    }

    /// Gives the complete JSON document representing the items and variables.
    pub fn write(self) -> (r: String)
        ensures
            r@ == json_text(document(self@.items, self@.variables)),
    {
        let value = self.into_json();
        render(&value)
    }

    /// The JSON value of the document.
    pub fn into_json(self) -> (r: serde_json::Value)
        ensures
            json_model(r) == document(self@.items, self@.variables),
    {
        let mut root = map_new();
        let mut listed: Vec<serde_json::Value> = Vec::new();
        let mut i: usize = 0;
        while i < self.items.len()
            invariant
                i <= self.items.len(),
                listed@.len() == i,
                forall|j: int| 0 <= j < i ==> json_model(#[trigger] listed@[j]) == item_json(self.items@[j]@),
            decreases self.items.len() - i,
        {
            listed.push(self.items[i].into_json());
            i = i + 1;
        }
        assert(json_models(listed@) =~= items_json(item_views(self.items@)));
        map_insert(&mut root, "items", array(listed));
        if !self.variables.is_empty() {
            let pairs = self.variables.pairs();
            let mut vars = map_new();
            let mut k: usize = 0;
            while k < pairs.len()
                invariant
                    k <= pairs.len(),
                    members(vars) == texts(pairs_map(pairs@.take(k as int))),
                decreases pairs.len() - k,
            {
                proof {
                    assert(pairs@.take(k + 1) =~= pairs@.take(k as int).push(pairs@[k as int]));
                    lemma_pairs_map_push(pairs@.take(k as int), pairs@[k as int]);
                }
                map_insert(&mut vars, pairs[k].0.as_str(), text(pairs[k].1.as_str()));
                assert(members(vars) =~= texts(pairs_map(pairs@.take(k + 1))));
                k = k + 1;
            }
            assert(pairs@.take(pairs@.len() as int) =~= pairs@);
            map_insert(&mut root, "variables", object(vars));
        }
        object(root)
    }

    /// Replaces the builder's items with `items`.
    pub fn items(self, items: &'a [Item]) -> (r: Builder<'a>)
        ensures
            r@ == (BuilderView { items: item_views(items@), ..self@ }),
    {
        let mut b = self;
        b.set_items(items);
        b
    }

    /// Replaces the builder's variables with `variables`.
    pub fn variables(self, variables: Variables) -> (r: Builder<'a>)
        ensures
            r@ == (BuilderView { variables: variables@, ..self@ }),
    {
        let mut b = self;
        b.set_variables(variables);
        b
    }

    /// Inserts a new variable into the builder's variables.
    pub fn variable(self, key: &str, value: &str) -> (r: Builder<'a>)
        ensures
            r@ == (BuilderView { variables: self@.variables.insert(key@, value@), ..self@ }),
    {
        let mut b = self;
        b.set_variable(key, value);
        b
    }

    /// Replaces the builder's items with `items`.
    pub fn set_items(&mut self, items: &'a [Item])
        ensures
            final(self)@ == (BuilderView { items: item_views(items@), ..old(self)@ }),
    {
        self.items = items;
    }

    /// Replaces the builder's variables with `variables`.
    pub fn set_variables(&mut self, variables: Variables)
        ensures
            final(self)@ == (BuilderView { variables: variables@, ..old(self)@ }),
    {
        self.variables = variables;
    }

    /// Inserts a new variable into the builder's variables.
    pub fn set_variable(&mut self, key: &str, value: &str)
        ensures
            final(self)@ == (BuilderView { variables: old(self)@.variables.insert(key@, value@), ..old(self)@ }),
    {
        self.variables.insert(key, value);
    }
}

impl Icon {
    /// The JSON value of the icon.
    pub fn into_json(&self) -> (r: serde_json::Value)
        ensures
            json_model(r) == icon_json(self@),
    {
        let mut m = map_new();
        match self {
            Icon::Path(s) => {
                map_insert(&mut m, "path", text(s.as_str()));
            },
            Icon::File(s) => {
                map_insert(&mut m, "type", text("fileicon"));
                map_insert(&mut m, "path", text(s.as_str()));
            },
            Icon::FileType(s) => {
                map_insert(&mut m, "type", text("filetype"));
                map_insert(&mut m, "path", text(s.as_str()));
            },
        }
        object(m)
    }
}

impl Modifier {
    /// The name of the modifier in a document.
    pub fn key(&self) -> (r: &'static str)
        ensures
            r@ == modifier_key(*self),
    {
        match self {
            Modifier::Command => "cmd",
            Modifier::Option => "alt",
            Modifier::Control => "ctrl",
            Modifier::Shift => "shift",
            Modifier::Fn => "fn",
        }
    }
}

impl ModifierData {
    /// The JSON value of what a modifier overrides.
    pub fn into_json(&self) -> (r: serde_json::Value)
        ensures
            json_model(r) == data_json(self@),
    {
        let mut m = map_new();
        insert_text(&mut m, "subtitle", &self.subtitle);
        insert_text(&mut m, "arg", &self.arg);
        match self.valid {
            Some(valid) => {
                map_insert(&mut m, "valid", boolean(valid));
            },
            None => {},
        }
        match &self.icon {
            Some(icon) => {
                map_insert(&mut m, "icon", icon.into_json());
            },
            None => {},
        }
        object(m)
    }
}

/// Puts the object of the data that `item` holds for `modifier` under the
/// name of the modifier, where it holds any.
fn insert_modifier(m: &mut JsonMap, item: &Item, modifier: Modifier)
    ensures
        members(*final(m)) == with_modifier(members(*old(m)), item@.modifiers, modifier),
{
    match item.modifiers.get(modifier) {
        Some(data) => {
            map_insert(m, modifier.key(), data.into_json());
        },
        None => {},
    }
}

impl Item {
    /// The JSON value of the item.
    pub fn into_json(&self) -> (r: serde_json::Value)
        ensures
            json_model(r) == item_json(self@),
    {
        let mut d = map_new();
        map_insert(&mut d, "title", text(self.title.as_str()));
        insert_text(&mut d, "subtitle", &self.subtitle);
        match &self.icon {
            Some(icon) => {
                map_insert(&mut d, "icon", icon.into_json());
            },
            None => {},
        }
        insert_text(&mut d, "uid", &self.uid);
        insert_text(&mut d, "arg", &self.arg);
        match self.type_ {
            ItemType::Default => {},
            ItemType::File => {
                map_insert(&mut d, "type", text("file"));
            },
            ItemType::FileSkipCheck => {
                map_insert(&mut d, "type", text("file:skipcheck"));
            },
        }
        if !self.valid {
            map_insert(&mut d, "valid", boolean(false));
        }
        insert_text(&mut d, "autocomplete", &self.autocomplete);
        assert(members(d) == item_head(self@));
        if self.text_copy.is_some() || self.text_large_type.is_some() {
            let mut texts = map_new();
            insert_text(&mut texts, "copy", &self.text_copy);
            insert_text(&mut texts, "largetype", &self.text_large_type);
            map_insert(&mut d, "text", object(texts));
        }
        insert_text(&mut d, "quicklookurl", &self.quicklook_url);
        if !self.modifiers.is_empty() {
            let mut mods = map_new();
            insert_modifier(&mut mods, self, Modifier::Command);
            insert_modifier(&mut mods, self, Modifier::Option);
            insert_modifier(&mut mods, self, Modifier::Control);
            insert_modifier(&mut mods, self, Modifier::Shift);
            insert_modifier(&mut mods, self, Modifier::Fn);
            map_insert(&mut d, "mods", object(mods));
        }
        object(d)
    }
}

} // verus!

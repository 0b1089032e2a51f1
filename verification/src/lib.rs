//! Helpers for writing Alfred script filter output, and for keeping a
//! workflow up to date.
//!
//! An [`Item`] is one result of a script filter.  [`ItemBuilder`] builds items
//! step by step; the `json` and `xml` modules turn items into the documents
//! that Alfred reads; the `updater` module decides when a workflow should look
//! for a newer release of itself and where a download goes.
//!
//! Every type has a view, a mathematical value that the contracts speak of: a
//! string is viewed as its sequence of characters, a set of variables as a map
//! from names to values, an item as an [`ItemView`].

use vstd::prelude::*;
use crate::variables::pairs_map;

pub mod env;
pub mod json;
pub mod text;
pub mod timestamp;
pub mod updater;
pub mod value;
pub mod variables;
pub mod version;
pub mod xml;

pub use crate::updater::Updater;
pub use crate::variables::Variables;
pub use crate::xml::XMLWriter;

verus! {

/// Keyboard modifiers.
#[derive(Copy, Clone, Debug, PartialEq, Eq, Hash, Structural)]
pub enum Modifier {
    /// Command key
    Command,
    /// Option/Alt key
    Option,
    /// Control key
    Control,
    /// Shift key
    Shift,
    /// Fn key
    Fn,
}

/// Item types
#[derive(Copy, Clone, Debug, PartialEq, Eq, Hash, Structural)]
pub enum ItemType {
    /// Default type for an item.
    Default,
    /// Type representing a file.
    ///
    /// Alfred checks that the file exists on disk, and hides the result if it
    /// does not.
    File,
    /// Type representing a file, with filesystem checks skipped.
    ///
    /// Similar to `File` but skips the check to ensure the file exists.
    FileSkipCheck,
}

/// Item icons
#[derive(Clone, Debug, PartialEq, Eq, Hash)]
pub enum Icon {
    /// Path to an image file on disk relative to the workflow directory.
    Path(String),
    /// Path to a file whose icon will be used.
    File(String),
    /// UTI for a file type to use (e.g. public.folder).
    FileType(String),
}

/// What an [`Icon`] is in contracts.
pub enum IconView {
    Path(Seq<char>),
    File(Seq<char>),
    FileType(Seq<char>),
}

impl View for Icon {
    type V = IconView;

    open spec fn view(&self) -> IconView {
        match *self {
            Icon::Path(s) => IconView::Path(s@),
            Icon::File(s) => IconView::File(s@),
            Icon::FileType(s) => IconView::FileType(s@),
        }
    }
}

impl Icon {
    /// A copy of the icon.
    pub fn duplicate(&self) -> (r: Icon)
        ensures
            r@ == self@,
    {
        match self {
            Icon::Path(s) => Icon::Path(s.clone()),
            Icon::File(s) => Icon::File(s.clone()),
            Icon::FileType(s) => Icon::FileType(s.clone()),
        }
    }
}

/// The characters of an optional string.
pub open spec fn text_view(o: Option<String>) -> Option<Seq<char>> {
    match o {
        Some(s) => Some(s@),
        None => None,
    }
}

/// The characters of an optional string slice.
pub open spec fn str_view(o: Option<&str>) -> Option<Seq<char>> {
    match o {
        Some(s) => Some(s@),
        None => None,
    }
}

/// An owned copy of an optional string slice.
pub fn owned_text(o: Option<&str>) -> (r: Option<String>)
    ensures
        text_view(r) == str_view(o),
{
    match o {
        Some(s) => Some(s.to_owned()),
        None => None,
    }
}

/// The view of an optional icon.
pub open spec fn icon_view(o: Option<Icon>) -> Option<IconView> {
    match o {
        Some(i) => Some(i@),
        None => None,
    }
}

/// One of the five things that a modifier can override.
#[derive(Copy, Clone, Debug, PartialEq, Eq, Structural)]
pub enum Part {
    Subtitle,
    Arg,
    Valid,
    Icon,
    Variables,
}

/// Optional overrides of subtitle, arg, and valid for modifiers.
#[derive(Clone, Debug, PartialEq, Eq)]
pub struct ModifierData {
    /// The subtitle to use for the current modifier.
    pub subtitle: Option<String>,
    /// The arg to use for the current modifier.
    pub arg: Option<String>,
    /// The validity to use for the current modifier.
    pub valid: Option<bool>,
    /// The result icon to use for the current modifier.
    ///
    /// This icon is only supported when using JSON output. The legacy XML output format does not
    /// support per-modifier icons.
    ///
    /// This icon is only used with Alfred 3.4.1 or later.
    pub icon: Option<Icon>,
    /// Variables to pass out of the script filter if the item is selected in Alfred's results
    /// using this modifier.
    ///
    /// This property is only used with JSON output and only affects Alfred 3.4.1 or later.
    pub variables: Variables,
}

/// What a [`ModifierData`] is in contracts.
pub struct ModifierDataView {
    pub subtitle: Option<Seq<char>>,
    pub arg: Option<Seq<char>>,
    pub valid: Option<bool>,
    pub icon: Option<IconView>,
    pub variables: Map<Seq<char>, Seq<char>>,
}

impl ModifierDataView {
    /// Data that overrides nothing.
    pub open spec fn empty() -> ModifierDataView {
        ModifierDataView { subtitle: None, arg: None, valid: None, icon: None, variables: Map::empty() }
    }

    /// Whether the data overrides nothing.
    pub open spec fn is_empty(self) -> bool {
        &&& self.subtitle is None
        &&& self.arg is None
        &&& self.valid is None
        &&& self.icon is None
        &&& self.variables == (Map::<Seq<char>, Seq<char>>::empty())
    }

    /// The data with one of its parts taken away.
    pub open spec fn without(self, part: Part) -> ModifierDataView {
        match part {
            Part::Subtitle => ModifierDataView { subtitle: None, ..self },
            Part::Arg => ModifierDataView { arg: None, ..self },
            Part::Valid => ModifierDataView { valid: None, ..self },
            Part::Icon => ModifierDataView { icon: None, ..self },
            Part::Variables => ModifierDataView { variables: Map::empty(), ..self },
        }
    }
}

impl View for ModifierData {
    type V = ModifierDataView;

    open spec fn view(&self) -> ModifierDataView {
        ModifierDataView {
            subtitle: text_view(self.subtitle),
            arg: text_view(self.arg),
            valid: self.valid,
            icon: icon_view(self.icon),
            variables: self.variables@,
        }
    }
}

impl ModifierData {
    /// Returns a new `ModifierData` where all fields are `None`.
    pub fn new() -> (r: ModifierData)
        ensures
            r@ == ModifierDataView::empty(),
    {
        ModifierData { subtitle: None, arg: None, valid: None, icon: None, variables: Variables::new() }
    }

    /// Whether the data overrides nothing.
    pub fn is_empty(&self) -> (r: bool)
        ensures
            r == self@.is_empty(),
    {
        self.subtitle.is_none() && self.arg.is_none() && self.valid.is_none() && self.icon.is_none()
            && self.variables.is_empty()
    }

    /// Takes one part of the data away.
    pub fn strip(&mut self, part: Part)
        ensures
            final(self)@ == old(self)@.without(part),
    {
        match part {
            Part::Subtitle => {
                self.subtitle = None;
            },
            Part::Arg => {
                self.arg = None;
            },
            Part::Valid => {
                self.valid = None;
            },
            Part::Icon => {
                self.icon = None;
            },
            Part::Variables => {
                self.variables.clear();
            },
        }
    }
}

impl Default for ModifierData {
    fn default() -> (r: ModifierData)
        ensures
            r@ == ModifierDataView::empty(),
    {
        ModifierData::new()
    }
}

/// The overrides of an item, one optional [`ModifierData`] for each modifier.
#[derive(Clone, Debug, PartialEq, Eq)]
pub struct ModifierMap {
    /// What the Command key overrides.
    pub command: Option<ModifierData>,
    /// What the Option/Alt key overrides.
    pub option: Option<ModifierData>,
    /// What the Control key overrides.
    pub control: Option<ModifierData>,
    /// What the Shift key overrides.
    pub shift: Option<ModifierData>,
    /// What the Fn key overrides.
    pub function: Option<ModifierData>,
}

impl ModifierMap {
    /// The data stored for `modifier`, if any.
    pub open spec fn slot(self, modifier: Modifier) -> Option<ModifierData> {
        match modifier {
            Modifier::Command => self.command,
            Modifier::Option => self.option,
            Modifier::Control => self.control,
            Modifier::Shift => self.shift,
            Modifier::Fn => self.function,
        }
    }

    /// A map without any override.
    pub fn new() -> (r: ModifierMap)
        ensures
            r@ == (Map::<Modifier, ModifierDataView>::empty()),
    {
        let r = ModifierMap { command: None, option: None, control: None, shift: None, function: None };
        assert(r@ =~= Map::<Modifier, ModifierDataView>::empty());
        r
    }

    /// Whether no modifier overrides anything.
    pub fn is_empty(&self) -> (r: bool)
        ensures
            r == (self@ == (Map::<Modifier, ModifierDataView>::empty())),
    {
        let r = self.command.is_none() && self.option.is_none() && self.control.is_none()
            && self.shift.is_none() && self.function.is_none();
        proof {
            if r {
                assert(self@ =~= Map::<Modifier, ModifierDataView>::empty());
            } else {
                let k = if self.command is Some {
                    Modifier::Command
                } else if self.option is Some {
                    Modifier::Option
                } else if self.control is Some {
                    Modifier::Control
                } else if self.shift is Some {
                    Modifier::Shift
                } else {
                    Modifier::Fn
                };
                assert(self@.contains_key(k));
                assert(!Map::<Modifier, ModifierDataView>::empty().contains_key(k));
            }
        }
        r
    }

    /// The data of `modifier`, if the map holds any.
    pub fn get(&self, modifier: Modifier) -> (r: Option<&ModifierData>)
        ensures
            match r {
                Some(d) => self@.contains_key(modifier) && self@[modifier] == d@,
                None => !self@.contains_key(modifier),
            },
    {
        match modifier {
            Modifier::Command => self.command.as_ref(),
            Modifier::Option => self.option.as_ref(),
            Modifier::Control => self.control.as_ref(),
            Modifier::Shift => self.shift.as_ref(),
            Modifier::Fn => self.function.as_ref(),
        }
    }

    /// Stores `data` for `modifier`, replacing what was there.
    pub fn insert(&mut self, modifier: Modifier, data: ModifierData)
        ensures
            final(self)@ == old(self)@.insert(modifier, data@),
    {
        match modifier {
            Modifier::Command => {
                self.command = Some(data);
            },
            Modifier::Option => {
                self.option = Some(data);
            },
            Modifier::Control => {
                self.control = Some(data);
            },
            Modifier::Shift => {
                self.shift = Some(data);
            },
            Modifier::Fn => {
                self.function = Some(data);
            },
        }
        assert(self@ =~= old(self)@.insert(modifier, data@));
    }

    /// Takes the data of `modifier` out of the map.
    pub fn remove(&mut self, modifier: Modifier) -> (r: Option<ModifierData>)
        ensures
            final(self)@ == old(self)@.remove(modifier),
            match r {
                Some(d) => old(self)@.contains_key(modifier) && old(self)@[modifier] == d@,
                None => !old(self)@.contains_key(modifier),
            },
    {
        let r = match modifier {
            Modifier::Command => self.command.take(),
            Modifier::Option => self.option.take(),
            Modifier::Control => self.control.take(),
            Modifier::Shift => self.shift.take(),
            Modifier::Fn => self.function.take(),
        };
        assert(self@ =~= old(self)@.remove(modifier));
        r
    }
}

impl View for ModifierMap {
    type V = Map<Modifier, ModifierDataView>;

    open spec fn view(&self) -> Map<Modifier, ModifierDataView> {
        Map::new(|k: Modifier| self.slot(k) is Some, |k: Modifier| self.slot(k)->0@)
    }
}

/// The data that `mods` holds for `modifier`, or empty data where it holds
/// none.
pub open spec fn data_or_empty(mods: Map<Modifier, ModifierDataView>, modifier: Modifier) -> ModifierDataView {
    if mods.contains_key(modifier) {
        mods[modifier]
    } else {
        ModifierDataView::empty()
    }
}

/// `mods` after one part of the data of `modifier` was taken away: data that is
/// empty afterwards leaves the map.
pub open spec fn unset_part(
    mods: Map<Modifier, ModifierDataView>,
    modifier: Modifier,
    part: Part,
) -> Map<Modifier, ModifierDataView> {
    if !mods.contains_key(modifier) {
        mods
    } else if mods[modifier].without(part).is_empty() {
        mods.remove(modifier)
    } else {
        mods.insert(modifier, mods[modifier].without(part))
    }
}

/// `mods` after the variable `key` was taken away from the data of `modifier`:
/// data that is empty afterwards leaves the map.
pub open spec fn unset_variable(
    mods: Map<Modifier, ModifierDataView>,
    modifier: Modifier,
    key: Seq<char>,
) -> Map<Modifier, ModifierDataView> {
    if !mods.contains_key(modifier) {
        mods
    } else {
        let data = ModifierDataView { variables: mods[modifier].variables.remove(key), ..mods[modifier] };
        if data.is_empty() {
            mods.remove(modifier)
        } else {
            mods.insert(modifier, data)
        }
    }
}

/// `mods` after one part was taken away from the data of every modifier.
pub open spec fn clear_part(mods: Map<Modifier, ModifierDataView>, part: Part) -> Map<
    Modifier,
    ModifierDataView,
> {
    Map::new(
        |k: Modifier| mods.contains_key(k) && !mods[k].without(part).is_empty(),
        |k: Modifier| mods[k].without(part),
    )
}

/// Representation of a script filter item.
#[derive(Clone, Debug, PartialEq, Eq)]
pub struct Item {
    /// Title for the item.
    pub title: String,
    /// Subtitle for the item.
    ///
    /// The subtitle may be overridden by modifiers.
    pub subtitle: Option<String>,
    /// Icon for the item
    pub icon: Option<Icon>,
    /// Identifier for the results.
    ///
    /// If given, must be unique among items, and is used for prioritizing
    /// feedback results based on usage. If blank, Alfred presents results in
    /// the order given and does not learn from them.
    pub uid: Option<String>,
    /// The value that is passed to the next portion of the workflow when this
    /// item is selected.
    ///
    /// The arg may be overridden by modifiers.
    pub arg: Option<String>,
    /// What type of result this is.
    pub type_: ItemType,
    /// Whether or not the result is valid.
    ///
    /// When `false`, actioning the result will populate the search field with
    /// the `autocomplete` value instead.
    ///
    /// The validity may be overridden by modifiers.
    pub valid: bool,
    /// Autocomplete data for the item.
    ///
    /// This value is populated into the search field if the tab key is
    /// pressed. If `valid = false`, this value is populated if the item is
    /// actioned.
    pub autocomplete: Option<String>,
    /// What text the user gets when copying the result.
    pub text_copy: Option<String>,
    /// What text the user gets when displaying large type.
    pub text_large_type: Option<String>,
    /// A URL to use for Quick Look.
    pub quicklook_url: Option<String>,
    /// Optional overrides of subtitle, arg, and valid by modifiers.
    pub modifiers: ModifierMap,
    /// Variables to pass out of the script filter if this item is selected in Alfred's results.
    ///
    /// This property is only used with JSON output and only affects Alfred 3.4.1 or later.
    pub variables: Variables,
}

/// What an [`Item`] is in contracts.
pub struct ItemView {
    pub title: Seq<char>,
    pub subtitle: Option<Seq<char>>,
    pub icon: Option<IconView>,
    pub uid: Option<Seq<char>>,
    pub arg: Option<Seq<char>>,
    pub type_: ItemType,
    pub valid: bool,
    pub autocomplete: Option<Seq<char>>,
    pub text_copy: Option<Seq<char>>,
    pub text_large_type: Option<Seq<char>>,
    pub quicklook_url: Option<Seq<char>>,
    pub modifiers: Map<Modifier, ModifierDataView>,
    pub variables: Map<Seq<char>, Seq<char>>,
}

impl ItemView {
    /// The item that has only a title.
    pub open spec fn titled(title: Seq<char>) -> ItemView {
        ItemView {
            title,
            subtitle: None,
            icon: None,
            uid: None,
            arg: None,
            type_: ItemType::Default,
            valid: true,
            autocomplete: None,
            text_copy: None,
            text_large_type: None,
            quicklook_url: None,
            modifiers: Map::empty(),
            variables: Map::empty(),
        }
    }

    /// The item with `data` stored for `modifier`.
    pub open spec fn with_data(self, modifier: Modifier, data: ModifierDataView) -> ItemView {
        ItemView { modifiers: self.modifiers.insert(modifier, data), ..self }
    }

    /// What the item holds for `modifier`, or empty data.
    pub open spec fn data(self, modifier: Modifier) -> ModifierDataView {
        data_or_empty(self.modifiers, modifier)
    }
}

impl View for Item {
    type V = ItemView;

    open spec fn view(&self) -> ItemView {
        ItemView {
            title: self.title@,
            subtitle: text_view(self.subtitle),
            icon: icon_view(self.icon),
            uid: text_view(self.uid),
            arg: text_view(self.arg),
            type_: self.type_,
            valid: self.valid,
            autocomplete: text_view(self.autocomplete),
            text_copy: text_view(self.text_copy),
            text_large_type: text_view(self.text_large_type),
            quicklook_url: text_view(self.quicklook_url),
            modifiers: self.modifiers@,
            variables: self.variables@,
        }
    }
}

impl Item {
    /// Returns a new `Item` with the given title.
    pub fn new(title: &str) -> (r: Item)
        ensures
            r@ == ItemView::titled(title@),
    {
        Item {
            title: title.to_owned(),
            subtitle: None,
            icon: None,
            uid: None,
            arg: None,
            type_: ItemType::Default,
            valid: true,
            autocomplete: None,
            text_copy: None,
            text_large_type: None,
            quicklook_url: None,
            modifiers: ModifierMap::new(),
            variables: Variables::new(),
        }
    }
}

/// Helper for building `Item` values.
#[derive(Clone, Debug)]
pub struct ItemBuilder {
    item: Item,
}

impl View for ItemBuilder {
    type V = ItemView;

    closed spec fn view(&self) -> ItemView {
        self.item@
    }
}

impl ItemBuilder {
    /// Returns a new `ItemBuilder` with the given title.
    pub fn new(title: &str) -> (r: ItemBuilder)
        ensures
            r@ == ItemView::titled(title@),
    {
        ItemBuilder { item: Item::new(title) }
    }

    /// Returns the built `Item`.
    pub fn into_item(self) -> (r: Item)
        ensures
            r@ == self@,
    {
        self.item
    }
}

impl ItemBuilder {
    /// Sets the `title` to the given value.
    pub fn title(self, title: &str) -> (r: ItemBuilder)
        ensures
            r@ == (ItemView { title: title@, ..self@ }),
    {
        let mut b = self;
        b.set_title(title);
        b
    }

    /// Sets the default `subtitle` to the given value.
    ///
    /// This sets the default subtitle, used when no modifier is pressed,
    /// or when no subtitle is provided for the pressed modifier.
    pub fn subtitle(self, subtitle: &str) -> (r: ItemBuilder)
        ensures
            r@ == (ItemView { subtitle: Some(subtitle@), ..self@ }),
    {
        let mut b = self;
        b.set_subtitle(subtitle);
        b
    }

    /// Sets the `subtitle` to the given value with the given modifier.
    ///
    /// This sets the subtitle to use when the given modifier is pressed.
    pub fn subtitle_mod(self, modifier: Modifier, subtitle: &str) -> (r: ItemBuilder)
        ensures
            r@ == self@.with_data(
                modifier,
                ModifierDataView { subtitle: Some(subtitle@), ..self@.data(modifier) },
            ),
    {
        let mut b = self;
        b.set_subtitle_mod(modifier, subtitle);
        b
    }

    /// Sets the `icon` to an image file on disk.
    ///
    /// The path is interpreted relative to the workflow directory.
    pub fn icon_path(self, path: &str) -> (r: ItemBuilder)
        ensures
            r@ == (ItemView { icon: Some(IconView::Path(path@)), ..self@ }),
    {
        let mut b = self;
        b.set_icon_path(path);
        b
    }

    /// Sets the `icon` to the icon for a given file on disk.
    ///
    /// The path is interpreted relative to the workflow directory.
    pub fn icon_file(self, path: &str) -> (r: ItemBuilder)
        ensures
            r@ == (ItemView { icon: Some(IconView::File(path@)), ..self@ }),
    {
        let mut b = self;
        b.set_icon_file(path);
        b
    }

    /// Sets the `icon` to the icon for a given file type.
    ///
    /// The type is a UTI, such as "public.jpeg".
    pub fn icon_filetype(self, filetype: &str) -> (r: ItemBuilder)
        ensures
            r@ == (ItemView { icon: Some(IconView::FileType(filetype@)), ..self@ }),
    {
        let mut b = self;
        b.set_icon_filetype(filetype);
        b
    }

    /// Sets `icon` to an image file on disk for the given modifier.
    ///
    /// The path is interpreted relative to the workflow directory.
    ///
    /// This property is only used with JSON output. The legacy XML output does not include
    /// per-modifier icons.
    ///
    /// This property is only used with Alfred 3.4.1 or later.
    pub fn icon_path_mod(self, modifier: Modifier, path: &str) -> (r: ItemBuilder)
        ensures
            r@ == self@.with_data(
                modifier,
                ModifierDataView { icon: Some(IconView::Path(path@)), ..self@.data(modifier) },
            ),
    {
        let mut b = self;
        b.set_icon_path_mod(modifier, path);
        b
    }

    /// Sets `icon` to the icon for a given file on disk for the given modifier.
    ///
    /// The path is interpreted relative to the workflow directory.
    ///
    /// This property is only used with JSON output. The legacy XML output does not include
    /// per-modifier icons.
    ///
    /// This property is only used with Alfred 3.4.1 or later.
    pub fn icon_file_mod(self, modifier: Modifier, path: &str) -> (r: ItemBuilder)
        ensures
            r@ == self@.with_data(
                modifier,
                ModifierDataView { icon: Some(IconView::File(path@)), ..self@.data(modifier) },
            ),
    {
        let mut b = self;
        b.set_icon_file_mod(modifier, path);
        b
    }

    /// Sets `icon` to the icon for a given file type for the given modifier.
    ///
    /// The type is a UTI, such as "public.jpeg".
    ///
    /// This property is only used with JSON output. The legacy XML output does not include
    /// per-modifier icons.
    ///
    /// This property is only used with Alfred 3.4.1 or later.
    pub fn icon_filetype_mod(self, modifier: Modifier, filetype: &str) -> (r: ItemBuilder)
        ensures
            r@ == self@.with_data(
                modifier,
                ModifierDataView { icon: Some(IconView::FileType(filetype@)), ..self@.data(modifier) },
            ),
    {
        let mut b = self;
        b.set_icon_filetype_mod(modifier, filetype);
        b
    }

    /// Sets the `uid` to the given value.
    pub fn uid(self, uid: &str) -> (r: ItemBuilder)
        ensures
            r@ == (ItemView { uid: Some(uid@), ..self@ }),
    {
        let mut b = self;
        b.set_uid(uid);
        b
    }

    /// Sets the `arg` to the given value.
    pub fn arg(self, arg: &str) -> (r: ItemBuilder)
        ensures
            r@ == (ItemView { arg: Some(arg@), ..self@ }),
    {
        let mut b = self;
        b.set_arg(arg);
        b
    }

    /// Sets the `arg` to the given value with the given modifier.
    ///
    /// This sets the arg to use when the given modifier is pressed.
    pub fn arg_mod(self, modifier: Modifier, arg: &str) -> (r: ItemBuilder)
        ensures
            r@ == self@.with_data(
                modifier,
                ModifierDataView { arg: Some(arg@), ..self@.data(modifier) },
            ),
    {
        let mut b = self;
        b.set_arg_mod(modifier, arg);
        b
    }

    /// Sets the `type` to the given value.
    pub fn type_(self, type_: ItemType) -> (r: ItemBuilder)
        ensures
            r@ == (ItemView { type_: type_, ..self@ }),
    {
        let mut b = self;
        b.set_type(type_);
        b
    }

    /// Sets `valid` to the given value.
    pub fn valid(self, valid: bool) -> (r: ItemBuilder)
        ensures
            r@ == (ItemView { valid: valid, ..self@ }),
    {
        let mut b = self;
        b.set_valid(valid);
        b
    }

    /// Sets `valid` to the given value with the given modifier.
    ///
    /// This sets the validity to use when the given modifier is pressed.
    pub fn valid_mod(self, modifier: Modifier, valid: bool) -> (r: ItemBuilder)
        ensures
            r@ == self@.with_data(
                modifier,
                ModifierDataView { valid: Some(valid), ..self@.data(modifier) },
            ),
    {
        let mut b = self;
        b.set_valid_mod(modifier, valid);
        b
    }

    /// Sets `autocomplete` to the given value.
    pub fn autocomplete(self, autocomplete: &str) -> (r: ItemBuilder)
        ensures
            r@ == (ItemView { autocomplete: Some(autocomplete@), ..self@ }),
    {
        let mut b = self;
        b.set_autocomplete(autocomplete);
        b
    }

    /// Sets the subtitle, arg, validity, and icon to use with the given modifier.
    pub fn modifier(self, modifier: Modifier, subtitle: Option<&str>, arg: Option<&str>, valid: bool, icon: Option<Icon>) -> (r: ItemBuilder)
        ensures
            r@ == self@.with_data(
                modifier,
                ModifierDataView {
                    subtitle: str_view(subtitle),
                    arg: str_view(arg),
                    valid: Some(valid),
                    icon: icon_view(icon),
                    variables: Map::empty(),
                },
            ),
    {
        let mut b = self;
        b.set_modifier(modifier, subtitle, arg, valid, icon);
        b
    }

    /// Sets `text_copy` to the given value.
    pub fn text_copy(self, text: &str) -> (r: ItemBuilder)
        ensures
            r@ == (ItemView { text_copy: Some(text@), ..self@ }),
    {
        let mut b = self;
        b.set_text_copy(text);
        b
    }

    /// Sets `text_large_type` to the given value.
    pub fn text_large_type(self, text: &str) -> (r: ItemBuilder)
        ensures
            r@ == (ItemView { text_large_type: Some(text@), ..self@ }),
    {
        let mut b = self;
        b.set_text_large_type(text);
        b
    }

    /// Sets `quicklook_url` to the given value.
    pub fn quicklook_url(self, url: &str) -> (r: ItemBuilder)
        ensures
            r@ == (ItemView { quicklook_url: Some(url@), ..self@ }),
    {
        let mut b = self;
        b.set_quicklook_url(url);
        b
    }

    /// Inserts a key/value pair into the item variables.
    ///
    /// Item variables are only used with JSON output and only affect Alfred 3.4.1 or later.
    pub fn variable(self, key: &str, value: &str) -> (r: ItemBuilder)
        ensures
            r@ == (ItemView { variables: self@.variables.insert(key@, value@), ..self@ }),
    {
        let mut b = self;
        b.set_variable(key, value);
        b
    }

    /// Sets the item's variables to `variables`.
    ///
    /// Where a key occurs more than once among `variables`, its last value stays.
    ///
    /// Item variables are only used with JSON output and only affect Alfred 3.4.1 or later.
    pub fn variables(self, variables: &Vec<(String, String)>) -> (r: ItemBuilder)
        ensures
            r@ == (ItemView { variables: pairs_map(variables@), ..self@ }),
    {
        let mut b = self;
        b.set_variables(variables);
        b
    }

    /// Inserts a key/value pair into the variables for the given modifier.
    ///
    /// Item variables are only used with JSON output and only affect Alfred 3.4.1 or later.
    pub fn variable_mod(self, modifier: Modifier, key: &str, value: &str) -> (r: ItemBuilder)
        ensures
            r@ == self@.with_data(
                modifier,
                ModifierDataView { variables: self@.data(modifier).variables.insert(key@, value@), ..self@.data(modifier) },
            ),
    {
        let mut b = self;
        b.set_variable_mod(modifier, key, value);
        b
    }

    /// Sets the variables to `variables` for the given modifier.
    ///
    /// Where a key occurs more than once among `variables`, its last value stays.
    ///
    /// Item variables are only used with JSON output and only affect Alfred 3.4.1 or later.
    pub fn variables_mod(self, modifier: Modifier, variables: &Vec<(String, String)>) -> (r: ItemBuilder)
        ensures
            r@ == self@.with_data(
                modifier,
                ModifierDataView { variables: pairs_map(variables@), ..self@.data(modifier) },
            ),
    {
        let mut b = self;
        b.set_variables_mod(modifier, variables);
        b
    }
}

impl ItemBuilder {
    /// Sets the `title` to the given value.
    pub fn set_title(&mut self, title: &str)
        ensures
            final(self)@ == (ItemView { title: title@, ..old(self)@ }),
    {
        self.item.title = title.to_owned();
    }

    /// Sets the default `subtitle` to the given value.
    pub fn set_subtitle(&mut self, subtitle: &str)
        ensures
            final(self)@ == (ItemView { subtitle: Some(subtitle@), ..old(self)@ }),
    {
        self.item.subtitle = Some(subtitle.to_owned());
    }

    /// Unsets the default `subtitle`.
    pub fn unset_subtitle(&mut self)
        ensures
            final(self)@ == (ItemView { subtitle: None, ..old(self)@ }),
    {
        self.item.subtitle = None;
    }

    /// Sets the `subtitle` to the given value for the given modifier.
    pub fn set_subtitle_mod(&mut self, modifier: Modifier, subtitle: &str)
        ensures
            final(self)@ == old(self)@.with_data(
                modifier,
                ModifierDataView { subtitle: Some(subtitle@), ..old(self)@.data(modifier) },
            ),
    {
        let mut data = self.data_for_modifier(modifier);
        data.subtitle = Some(subtitle.to_owned());
        self.item.modifiers.insert(modifier, data);
        assert(self@.modifiers =~= old(self)@.modifiers.insert(modifier, data@));
    }

    /// Unsets the `subtitle` for the given modifier.
    ///
    /// This unsets the subtitle that's used when the given modifier is pressed.
    pub fn unset_subtitle_mod(&mut self, modifier: Modifier)
        ensures
            final(self)@ == (ItemView {
                modifiers: unset_part(old(self)@.modifiers, modifier, Part::Subtitle),
                ..old(self)@
            }),
    {
        self.strip_modifier(modifier, Part::Subtitle);
    }

    /// Clears the `subtitle` for all modifiers.
    ///
    /// This unsets both the default subtitle and the per-modifier subtitles.
    pub fn clear_subtitle(&mut self)
        ensures
            final(self)@ == (ItemView {
                subtitle: None,
                modifiers: clear_part(old(self)@.modifiers, Part::Subtitle),
                ..old(self)@
            }),
    {
        self.item.subtitle = None;
        self.strip_modifiers(Part::Subtitle);
    }

    /// Sets the `icon` to an image file on disk.
    ///
    /// The path is interpreted relative to the workflow directory.
    pub fn set_icon_path(&mut self, path: &str)
        ensures
            final(self)@ == (ItemView { icon: Some(IconView::Path(path@)), ..old(self)@ }),
    {
        self.item.icon = Some(Icon::Path(path.to_owned()));
    }

    /// Sets the `icon` to the icon for a given file on disk.
    ///
    /// The path is interpreted relative to the workflow directory.
    pub fn set_icon_file(&mut self, path: &str)
        ensures
            final(self)@ == (ItemView { icon: Some(IconView::File(path@)), ..old(self)@ }),
    {
        self.item.icon = Some(Icon::File(path.to_owned()));
    }

    /// Sets the `icon` to the icon for a given file type.
    ///
    /// The type is a UTI, such as "public.jpeg".
    pub fn set_icon_filetype(&mut self, filetype: &str)
        ensures
            final(self)@ == (ItemView { icon: Some(IconView::FileType(filetype@)), ..old(self)@ }),
    {
        self.item.icon = Some(Icon::FileType(filetype.to_owned()));
    }

    /// Unsets the `icon`.
    pub fn unset_icon(&mut self)
        ensures
            final(self)@ == (ItemView { icon: None, ..old(self)@ }),
    {
        self.item.icon = None;
    }

    /// Sets `icon` to an image file on disk for the given modifier.
    ///
    /// The path is interpreted relative to the workflow directory.
    ///
    /// This property is only used with JSON output. The legacy XML output does not include
    /// per-modifier icons.
    ///
    /// This property is only used with Alfred 3.4.1 or later.
    pub fn set_icon_path_mod(&mut self, modifier: Modifier, path: &str)
        ensures
            final(self)@ == old(self)@.with_data(
                modifier,
                ModifierDataView { icon: Some(IconView::Path(path@)), ..old(self)@.data(modifier) },
            ),
    {
        let mut data = self.data_for_modifier(modifier);
        data.icon = Some(Icon::Path(path.to_owned()));
        self.item.modifiers.insert(modifier, data);
        assert(self@.modifiers =~= old(self)@.modifiers.insert(modifier, data@));
    }

    /// Sets `icon` to the icon for a given file on disk for the given modifier.
    ///
    /// The path is interpreted relative to the workflow directory.
    ///
    /// This property is only used with JSON output. The legacy XML output does not include
    /// per-modifier icons.
    ///
    /// This property is only used with Alfred 3.4.1 or later.
    pub fn set_icon_file_mod(&mut self, modifier: Modifier, path: &str)
        ensures
            final(self)@ == old(self)@.with_data(
                modifier,
                ModifierDataView { icon: Some(IconView::File(path@)), ..old(self)@.data(modifier) },
            ),
    {
        let mut data = self.data_for_modifier(modifier);
        data.icon = Some(Icon::File(path.to_owned()));
        self.item.modifiers.insert(modifier, data);
        assert(self@.modifiers =~= old(self)@.modifiers.insert(modifier, data@));
    }

    /// Sets `icon` to the icon for a given file type for the given modifier.
    ///
    /// The type is a UTI, such as "public.jpeg".
    ///
    /// This property is only used with JSON output. The legacy XML output does not include
    /// per-modifier icons.
    ///
    /// This property is only used with Alfred 3.4.1 or later.
    pub fn set_icon_filetype_mod(&mut self, modifier: Modifier, filetype: &str)
        ensures
            final(self)@ == old(self)@.with_data(
                modifier,
                ModifierDataView { icon: Some(IconView::FileType(filetype@)), ..old(self)@.data(modifier) },
            ),
    {
        let mut data = self.data_for_modifier(modifier);
        data.icon = Some(Icon::FileType(filetype.to_owned()));
        self.item.modifiers.insert(modifier, data);
        assert(self@.modifiers =~= old(self)@.modifiers.insert(modifier, data@));
    }

    /// Unsets `icon` for the given modifier.
    ///
    /// This unsets the result icon that's used when the given modifier is pressed.
    pub fn unset_icon_mod(&mut self, modifier: Modifier)
        ensures
            final(self)@ == (ItemView {
                modifiers: unset_part(old(self)@.modifiers, modifier, Part::Icon),
                ..old(self)@
            }),
    {
        self.strip_modifier(modifier, Part::Icon);
    }

    /// Clears the `icon` for all modifiers.
    ///
    /// This unsets both the default icon and the per-modifier icons.
    pub fn clear_icon(&mut self)
        ensures
            final(self)@ == (ItemView {
                icon: None,
                modifiers: clear_part(old(self)@.modifiers, Part::Icon),
                ..old(self)@
            }),
    {
        self.item.icon = None;
        self.strip_modifiers(Part::Icon);
    }

    /// Sets the `uid` to the given value.
    pub fn set_uid(&mut self, uid: &str)
        ensures
            final(self)@ == (ItemView { uid: Some(uid@), ..old(self)@ }),
    {
        self.item.uid = Some(uid.to_owned());
    }

    /// Unsets the `uid`.
    pub fn unset_uid(&mut self)
        ensures
            final(self)@ == (ItemView { uid: None, ..old(self)@ }),
    {
        self.item.uid = None;
    }

    /// Sets the `arg` to the given value.
    pub fn set_arg(&mut self, arg: &str)
        ensures
            final(self)@ == (ItemView { arg: Some(arg@), ..old(self)@ }),
    {
        self.item.arg = Some(arg.to_owned());
    }

    /// Unsets the `arg`.
    pub fn unset_arg(&mut self)
        ensures
            final(self)@ == (ItemView { arg: None, ..old(self)@ }),
    {
        self.item.arg = None;
    }

    /// Sets the `arg` to the given value for the given modifier.
    pub fn set_arg_mod(&mut self, modifier: Modifier, arg: &str)
        ensures
            final(self)@ == old(self)@.with_data(
                modifier,
                ModifierDataView { arg: Some(arg@), ..old(self)@.data(modifier) },
            ),
    {
        let mut data = self.data_for_modifier(modifier);
        data.arg = Some(arg.to_owned());
        self.item.modifiers.insert(modifier, data);
        assert(self@.modifiers =~= old(self)@.modifiers.insert(modifier, data@));
    }

    /// Unsets the `arg` for the given modifier.
    ///
    /// This unsets the arg that's used when the given modifier is pressed.
    pub fn unset_arg_mod(&mut self, modifier: Modifier)
        ensures
            final(self)@ == (ItemView {
                modifiers: unset_part(old(self)@.modifiers, modifier, Part::Arg),
                ..old(self)@
            }),
    {
        self.strip_modifier(modifier, Part::Arg);
    }

    /// Clears the `arg` for all modifiers.
    ///
    /// This unsets both the default arg and the per-modifier args.
    pub fn clear_arg(&mut self)
        ensures
            final(self)@ == (ItemView {
                arg: None,
                modifiers: clear_part(old(self)@.modifiers, Part::Arg),
                ..old(self)@
            }),
    {
        self.item.arg = None;
        self.strip_modifiers(Part::Arg);
    }

    /// Sets the `type` to the given value.
    pub fn set_type(&mut self, type_: ItemType)
        ensures
            final(self)@ == (ItemView { type_: type_, ..old(self)@ }),
    {
        self.item.type_ = type_;
    }

    /// Sets `valid` to the given value.
    pub fn set_valid(&mut self, valid: bool)
        ensures
            final(self)@ == (ItemView { valid: valid, ..old(self)@ }),
    {
        self.item.valid = valid;
    }

    /// Sets `valid` to the given value for the given modifier.
    pub fn set_valid_mod(&mut self, modifier: Modifier, valid: bool)
        ensures
            final(self)@ == old(self)@.with_data(
                modifier,
                ModifierDataView { valid: Some(valid), ..old(self)@.data(modifier) },
            ),
    {
        let mut data = self.data_for_modifier(modifier);
        data.valid = Some(valid);
        self.item.modifiers.insert(modifier, data);
        assert(self@.modifiers =~= old(self)@.modifiers.insert(modifier, data@));
    }

    /// Unsets `valid` for the given modifier.
    ///
    /// This unsets the validity that's used when the given modifier is pressed.
    pub fn unset_valid_mod(&mut self, modifier: Modifier)
        ensures
            final(self)@ == (ItemView {
                modifiers: unset_part(old(self)@.modifiers, modifier, Part::Valid),
                ..old(self)@
            }),
    {
        self.strip_modifier(modifier, Part::Valid);
    }

    /// Unsets `valid` for all modifiers.
    ///
    /// This resets `valid` back to the default and clears all per-modifier validity.
    pub fn clear_valid(&mut self)
        ensures
            final(self)@ == (ItemView {
                valid: true,
                modifiers: clear_part(old(self)@.modifiers, Part::Valid),
                ..old(self)@
            }),
    {
        self.item.valid = true;
        self.strip_modifiers(Part::Valid);
    }

    /// Sets `autocomplete` to the given value.
    pub fn set_autocomplete(&mut self, autocomplete: &str)
        ensures
            final(self)@ == (ItemView { autocomplete: Some(autocomplete@), ..old(self)@ }),
    {
        self.item.autocomplete = Some(autocomplete.to_owned());
    }

    /// Unsets `autocomplete`.
    pub fn unset_autocomplete(&mut self)
        ensures
            final(self)@ == (ItemView { autocomplete: None, ..old(self)@ }),
    {
        self.item.autocomplete = None;
    }

    /// Sets subtitle, arg, validity, and icon for the given modifier.
    pub fn set_modifier(&mut self, modifier: Modifier, subtitle: Option<&str>, arg: Option<&str>, valid: bool, icon: Option<Icon>)
        ensures
            final(self)@ == old(self)@.with_data(
                modifier,
                ModifierDataView {
                    subtitle: str_view(subtitle),
                    arg: str_view(arg),
                    valid: Some(valid),
                    icon: icon_view(icon),
                    variables: Map::empty(),
                },
            ),
    {
        let data = ModifierData {
            subtitle: owned_text(subtitle),
            arg: owned_text(arg),
            valid: Some(valid),
            icon,
            variables: Variables::new(),
        };
        self.item.modifiers.insert(modifier, data);
    }

    /// Unsets subtitle, arg, and validity for the given modifier.
    pub fn unset_modifier(&mut self, modifier: Modifier)
        ensures
            final(self)@ == (ItemView { modifiers: old(self)@.modifiers.remove(modifier), ..old(self)@ }),
    {
        let _ = self.item.modifiers.remove(modifier);
    }

    /// Sets `text_copy` to the given value.
    pub fn set_text_copy(&mut self, text: &str)
        ensures
            final(self)@ == (ItemView { text_copy: Some(text@), ..old(self)@ }),
    {
        self.item.text_copy = Some(text.to_owned());
    }

    /// Unsets `text_copy`.
    pub fn unset_text_copy(&mut self)
        ensures
            final(self)@ == (ItemView { text_copy: None, ..old(self)@ }),
    {
        self.item.text_copy = None;
    }

    /// Sets `text_large_type` to the given value.
    pub fn set_text_large_type(&mut self, text: &str)
        ensures
            final(self)@ == (ItemView { text_large_type: Some(text@), ..old(self)@ }),
    {
        self.item.text_large_type = Some(text.to_owned());
    }

    /// Unsets `text_large_type`.
    pub fn unset_text_large_type(&mut self)
        ensures
            final(self)@ == (ItemView { text_large_type: None, ..old(self)@ }),
    {
        self.item.text_large_type = None;
    }

    /// Sets `quicklook_url` to the given value.
    pub fn set_quicklook_url(&mut self, url: &str)
        ensures
            final(self)@ == (ItemView { quicklook_url: Some(url@), ..old(self)@ }),
    {
        self.item.quicklook_url = Some(url.to_owned());
    }

    /// Unsets `quicklook_url`.
    pub fn unset_quicklook_url(&mut self)
        ensures
            final(self)@ == (ItemView { quicklook_url: None, ..old(self)@ }),
    {
        self.item.quicklook_url = None;
    }

    /// Inserts a key/value pair into the item variables.
    ///
    /// Item variables are only used with JSON output and only affect Alfred 3.4.1 or later.
    pub fn set_variable(&mut self, key: &str, value: &str)
        ensures
            final(self)@ == (ItemView { variables: old(self)@.variables.insert(key@, value@), ..old(self)@ }),
    {
        self.item.variables.insert(key, value);
    }

    /// Removes a key from the item variables.
    ///
    /// Item variables are only used with JSON output and only affect Alfred 3.4.1 or later.
    pub fn unset_variable(&mut self, key: &str)
        ensures
            final(self)@ == (ItemView { variables: old(self)@.variables.remove(key@), ..old(self)@ }),
    {
        self.item.variables.remove(key);
    }

    /// Sets the item's variables to `variables`.
    ///
    /// Where a key occurs more than once among `variables`, its last value stays.
    ///
    /// Item variables are only used with JSON output and only affect Alfred 3.4.1 or later.
    pub fn set_variables(&mut self, variables: &Vec<(String, String)>)
        ensures
            final(self)@ == (ItemView { variables: pairs_map(variables@), ..old(self)@ }),
    {
        self.item.variables = Variables::from_pairs(variables);
    }

    /// Removes all item variables.
    ///
    /// This does not affect per-modifier variables.
    ///
    /// Item variables are only used with JSON output and only affect Alfred 3.4.1 or later.
    pub fn unset_variables(&mut self)
        ensures
            final(self)@ == (ItemView { variables: Map::empty(), ..old(self)@ }),
    {
        self.item.variables.clear();
    }

    /// Inserts a key/value pair into the variables for the given modifier.
    ///
    /// Item variables are only used with JSON output and only affect Alfred 3.4.1 or later.
    pub fn set_variable_mod(&mut self, modifier: Modifier, key: &str, value: &str)
        ensures
            final(self)@ == old(self)@.with_data(
                modifier,
                ModifierDataView { variables: old(self)@.data(modifier).variables.insert(key@, value@), ..old(self)@.data(modifier) },
            ),
    {
        let mut data = self.data_for_modifier(modifier);
        data.variables.insert(key, value);
        self.item.modifiers.insert(modifier, data);
        assert(self@.modifiers =~= old(self)@.modifiers.insert(modifier, data@));
    }

    /// Removes a key from the variables for the given modifier.
    ///
    /// Data that overrides nothing afterwards leaves the item.
    ///
    /// Item variables are only used with JSON output and only affect Alfred 3.4.1 or later.
    pub fn unset_variable_mod(&mut self, modifier: Modifier, key: &str)
        ensures
            final(self)@ == (ItemView {
                modifiers: unset_variable(old(self)@.modifiers, modifier, key@),
                ..old(self)@
            }),
    {
        match self.item.modifiers.remove(modifier) {
            Some(data) => {
                let mut data = data;
                data.variables.remove(key);
                if !data.is_empty() {
                    self.item.modifiers.insert(modifier, data);
                }
                assert(self@.modifiers =~= unset_variable(old(self)@.modifiers, modifier, key@));
            },
            None => {
                assert(self@.modifiers =~= old(self)@.modifiers);
            },
        }
    }

    /// Sets the variables to `variables` for the given modifier.
    ///
    /// Where a key occurs more than once among `variables`, its last value stays.
    ///
    /// Item variables are only used with JSON output and only affect Alfred 3.4.1 or later.
    pub fn set_variables_mod(&mut self, modifier: Modifier, variables: &Vec<(String, String)>)
        ensures
            final(self)@ == old(self)@.with_data(
                modifier,
                ModifierDataView { variables: pairs_map(variables@), ..old(self)@.data(modifier) },
            ),
    {
        let mut data = self.data_for_modifier(modifier);
        data.variables = Variables::from_pairs(variables);
        self.item.modifiers.insert(modifier, data);
        assert(self@.modifiers =~= old(self)@.modifiers.insert(modifier, data@));
    }

    /// Removes all variables for the given modifier.
    ///
    /// Item variables are only used with JSON output and only affect Alfred 3.4.1 or later.
    pub fn unset_variables_mod(&mut self, modifier: Modifier)
        ensures
            final(self)@ == (ItemView {
                modifiers: unset_part(old(self)@.modifiers, modifier, Part::Variables),
                ..old(self)@
            }),
    {
        self.strip_modifier(modifier, Part::Variables);
    }

    /// Removes all item variables and all per-modifier variables.
    ///
    /// Item variables are only used with JSON output and only affect Alfred 3.4.1 or later.
    pub fn clear_variables(&mut self)
        ensures
            final(self)@ == (ItemView {
                variables: Map::empty(),
                modifiers: clear_part(old(self)@.modifiers, Part::Variables),
                ..old(self)@
            }),
    {
        self.item.variables.clear();
        self.strip_modifiers(Part::Variables);
    }

    /// Takes the data of `modifier` out of the item, or makes empty data where
    /// the item holds none.
    fn data_for_modifier(&mut self, modifier: Modifier) -> (data: ModifierData)
        ensures
            data@ == old(self)@.data(modifier),
            final(self)@ == (ItemView {
                modifiers: old(self)@.modifiers.remove(modifier),
                ..old(self)@
            }),
    {
        match self.item.modifiers.remove(modifier) {
            Some(data) => data,
            None => ModifierData::new(),
        }
    }

    /// Takes one part away from the data of `modifier`.
    fn strip_modifier(&mut self, modifier: Modifier, part: Part)
        ensures
            final(self)@ == (ItemView {
                modifiers: unset_part(old(self)@.modifiers, modifier, part),
                ..old(self)@
            }),
    {
        match self.item.modifiers.remove(modifier) {
            Some(data) => {
                let mut data = data;
                data.strip(part);
                if !data.is_empty() {
                    self.item.modifiers.insert(modifier, data);
                }
                assert(self@.modifiers =~= unset_part(old(self)@.modifiers, modifier, part));
            },
            None => {
                assert(self@.modifiers =~= old(self)@.modifiers);
            },
        }
    }

    /// Takes one part away from the data of every modifier.
    fn strip_modifiers(&mut self, part: Part)
        ensures
            final(self)@ == (ItemView {
                modifiers: clear_part(old(self)@.modifiers, part),
                ..old(self)@
            }),
    {
        self.strip_modifier(Modifier::Command, part);
        self.strip_modifier(Modifier::Option, part);
        self.strip_modifier(Modifier::Control, part);
        self.strip_modifier(Modifier::Shift, part);
        self.strip_modifier(Modifier::Fn, part);
        assert(self@.modifiers =~= clear_part(old(self)@.modifiers, part));
    }
}


} // verus!

//! The state of an updater, the files it is kept in, and its text form.
//!
//! The state is kept as a JSON document with the members `current_version`, a
//! string, `last_check`, a timestamp in the form of RFC 3339 or `null`, and
//! `update_interval`, a number of seconds.  No file is read or written here:
//! [`Updater::save`] puts what is to be written among the updater's pending
//! writes, and [`Updater::load`] takes what was read.

use vstd::prelude::*;
use crate::text::{chars_of, concat, string_of};
use crate::timestamp::{rfc3339_instant, rfc3339_text, Timestamp};
use crate::updater::releaser::{text_member, Releaser};
use crate::updater::{Error, Updater, UpdaterView, UPDATE_INTERVAL};
use crate::value::{
    as_integer, as_text, integer, integer_of, is_null, json_model, json_parsed, json_text, lookup, map_insert,
    map_new, member_of, null, object, parse, render, text, JsonModel, NumberModel,
};
use crate::version::{parsed_version, version_text, Version, VersionView};

verus! {

/// The name that stands for a workflow that has none.
pub const UNNAMED_WORKFLOW: &'static str = "YouForgotTo/フ:NameYourOwnWork}flowッ";

/// What the host tells a workflow about itself.  A value that the host did not
/// provide is `None`.
#[derive(Clone, Debug, PartialEq, Eq)]
pub struct HostConfig {
    /// The unique ID of the workflow.
    pub workflow_uid: Option<String>,
    /// The name of the workflow.
    pub workflow_name: Option<String>,
    /// The version that the workflow declares.
    pub workflow_version: Option<String>,
    /// The directory for non-volatile workflow data.
    pub workflow_data: Option<String>,
    /// The directory for volatile workflow data.
    pub workflow_cache: Option<String>,
}

/// What a [`HostConfig`] is in contracts.
pub struct HostConfigView {
    pub workflow_uid: Option<Seq<char>>,
    pub workflow_name: Option<Seq<char>>,
    pub workflow_version: Option<Seq<char>>,
    pub workflow_data: Option<Seq<char>>,
    pub workflow_cache: Option<Seq<char>>,
}

impl View for HostConfig {
    type V = HostConfigView;

    open spec fn view(&self) -> HostConfigView {
        HostConfigView {
            workflow_uid: crate::text_view(self.workflow_uid),
            workflow_name: crate::text_view(self.workflow_name),
            workflow_version: crate::text_view(self.workflow_version),
            workflow_data: crate::text_view(self.workflow_data),
            workflow_cache: crate::text_view(self.workflow_cache),
        }
    }
}

/// A file: the directory it is in and its name there.
#[derive(Clone, Debug, PartialEq, Eq)]
pub struct FilePath {
    /// The directory, as the host gave it.
    pub dir: String,
    /// The name of the file in that directory.
    pub file_name: String,
}

/// What a [`FilePath`] is in contracts.
pub struct FilePathView {
    pub dir: Seq<char>,
    pub file_name: Seq<char>,
}

impl View for FilePath {
    type V = FilePathView;

    open spec fn view(&self) -> FilePathView {
        FilePathView { dir: self.dir@, file_name: self.file_name@ }
    }
}

/// A file that is to be written, and its whole content.
#[derive(Clone, Debug, PartialEq, Eq)]
pub struct FileWrite {
    /// The file; what it held before is replaced.
    pub path: FilePath,
    /// What the file holds afterwards.
    pub content: String,
}

/// What a [`FileWrite`] is in contracts.
pub struct FileWriteView {
    pub path: FilePathView,
    pub content: Seq<char>,
}

impl View for FileWrite {
    type V = FileWriteView;

    open spec fn view(&self) -> FileWriteView {
        FileWriteView { path: self.path@, content: self.content@ }
    }
}

/// The views of a sequence of writes.
pub open spec fn write_views(writes: Seq<FileWrite>) -> Seq<FileWriteView> {
    writes.map_values(|w: FileWrite| w@)
}

/// What an updater remembers from one run of the workflow to the next.
#[derive(Clone, Debug, PartialEq, Eq)]
pub struct UpdaterState {
    /// The version that the workflow takes itself to be.
    pub current_version: Version,
    /// When the releaser was last asked; `None` before the first run.
    pub last_check: Option<Timestamp>,
    /// The seconds that have to pass between two questions to the releaser.
    pub update_interval: i64,
}

/// What an [`UpdaterState`] is in contracts.
pub struct StateView {
    pub current_version: VersionView,
    pub last_check: Option<Timestamp>,
    pub update_interval: i64,
}

impl View for UpdaterState {
    type V = StateView;

    open spec fn view(&self) -> StateView {
        StateView {
            current_version: self.current_version@,
            last_check: self.last_check,
            update_interval: self.update_interval,
        }
    }
}

/// Whether a character is an ASCII letter or digit.
pub open spec fn is_alphanumeric(c: char) -> bool {
    ('a' <= c && c <= 'z') || ('A' <= c && c <= 'Z') || ('0' <= c && c <= '9')
}

/// A name in which `_` stands for every character that is no ASCII letter or
/// digit.
pub open spec fn sanitized(name: Seq<char>) -> Seq<char> {
    name.map_values(
        |c: char|
            if is_alphanumeric(c) {
                c
            } else {
                '_'
            },
    )
}

/// The name of the workflow, or the name that stands for a workflow without
/// one.
pub open spec fn name_or_default(c: HostConfigView) -> Seq<char> {
    match c.workflow_name {
        Some(n) => n,
        None => UNNAMED_WORKFLOW@,
    }
}

/// The name of the file that holds the state of the workflow `uid` named
/// `name`.
pub open spec fn state_file_name(uid: Seq<char>, name: Seq<char>) -> Seq<char> {
    uid + "-"@ + sanitized(name) + "-updater.json"@
}

/// The file that holds the state of the workflow.
pub open spec fn data_file(c: HostConfigView) -> Result<FilePathView, Error> {
    match c.workflow_data {
        None => Err(Error::ConfigMissing),
        Some(dir) => match c.workflow_uid {
            None => Err(Error::ConfigMissing),
            Some(uid) => Ok(FilePathView { dir, file_name: state_file_name(uid, name_or_default(c)) }),
        },
    }
}

/// What stands for the time of the last check in the document of a state;
/// `None` where the time cannot be written.
pub open spec fn check_json(last_check: Option<Timestamp>) -> Option<JsonModel> {
    match last_check {
        None => Some(JsonModel::Null),
        Some(t) => match rfc3339_text(t.secs, t.nanos) {
            Some(s) => Some(JsonModel::Text(s)),
            None => None,
        },
    }
}

/// The JSON document of a state; `None` where the time of the last check
/// cannot be written.
pub open spec fn state_json(s: StateView) -> Option<JsonModel> {
    match check_json(s.last_check) {
        Some(check) => Some(
            JsonModel::Object(
                Map::empty().insert("current_version"@, JsonModel::Text(version_text(s.current_version))).insert(
                    "last_check"@,
                    check,
                ).insert("update_interval"@, JsonModel::Number(NumberModel::Integer(s.update_interval as int))),
            ),
        ),
        None => None,
    }
}

/// The text of a state, as it is kept in its file.
pub open spec fn state_text(s: StateView) -> Option<Seq<char>> {
    match state_json(s) {
        Some(m) => Some(json_text(m)),
        None => None,
    }
}

/// The time of the last check that a member of a document stands for: none
/// where the member is absent or `null`, the time where the member is a
/// timestamp.  The outer `None` says that the member is neither.
pub open spec fn check_of(member: Option<JsonModel>) -> Option<Option<Timestamp>> {
    match member {
        None => Some(None),
        Some(JsonModel::Null) => Some(None),
        Some(JsonModel::Text(s)) => match rfc3339_instant(s) {
            Some(t) => Some(Some(t)),
            None => None,
        },
        Some(_) => None,
    }
}

/// The seconds that a member of a document stands for.
pub open spec fn interval_of(member: Option<JsonModel>) -> Option<i64> {
    match member {
        Some(m) => integer_of(m),
        None => None,
    }
}

/// The state that a JSON document describes.
pub open spec fn state_of(m: JsonModel) -> Result<StateView, Error> {
    match text_member(m, "current_version"@) {
        None => Err(Error::Serialization),
        Some(written) => match parsed_version(written) {
            None => Err(Error::VersionParse),
            Some(current_version) => match check_of(member_of(m, "last_check"@)) {
                None => Err(Error::Serialization),
                Some(last_check) => match interval_of(member_of(m, "update_interval"@)) {
                    None => Err(Error::Serialization),
                    Some(update_interval) => Ok(StateView { current_version, last_check, update_interval }),
                },
            },
        },
    }
}

/// The state that a text describes.
pub open spec fn state_read(text: Seq<char>) -> Result<StateView, Error> {
    match json_parsed(text) {
        None => Err(Error::Serialization),
        Some(m) => state_of(m),
    }
}

/// The state that is loaded where the file of the state held `saved`; `None`
/// stands for a file that is not there or cannot be read.
pub open spec fn loaded(c: HostConfigView, saved: Option<Seq<char>>) -> Result<StateView, Error> {
    match data_file(c) {
        Err(e) => Err(e),
        Ok(_) => match saved {
            None => Err(Error::Io),
            Some(text) => state_read(text),
        },
    }
}

/// The write that saves a state.
pub open spec fn state_write(s: StateView, c: HostConfigView) -> Result<FileWriteView, Error> {
    match data_file(c) {
        Err(e) => Err(e),
        Ok(path) => match state_text(s) {
            None => Err(Error::Serialization),
            Some(content) => Ok(FileWriteView { path, content }),
        },
    }
}

/// The version that a workflow starts with: the one that the host declares,
/// or 0.0.0 where it declares none.
pub open spec fn declared_version(c: HostConfigView) -> Result<VersionView, Error> {
    match c.workflow_version {
        None => Ok(VersionView::plain(0, 0, 0)),
        Some(written) => match parsed_version(written) {
            Some(v) => Ok(v),
            None => Err(Error::VersionParse),
        },
    }
}

/// The state of a workflow that runs for the first time.
pub open spec fn fresh_state(current_version: VersionView) -> StateView {
    StateView { current_version, last_check: None, update_interval: UPDATE_INTERVAL }
}

/// `name` with `_` in place of every character that is no ASCII letter or
/// digit.
pub fn sanitize(name: &str) -> (r: String)
    ensures
        r@ == sanitized(name@),
{
    let chars = chars_of(name);
    let mut out: Vec<char> = Vec::new();
    let mut i: usize = 0;
    while i < chars.len()
        invariant
            i <= chars.len(),
            out@ == sanitized(chars@.take(i as int)),
        decreases chars.len() - i,
    {
        let c = chars[i];
        let keep = ('a' <= c && c <= 'z') || ('A' <= c && c <= 'Z') || ('0' <= c && c <= '9');
        out.push(
            if keep {
                c
            } else {
                '_'
            },
        );
        assert(out@ =~= sanitized(chars@.take(i + 1)));
        i = i + 1;
    }
    assert(chars@.take(chars@.len() as int) =~= chars@);
    string_of(&out)
}

impl UpdaterState {
    /// The state of a workflow that runs for the first time.
    pub fn fresh(current_version: Version) -> (r: UpdaterState)
        ensures
            r@ == fresh_state(current_version@),
    {
        UpdaterState { current_version, last_check: None, update_interval: UPDATE_INTERVAL }
    }

    /// The JSON document of the state; `None` where the time of the last check
    /// cannot be written.
    pub fn to_json(&self) -> (r: Option<serde_json::Value>)
        ensures
            match r {
                Some(v) => state_json(self@) == Some(json_model(v)),
                None => state_json(self@) is None,
            },
    {
        let check = match self.last_check {
            None => null(),
            Some(t) => match t.to_text() {
                Some(s) => text(s.as_str()),
                None => {
                    return None;
                },
            },
        };
        let written = self.current_version.to_text();
        let mut m = map_new();
        map_insert(&mut m, "current_version", text(written.as_str()));
        map_insert(&mut m, "last_check", check);
        map_insert(&mut m, "update_interval", integer(self.update_interval));
        Some(object(m))
    }

    /// The text of the state, as it is kept in its file.
    pub fn to_text(&self) -> (r: Option<String>)
        ensures
            match r {
                Some(s) => state_text(self@) == Some(s@),
                None => state_text(self@) is None,
            },
    {
        match self.to_json() {
            Some(v) => Some(render(&v)),
            None => None,
        }
    }

    /// The state that a JSON document describes.
    pub fn from_json(v: &serde_json::Value) -> (r: Result<UpdaterState, Error>)
        ensures
            match r {
                Ok(s) => state_of(json_model(*v)) == Ok::<StateView, Error>(s@),
                Err(e) => state_of(json_model(*v)) == Err::<StateView, Error>(e),
            },
    {
        let written = match lookup(v, "current_version") {
            Some(x) => match as_text(x) {
                Some(s) => s,
                None => {
                    return Err(Error::Serialization);
                },
            },
            None => {
                return Err(Error::Serialization);
            },
        };
        let current_version = match Version::parse(written) {
            Some(version) => version,
            None => {
                return Err(Error::VersionParse);
            },
        };
        let last_check = match lookup(v, "last_check") {
            None => None,
            Some(x) => {
                if is_null(x) {
                    None
                } else {
                    match as_text(x) {
                        Some(s) => match Timestamp::parse(s) {
                            Some(t) => Some(t),
                            None => {
                                return Err(Error::Serialization);
                            },
                        },
                        None => {
                            return Err(Error::Serialization);
                        },
                    }
                }
            },
        };
        let update_interval = match lookup(v, "update_interval") {
            Some(x) => match as_integer(x) {
                Some(i) => i,
                None => {
                    return Err(Error::Serialization);
                },
            },
            None => {
                return Err(Error::Serialization);
            },
        };
        Ok(UpdaterState { current_version, last_check, update_interval })
    }

    /// The state that a text describes.
    pub fn from_text(s: &str) -> (r: Result<UpdaterState, Error>)
        ensures
            match r {
                Ok(state) => state_read(s@) == Ok::<StateView, Error>(state@),
                Err(e) => state_read(s@) == Err::<StateView, Error>(e),
            },
    {
        match parse(s) {
            Some(v) => UpdaterState::from_json(&v),
            None => Err(Error::Serialization),
        }
    }
}

impl<T: Releaser> Updater<T> {
    /// Makes an updater from the state that the workflow saved, or, where
    /// there is none to be had, a new one for a workflow that runs for the
    /// first time.
    ///
    /// `saved` is what the file of [`Updater::build_data_fn`] holds, `None`
    /// where the file is not there or cannot be read.  A new updater starts at
    /// the version that the host declares, has never checked, and has the
    /// write of its state pending.
    pub fn load_or_new(r: Box<T>, config: HostConfig, saved: Option<&str>) -> (u: Result<Updater<T>, Error>)
        ensures
            match started(config@, crate::str_view(saved)) {
                Ok(begun) => u is Ok && u->Ok_0@ == (UpdaterView {
                    state: begun.0,
                    releaser: *r,
                    config: config@,
                    pending: begun.1,
                }),
                Err(e) => u is Err && u->Err_0 == e,
            },
    {
        match Updater::<T>::load(&config, saved) {
            Ok(state) => {
                let u = Updater { state, releaser: r, config, pending: Vec::new() };
                assert(u@.pending =~= Seq::<FileWriteView>::empty());
                Ok(u)
            },
            Err(_) => {
                let current_version = match &config.workflow_version {
                    None => Version::new(0, 0, 0),
                    Some(written) => match Version::parse(written.as_str()) {
                        Some(v) => v,
                        None => {
                            return Err(Error::VersionParse);
                        },
                    },
                };
                let state = UpdaterState::fresh(current_version);
                let mut u = Updater { state, releaser: r, config, pending: Vec::new() };
                assert(u@.pending =~= Seq::<FileWriteView>::empty());
                match u.save() {
                    Ok(()) => Ok(u),
                    Err(e) => Err(e),
                }
            },
        }
    }

    /// The version that the workflow takes itself to be.
    pub fn current_version(&self) -> (r: &Version)
        ensures
            r@ == self@.state.current_version,
    {
        &self.state.current_version
    }

    /// When the releaser was last asked; `None` before the first run.
    pub fn last_check(&self) -> (r: Option<Timestamp>)
        ensures
            r == self@.state.last_check,
    {
        self.state.last_check
    }

    /// Sets the time at which the releaser was last asked.
    pub fn set_last_check(&mut self, t: Timestamp)
        ensures
            final(self)@ == (UpdaterView {
                state: StateView { last_check: Some(t), ..old(self)@.state },
                ..old(self)@
            }),
    {
        self.state.last_check = Some(t);
    }

    /// The seconds that have to pass between two questions to the releaser.
    pub fn update_interval(&self) -> (r: i64)
        ensures
            r == self@.state.update_interval,
    {
        self.state.update_interval
    }

    /// Sets the seconds that have to pass between two questions to the
    /// releaser.  Nothing is saved.
    pub fn set_update_interval(&mut self, t: i64)
        ensures
            final(self)@ == (UpdaterView {
                state: StateView { update_interval: t, ..old(self)@.state },
                ..old(self)@
            }),
    {
        self.state.update_interval = t;
    }

    /// The state that the workflow saved.
    ///
    /// `saved` is what the file of [`Updater::build_data_fn`] holds, `None`
    /// where the file is not there or cannot be read.
    pub fn load(config: &HostConfig, saved: Option<&str>) -> (r: Result<UpdaterState, Error>)
        ensures
            match r {
                Ok(s) => loaded(config@, crate::str_view(saved)) == Ok::<StateView, Error>(s@),
                Err(e) => loaded(config@, crate::str_view(saved)) == Err::<StateView, Error>(e),
            },
    {
        match Updater::<T>::build_data_fn(config) {
            Err(e) => Err(e),
            Ok(_) => match saved {
                None => Err(Error::Io),
                Some(text) => UpdaterState::from_text(text),
            },
        }
    }

    /// Saves the state: the write of its file joins the pending writes.
    ///
    /// Fails, and leaves the updater as it is, where the host gave no data
    /// directory or no UID, or where the time of the last check cannot be
    /// written.
    pub fn save(&mut self) -> (r: Result<(), Error>)
        ensures
            match state_write(old(self)@.state, old(self)@.config) {
                Ok(w) => r == Ok::<(), Error>(()) && final(self)@ == (UpdaterView {
                    pending: old(self)@.pending.push(w),
                    ..old(self)@
                }),
                Err(e) => r == Err::<(), Error>(e) && final(self)@ == old(self)@,
            },
    {
        let path = match Updater::<T>::build_data_fn(&self.config) {
            Ok(p) => p,
            Err(e) => {
                return Err(e);
            },
        };
        let content = match self.state.to_text() {
            Some(s) => s,
            None => {
                return Err(Error::Serialization);
            },
        };
        let w = FileWrite { path, content };
        self.pending.push(w);
        assert(self@.pending =~= old(self)@.pending.push(w@));
        Ok(())
    }

    /// The file that holds the state of the workflow: it lies in the data
    /// directory and is named after the UID and the name of the workflow.
    pub fn build_data_fn(config: &HostConfig) -> (r: Result<FilePath, Error>)
        ensures
            match r {
                Ok(p) => data_file(config@) == Ok::<FilePathView, Error>(p@),
                Err(e) => data_file(config@) == Err::<FilePathView, Error>(e),
            },
    {
        let workflow_name = match &config.workflow_name {
            Some(n) => sanitize(n.as_str()),
            None => sanitize(UNNAMED_WORKFLOW),
        };
        let dir = match &config.workflow_data {
            Some(d) => d.clone(),
            None => {
                return Err(Error::ConfigMissing);
            },
        };
        let uid = match &config.workflow_uid {
            Some(u) => u,
            None => {
                return Err(Error::ConfigMissing);
            },
        };
        let head = concat(uid.as_str(), "-");
        let named = concat(head.as_str(), workflow_name.as_str());
        let file_name = concat(named.as_str(), "-updater.json");
        Ok(FilePath { dir, file_name })
    }

    /// Takes the pending writes, in the order in which they are to be made.
    pub fn take_writes(&mut self) -> (r: Vec<FileWrite>)
        ensures
            write_views(r@) == old(self)@.pending,
            final(self)@ == (UpdaterView { pending: Seq::empty(), ..old(self)@ }),
    {
        let mut taken: Vec<FileWrite> = Vec::new();
        core::mem::swap(&mut taken, &mut self.pending);
        assert(self@.pending =~= Seq::<FileWriteView>::empty());
        taken
    }
}

/// The state and the pending writes that an updater starts with.
pub open spec fn started(c: HostConfigView, saved: Option<Seq<char>>) -> Result<
    (StateView, Seq<FileWriteView>),
    Error,
> {
    match loaded(c, saved) {
        Ok(s) => Ok((s, Seq::empty())),
        Err(_) => match declared_version(c) {
            Err(e) => Err(e),
            Ok(v) => match state_write(fresh_state(v), c) {
                Err(e) => Err(e),
                Ok(w) => Ok((fresh_state(v), seq![w])),
            },
        },
    }
}

/// A state that is written as a JSON document and read back is the same
/// state, in all its fields.
///
/// This holds of a state whose version and time of last check are read back
/// by `semver` and `chrono` as they were written.
pub proof fn lemma_state_document_reads_back(s: StateView)
    requires
        state_json(s) is Some,
        parsed_version(version_text(s.current_version)) == Some(s.current_version),
        s.last_check is Some ==> rfc3339_instant(rfc3339_text(s.last_check->0.secs, s.last_check->0.nanos)->0)
            == s.last_check,
    ensures
        state_of(state_json(s)->0) == Ok::<StateView, Error>(s),
{
    reveal_strlit("current_version");
    reveal_strlit("last_check");
    reveal_strlit("update_interval");
    assert("current_version"@.len() != "last_check"@.len());
    assert("update_interval"@.len() != "last_check"@.len());
    assert("current_version"@[0] != "update_interval"@[0]);
    assert("current_version"@ != "update_interval"@);
}

/// A state that is saved and loaded again is the same state, in all its
/// fields: what `load` makes of the content that `save` writes is the state
/// that was saved.
///
/// This holds of a state whose document `serde_json` reads back as it was
/// written, and so `semver` and `chrono` its version and time of last check.
pub proof fn lemma_saved_state_loads(s: StateView, c: HostConfigView)
    requires
        state_write(s, c) is Ok,
        json_parsed(json_text(state_json(s)->0)) == Some(state_json(s)->0),
        parsed_version(version_text(s.current_version)) == Some(s.current_version),
        s.last_check is Some ==> rfc3339_instant(rfc3339_text(s.last_check->0.secs, s.last_check->0.nanos)->0)
            == s.last_check,
    ensures
        loaded(c, Some(state_write(s, c)->Ok_0.content)) == Ok::<StateView, Error>(s),
{
    lemma_state_document_reads_back(s);
}

/// A sanitized name holds no `-`.
pub proof fn lemma_sanitized_has_no_dash(name: Seq<char>, i: int)
    requires
        0 <= i < name.len(),
    ensures
        sanitized(name).len() == name.len(),
        sanitized(name)[i] != '-',
{
}

/// The file of the state is named after the UID and the name of the
/// workflow: two workflows with different UIDs are kept in files with
/// different names, whatever they are called.
pub proof fn lemma_state_files_differ(uid1: Seq<char>, name1: Seq<char>, uid2: Seq<char>, name2: Seq<char>)
    requires
        uid1 != uid2,
    ensures
        state_file_name(uid1, name1) != state_file_name(uid2, name2),
{
    reveal_strlit("-");
    let f1 = state_file_name(uid1, name1);
    let f2 = state_file_name(uid2, name2);
    let s1 = sanitized(name1);
    let s2 = sanitized(name2);
    let tail = "-updater.json"@;
    assert("-"@ =~= seq!['-']);
    if f1 == f2 {
        assert(f1.len() == uid1.len() + 1 + s1.len() + tail.len());
        assert(f2.len() == uid2.len() + 1 + s2.len() + tail.len());
        assert(f1[uid1.len() as int] == '-');
        assert(f2[uid2.len() as int] == '-');
        if uid1.len() < uid2.len() {
            // the dash after the second UID would lie within the first name
            let k = uid2.len() - uid1.len() - 1;
            assert(k < s1.len());
            assert(f1[uid2.len() as int] == s1[k]);
            lemma_sanitized_has_no_dash(name1, k);
        } else if uid2.len() < uid1.len() {
            let k = uid1.len() - uid2.len() - 1;
            assert(k < s2.len());
            assert(f2[uid1.len() as int] == s2[k]);
            lemma_sanitized_has_no_dash(name2, k);
        } else {
            assert(f1.subrange(0, uid1.len() as int) =~= uid1);
            assert(f2.subrange(0, uid2.len() as int) =~= uid2);
        }
    }
}

} // verus!

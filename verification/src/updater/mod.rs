//! Helper for enabling Alfred workflows to upgrade themselves periodically (Alfred 3)
//!
//! Using this module, the workflow author will be able to make Alfred
//! check for & download latest releases from the remote server
//! within adjustable intervals (default is 24 hrs).
//!
//! For convenience, an associated method [`Updater::gh()`] is available to check for workflows
//! hosted on `github.com`.  However, it's possible to check with other servers as long as the
//! [`Remote`] trait is implemented for the desired remote service; [`Cached`] makes the
//! [`Releaser`] of it that an `Updater` asks.
//!
//! The tag of a release should follow all the semantic versioning rules.
//! The only exception to those rules is that you can prepend your
//! semantic version tag with ASCII letter `v`: `v0.3.1` or `0.3.1`
//!
//! # What the updater does itself, and what it leaves to its caller
//!
//! The updater decides; it reads and writes no file and sends no request.
//! What it wants written it keeps as pending writes, which the caller takes
//! with [`Updater::take_writes`] and makes in their order.  What it needs read
//! it takes as an argument: the saved state when it is made, and the record of
//! the last check in [`Updater::update_ready`].  The download that
//! [`Updater::download_latest`] returns says from where to where the caller
//! has to copy the release.
//!
//! The very first call of `update_ready` answers `false`: the workflow was
//! just installed.  After that the releaser is asked at most once per
//! interval, and the calls in between answer from the record of the last
//! check.  The time of the last check never moves backwards, and it moves
//! forward also where the releaser fails, so that a server that fails is not
//! asked again before the interval has passed.

use vstd::prelude::*;
use crate::timestamp::{elapsed, from_clock, since_epoch, Timestamp};
use crate::value::{as_text, is_null, json_parsed, json_text, null, parse, render, text, JsonModel};
use crate::version::{parsed_version, precedes, version_text, Version, VersionView};

pub mod imp;
pub mod releaser;

pub use crate::updater::imp::{
    data_file, state_write, FilePath, FilePathView, FileWrite, FileWriteView, HostConfig, HostConfigView,
    StateView, UpdaterState,
};
pub use crate::updater::releaser::{Cached, GithubReleaser, Releaser, Remote};

verus! {

/// Default update interval duration 24 hr
pub const UPDATE_INTERVAL: i64 = 24 * 60 * 60;

/// The name of the file that holds the record of the last check.
pub const LATEST_UPDATE_INFO_CACHE_FN: &'static str = "last_check_status.json";

/// Why an operation of the updater failed.
#[derive(Clone, Copy, Debug, PartialEq, Eq, Hash, Structural)]
pub enum Error {
    /// A value that the host has to provide is absent.
    ConfigMissing,
    /// A text is no semantic version.
    VersionParse,
    /// A request failed, or its answer had no status of success.
    Network,
    /// Persisted data, or the description of a release, is malformed.
    Serialization,
    /// A file could not be created, read or written.
    Io,
    /// The release has no asset that can be installed.
    NoDownloadAsset,
    /// The releaser was asked for a download before it knew a release.
    NoDataYet,
}

/// Struct to check for & download the latest release of workflow from a remote server.
pub struct Updater<T: Releaser> {
    state: UpdaterState,
    releaser: Box<T>,
    config: HostConfig,
    pending: Vec<FileWrite>,
}

/// What an [`Updater`] is in contracts.
pub struct UpdaterView<T> {
    /// What the updater remembers from run to run.
    pub state: StateView,
    /// The releaser that the updater asks.
    pub releaser: T,
    /// What the host told the workflow.
    pub config: HostConfigView,
    /// The writes that the caller has still to make, in their order.
    pub pending: Seq<FileWriteView>,
}

impl<T: Releaser> View for Updater<T> {
    type V = UpdaterView<T>;

    closed spec fn view(&self) -> UpdaterView<T> {
        UpdaterView {
            state: self.state@,
            releaser: *self.releaser,
            config: self.config@,
            pending: crate::updater::imp::write_views(self.pending@),
        }
    }
}

/// Whether it is time to ask the releaser: always before the first check, and
/// afterwards when more than the interval has passed since the last one.
pub open spec fn is_due(s: StateView, now: Timestamp) -> bool {
    match s.last_check {
        None => true,
        Some(t) => elapsed(t, now) > s.update_interval * 1_000_000_000,
    }
}

/// The file that holds the record of the last check.
pub open spec fn cache_file(c: HostConfigView) -> Result<FilePathView, Error> {
    match c.workflow_data {
        None => Err(Error::ConfigMissing),
        Some(dir) => Ok(FilePathView { dir, file_name: LATEST_UPDATE_INFO_CACHE_FN@ }),
    }
}

/// What the record of the last check says: the newer version that was found,
/// if one was.  The outer `None` stands for a record that cannot be read;
/// `cache` is `None` where the file of the record is not there.
pub open spec fn recorded(cache: Option<Seq<char>>) -> Option<Option<VersionView>> {
    match cache {
        None => None,
        Some(written) => match json_parsed(written) {
            Some(JsonModel::Null) => Some(None),
            Some(JsonModel::Text(s)) => match parsed_version(s) {
                Some(v) => Some(Some(v)),
                None => None,
            },
            _ => None,
        },
    }
}

/// The record of a check: the newer version that it found, or `null`.
pub open spec fn record_json(found: Option<VersionView>) -> JsonModel {
    match found {
        Some(v) => JsonModel::Text(version_text(v)),
        None => JsonModel::Null,
    }
}

/// The state after a check at the time `now`: the time of the last check is
/// `now`, unless the state holds a later one already.
pub open spec fn checked_at(s: StateView, now: Timestamp) -> StateView {
    StateView {
        last_check: Some(
            match s.last_check {
                None => now,
                Some(t) => if since_epoch(t) >= since_epoch(now) {
                    t
                } else {
                    now
                },
            },
        ),
        ..s
    }
}

/// What `update_ready` does first.
pub enum Plan {
    /// It fails, and changes nothing.
    Fail(Error),
    /// It notes the first run of the workflow.
    FirstRun,
    /// It answers from the record of the last check, and changes nothing.
    Answer(bool),
    /// It asks the releaser.
    Ask,
}

/// What `update_ready` does first, at the time `now` and with the record
/// `cache` of the last check.
pub open spec fn plan(s: StateView, c: HostConfigView, now: Timestamp, cache: Option<Seq<char>>) -> Plan {
    if cache_file(c) is Err {
        Plan::Fail(cache_file(c)->Err_0)
    } else if s.last_check is None {
        Plan::FirstRun
    } else if is_due(s, now) {
        Plan::Ask
    } else {
        match recorded(cache) {
            None => Plan::Ask,
            Some(None) => Plan::Answer(false),
            Some(Some(v)) => Plan::Answer(precedes(s.current_version, v)),
        }
    }
}

/// How a step of the updater ends: what it answers, the state it leaves, and
/// the writes that are pending then.
pub struct Outcome {
    pub answer: Result<bool, Error>,
    pub state: StateView,
    pub pending: Seq<FileWriteView>,
}

/// How the first run ends: the time of the check is noted and the state saved;
/// the answer is `false`, or the reason why the state cannot be saved.
pub open spec fn first_run(
    s: StateView,
    c: HostConfigView,
    pending: Seq<FileWriteView>,
    now: Timestamp,
) -> Outcome {
    let state = checked_at(s, now);
    match state_write(state, c) {
        Ok(w) => Outcome { answer: Ok(false), state, pending: pending.push(w) },
        Err(e) => Outcome { answer: Err(e), state, pending },
    }
}

/// How a check ends for which the releaser answered `latest`.
///
/// The time of the check is noted whatever the releaser answered.  Where it
/// failed, the state is saved and its error is the answer.  Where it gave a
/// version, the answer is whether the current version precedes it; the record
/// of the check is written, then the state.
pub open spec fn concluded(
    s: StateView,
    c: HostConfigView,
    pending: Seq<FileWriteView>,
    now: Timestamp,
    latest: Result<VersionView, Error>,
) -> Outcome {
    let state = checked_at(s, now);
    match latest {
        Err(e) => Outcome {
            answer: Err(e),
            state,
            pending: match state_write(state, c) {
                Ok(w) => pending.push(w),
                Err(_) => pending,
            },
        },
        Ok(v) => {
            let ready = precedes(s.current_version, v);
            let found = if ready {
                Some(v)
            } else {
                None
            };
            match cache_file(c) {
                Err(e) => Outcome { answer: Err(e), state, pending },
                Ok(path) => {
                    let record = FileWriteView { path, content: json_text(record_json(found)) };
                    match state_write(state, c) {
                        Err(e) => Outcome { answer: Err(e), state, pending: pending.push(record) },
                        Ok(w) => Outcome { answer: Ok(ready), state, pending: pending.push(record).push(w) },
                    }
                },
            }
        },
    }
}

/// The version, where there is one.
pub open spec fn version_view(r: Result<Version, Error>) -> Result<VersionView, Error> {
    match r {
        Ok(v) => Ok(v@),
        Err(e) => Err(e),
    }
}

/// Whether `after` and `answer` are how a step that began in `before` ended as
/// `o` says; the releaser is left out of the comparison.
pub open spec fn ended<T>(before: UpdaterView<T>, o: Outcome, answer: Result<bool, Error>, after: UpdaterView<T>) -> bool {
    &&& answer == o.answer
    &&& after.state == o.state
    &&& after.pending == o.pending
    &&& after.config == before.config
}

/// Whether `update_ready`, called at the time `now` with the record `cache`
/// on an updater that was `before`, asked the releaser, got `latest` from it,
/// and so answered `answer` and left the updater as `after`.
pub open spec fn asked<T>(
    before: UpdaterView<T>,
    now: Timestamp,
    latest: Result<VersionView, Error>,
    answer: Result<bool, Error>,
    after: UpdaterView<T>,
) -> bool {
    ended(before, concluded(before.state, before.config, before.pending, now, latest), answer, after)
}

/// Whether `update_ready`, called at the time `now` with the record `cache`
/// on an updater that was `before`, can answer `answer` and leave the updater
/// as `after`.
///
/// Everything is fixed but what the releaser says where it is asked.
pub open spec fn answered<T>(
    before: UpdaterView<T>,
    now: Timestamp,
    cache: Option<Seq<char>>,
    answer: Result<bool, Error>,
    after: UpdaterView<T>,
) -> bool {
    match plan(before.state, before.config, now, cache) {
        Plan::Fail(e) => answer == Err::<bool, Error>(e) && after == before,
        Plan::Answer(b) => answer == Ok::<bool, Error>(b) && after == before,
        Plan::FirstRun => after.releaser == before.releaser && ended(
            before,
            first_run(before.state, before.config, before.pending, now),
            answer,
            after,
        ),
        Plan::Ask => exists|latest: Result<VersionView, Error>| asked(before, now, latest, answer, after),
    }
}

/// A release that is to be downloaded: from where, and into which file.
#[derive(Clone, Debug, PartialEq, Eq)]
pub struct Download {
    /// The address of the release.
    pub url: String,
    /// The file that is to hold the release; what it held before is replaced.
    pub target: FilePath,
}

/// What a [`Download`] is in contracts.
pub struct DownloadView {
    pub url: Seq<char>,
    pub target: FilePathView,
}

impl View for Download {
    type V = DownloadView;

    open spec fn view(&self) -> DownloadView {
        DownloadView { url: self.url@, target: self.target@ }
    }
}

/// The download, where there is one.
pub open spec fn download_view(r: Result<Download, Error>) -> Result<DownloadView, Error> {
    match r {
        Ok(d) => Ok(d@),
        Err(e) => Err(e),
    }
}

/// The name of the file that holds the downloaded release of the workflow
/// `uid`.
pub open spec fn release_file_name(uid: Seq<char>) -> Seq<char> {
    "latest_release_"@ + uid + ".alfredworkflow"@
}

/// The file that holds the downloaded release: it lies in the cache
/// directory and is named after the UID of the workflow.
pub open spec fn download_target(c: HostConfigView) -> Result<FilePathView, Error> {
    match c.workflow_cache {
        None => Err(Error::ConfigMissing),
        Some(dir) => match c.workflow_uid {
            None => Err(Error::ConfigMissing),
            Some(uid) => Ok(FilePathView { dir, file_name: release_file_name(uid) }),
        },
    }
}

/// The download that follows from what the releaser offers.
pub open spec fn download_of(offer: Result<Seq<char>, Error>, c: HostConfigView) -> Result<DownloadView, Error> {
    match offer {
        Err(e) => Err(e),
        Ok(url) => match download_target(c) {
            Err(e) => Err(e),
            Ok(target) => Ok(DownloadView { url, target }),
        },
    }
}

/// The state with another current version.
pub open spec fn with_version(s: StateView, v: VersionView) -> StateView {
    StateView { current_version: v, ..s }
}

/// The state with another interval.
pub open spec fn with_interval(s: StateView, tick: i64) -> StateView {
    StateView { update_interval: tick, ..s }
}

/// How a change of the state ends that is saved at once.
pub open spec fn changed(state: StateView, c: HostConfigView, pending: Seq<FileWriteView>) -> (
    Result<(), Error>,
    Seq<FileWriteView>,
) {
    match state_write(state, c) {
        Ok(w) => (Ok(()), pending.push(w)),
        Err(e) => (Err(e), pending),
    }
}

impl Updater<GithubReleaser> {
    /// Create an `Updater` object that will interface with a `github` repository.
    ///
    /// The `repo_name` should be in `user_name/repository_name` form.  `config`
    /// is what the host told the workflow, and `saved` what the file of
    /// [`Updater::build_data_fn`] holds, `None` where it is not there or
    /// cannot be read.
    ///
    /// This only creates an `Updater` without performing any network operations.
    /// To check availability of a new release use [`update_ready()`] method.
    ///
    /// To download an available release use [`download_latest()`] method.
    ///
    /// # Errors
    /// Error will happen during calling this method if:
    /// - `Updater` state cannot be saved, because the host gave no data directory or no UID, or
    /// - The workflow version cannot be parsed as semantic version compatible identifier.
    ///
    /// [`update_ready()`]: struct.Updater.html#method.update_ready
    /// [`download_latest()`]: struct.Updater.html#method.download_latest
    pub fn gh(repo_name: &str, config: HostConfig, saved: Option<&str>) -> (u: Result<Updater<GithubReleaser>, Error>)
        ensures
            match crate::updater::imp::started(config@, crate::str_view(saved)) {
                Ok(begun) => u is Ok && u->Ok_0@.state == begun.0 && u->Ok_0@.pending == begun.1 && u->Ok_0@.config
                    == config@ && u->Ok_0@.releaser@ == (crate::updater::releaser::GithubReleaserView {
                    repo: repo_name@,
                    latest_release: None,
                }),
                Err(e) => u is Err && u->Err_0 == e,
            },
    {
        let releaser = Box::new(GithubReleaser::new(repo_name));
        Updater::load_or_new(releaser, config, saved)
    }

    /// The address from which the description of the latest release is
    /// requested.
    pub fn latest_release_url(&self) -> (r: String)
        ensures
            r@ == crate::updater::releaser::GITHUB_API_URL@ + self@.releaser@.repo
                + crate::updater::releaser::GITHUB_LATEST_RELEASE_ENDPOINT@,
    {
        self.releaser.latest_release_url()
    }

    /// Hands the answer of the server to the request for the latest release
    /// to the releaser of the updater: the status of the answer and its body.
    ///
    /// The releaser keeps the release that the answer describes, as
    /// [`GithubReleaser::latest_release_data`] says; where the answer is
    /// refused, nothing changes.  The rest of the updater stays as it is.
    pub fn latest_release_data(&mut self, status: u16, body: &str) -> (r: Result<(), Error>)
        ensures
            final(self)@.state == old(self)@.state,
            final(self)@.config == old(self)@.config,
            final(self)@.pending == old(self)@.pending,
            match crate::updater::releaser::received(status, body@) {
                Ok(item) => r == Ok::<(), Error>(()) && final(self)@.releaser@
                    == (crate::updater::releaser::GithubReleaserView {
                    latest_release: Some(item),
                    ..old(self)@.releaser@
                }),
                Err(e) => r == Err::<(), Error>(e) && final(self)@.releaser@ == old(self)@.releaser@,
            },
    {
        self.releaser.latest_release_data(status, body)
    }
}

impl<T: Releaser> Updater<T> {
    /// Check if it is time to ask remote server for latest updates, taking
    /// `now` for the present time.
    ///
    /// It returns `true` if it has been more than UPDATE_INTERVAL seconds since we last
    /// checked with server (i.e. ran [`update_ready()`]), otherwise returns false.
    ///
    /// [`update_ready()`]: struct.Updater.html#method.update_ready
    pub fn due_at(&self, now: Timestamp) -> (r: bool)
        ensures
            r == is_due(self@.state, now),
    {
        match self.state.last_check {
            None => true,
            Some(t) => t.passed(now, self.state.update_interval),
        }
    }

    /// Check if it is time to ask remote server for latest updates.
    ///
    /// This is [`Updater::due_at`] for the time that the clock shows, so it is
    /// `true` before the first check whatever the clock shows.
    pub fn due_to_check(&self) -> (r: bool)
        ensures
            exists|now: Timestamp| #[trigger] from_clock(now) && r == is_due(self@.state, now),
            self@.state.last_check is None ==> r,
    {
        let now = Timestamp::now();
        let r = self.due_at(now);
        assert(from_clock(now) && r == is_due(self@.state, now));
        r
    }

    /// Create an `Updater` object that will interface with a remote repository for updating operations.
    ///
    /// How the `Updater` interacts with the remote server should be implemented using the [`Remote`]
    /// trait, and handed over as a [`Cached`] releaser.
    ///
    /// Note that the method only creates an `Updater` without performing any network operations.
    ///
    /// # Errors
    /// Error will happen during calling this method if:
    /// - `Updater` state cannot be saved, because the host gave no data directory or no UID, or
    /// - The workflow version cannot be parsed as semantic version compatible identifier.
    pub fn new(repo_name: &str, config: HostConfig, saved: Option<&str>) -> (u: Result<Updater<T>, Error>)
        ensures
            match crate::updater::imp::started(config@, crate::str_view(saved)) {
                Ok(begun) => u is Ok && u->Ok_0@.state == begun.0 && u->Ok_0@.pending == begun.1 && u->Ok_0@.config
                    == config@,
                Err(e) => u is Err && u->Err_0 == e,
            },
    {
        let releaser = Box::new(T::new(repo_name));
        Updater::load_or_new(releaser, config, saved)
    }

    /// Set workflow's version to `version`, and save the state.
    ///
    /// Content of `version` needs to follow semantic versioning.
    ///
    /// This method is provided so workflow authors can set the version from within the Rust code.
    ///
    /// # Errors
    /// Fails with `Error::VersionParse`, and changes nothing, where `version` is
    /// no semantic version.  Fails with the error of [`Updater::save`] where
    /// the state cannot be saved; the version is set then.
    pub fn set_version(&mut self, version: &str) -> (r: Result<(), Error>)
        ensures
            match parsed_version(version@) {
                None => r == Err::<(), Error>(Error::VersionParse) && final(self)@ == old(self)@,
                Some(v) => {
                    let state = with_version(old(self)@.state, v);
                    let end = changed(state, old(self)@.config, old(self)@.pending);
                    r == end.0 && final(self)@ == (UpdaterView { state, pending: end.1, ..old(self)@ })
                },
            },
    {
        match Version::parse(version) {
            None => Err(Error::VersionParse),
            Some(v) => {
                self.state.current_version = v;
                self.save()
            },
        }
    }

    /// Set the interval between checks for a newer release (in seconds), and
    /// save the state.
    ///
    /// # Errors
    /// Fails with the error of [`Updater::save`] where the state cannot be
    /// saved; the interval is set then.
    pub fn set_interval(&mut self, tick: i64) -> (r: Result<(), Error>)
        ensures
            ({
                let state = with_interval(old(self)@.state, tick);
                let end = changed(state, old(self)@.config, old(self)@.pending);
                r == end.0 && final(self)@ == (UpdaterView { state, pending: end.1, ..old(self)@ })
            }),
    {
        self.set_update_interval(tick);
        self.save()
    }

    /// Checks if a new update is available.
    ///
    /// This method asks the releaser for the latest release (without a full download)
    /// and compares it to the current release of the workflow. The repository should
    /// tag each release according to semantic version scheme for this to work.
    ///
    /// The method **will** ask the releaser *only if* UPDATE_INTERVAL
    /// seconds has passed since it last did, or in rare case of the record of
    /// the last check being corrupted.
    ///
    /// All calls, which happen before the UPDATE_INTERVAL seconds, will use the
    /// record of the last check to report availability of a release.  `cache`
    /// is what the file of that record holds, `None` where the file is not
    /// there or cannot be read; the file is the one of [`Updater::cache_fn`].
    ///
    /// This is [`Updater::update_ready_at`] for the time that the clock shows.
    ///
    /// # Errors
    /// Checking for update can fail if the releaser fails or if the host gave no
    /// data directory or no UID.
    pub fn update_ready(&mut self, cache: Option<&str>) -> (r: Result<bool, Error>)
        ensures
            exists|now: Timestamp|
                from_clock(now) && #[trigger] answered(old(self)@, now, crate::str_view(cache), r, final(self)@),
            old(self)@.state.last_check is None && data_file(old(self)@.config) is Ok ==> {
                &&& r == Ok::<bool, Error>(false)
                &&& final(self)@.state.last_check is Some
                &&& final(self)@.state == (StateView {
                    last_check: final(self)@.state.last_check,
                    ..old(self)@.state
                })
                &&& state_write(final(self)@.state, final(self)@.config) is Ok
                &&& final(self)@.pending == old(self)@.pending.push(
                    state_write(final(self)@.state, final(self)@.config)->Ok_0,
                )
                &&& final(self)@.releaser == old(self)@.releaser
                &&& final(self)@.config == old(self)@.config
            },
    {
        let now = Timestamp::now();
        let r = self.update_ready_at(now, cache);
        assert(from_clock(now) && answered(old(self)@, now, crate::str_view(cache), r, self@));
        r
    }

    /// Checks if a new update is available, taking `now` for the present time.
    ///
    /// - Where the host gave no data directory, the call fails.
    /// - On the first run of the workflow the time of the check is noted, the
    ///   state is saved and the answer is `false`: the releaser is not asked.
    /// - Where no more than the interval has passed since the last check and
    ///   the record of that check can be read, the answer comes from the
    ///   record and nothing changes.
    /// - Otherwise the releaser is asked, and [`Updater::conclude_check`] does
    ///   the rest.
    pub fn update_ready_at(&mut self, now: Timestamp, cache: Option<&str>) -> (r: Result<bool, Error>)
        ensures
            answered(old(self)@, now, crate::str_view(cache), r, final(self)@),
    {
        if self.config.workflow_data.is_none() {
            return Err(Error::ConfigMissing);
        }
        if self.state.last_check.is_none() {
            self.state.last_check = Some(now);
            return match self.save() {
                Ok(()) => Ok(false),
                Err(e) => Err(e),
            };
        }
        if !self.due_at(now) {
            match Updater::<T>::read_record(cache) {
                Some(Some(v)) => {
                    return Ok(self.state.current_version.lt(&v));
                },
                Some(None) => {
                    return Ok(false);
                },
                None => {},
            }
        }
        let latest = self.releaser.latest_version();
        let r = self.conclude_check(now, latest);
        assert(asked(old(self)@, now, version_view(latest), r, self@));
        r
    }

    /// Ends a check for which the releaser answered `latest`, at the time
    /// `now`.
    ///
    /// The time of the check is noted whatever the releaser answered.  Where
    /// it failed, the state is saved and its error is returned.  Where it gave
    /// a version, the answer is whether the current version precedes it; the
    /// record of the check is written, then the state.
    pub fn conclude_check(&mut self, now: Timestamp, latest: Result<Version, Error>) -> (r: Result<bool, Error>)
        ensures
            final(self)@.releaser == old(self)@.releaser,
            ended(
                old(self)@,
                concluded(old(self)@.state, old(self)@.config, old(self)@.pending, now, version_view(latest)),
                r,
                final(self)@,
            ),
    {
        self.state.last_check = Some(
            match self.state.last_check {
                None => now,
                Some(t) => t.later(now),
            },
        );
        match latest {
            Err(e) => {
                let _ = self.save();
                Err(e)
            },
            Ok(v) => {
                let ready = self.state.current_version.lt(&v);
                let path = match Updater::<T>::cache_fn(&self.config) {
                    Ok(p) => p,
                    Err(e) => {
                        return Err(e);
                    },
                };
                let found = if ready {
                    Some(v)
                } else {
                    None
                };
                let record = FileWrite { path, content: Updater::<T>::write_record(&found) };
                self.pending.push(record);
                assert(self@.pending =~= old(self)@.pending.push(record@));
                match self.save() {
                    Ok(()) => Ok(ready),
                    Err(e) => Err(e),
                }
            },
        }
    }

    /// The file that holds the record of the last check: it lies in the data
    /// directory.
    pub fn cache_fn(config: &HostConfig) -> (r: Result<FilePath, Error>)
        ensures
            match r {
                Ok(p) => cache_file(config@) == Ok::<FilePathView, Error>(p@),
                Err(e) => cache_file(config@) == Err::<FilePathView, Error>(e),
            },
    {
        match &config.workflow_data {
            None => Err(Error::ConfigMissing),
            Some(dir) => Ok(FilePath { dir: dir.clone(), file_name: LATEST_UPDATE_INFO_CACHE_FN.to_owned() }),
        }
    }

    /// What the record of the last check says: the newer version that was
    /// found, if one was.  The outer `None` stands for a record that cannot be
    /// read.
    pub fn read_record(cache: Option<&str>) -> (r: Option<Option<Version>>)
        ensures
            match r {
                None => recorded(crate::str_view(cache)) is None,
                Some(None) => recorded(crate::str_view(cache)) == Some(None::<VersionView>),
                Some(Some(v)) => recorded(crate::str_view(cache)) == Some(Some(v@)),
            },
    {
        let written = match cache {
            Some(s) => s,
            None => {
                return None;
            },
        };
        let value = match parse(written) {
            Some(v) => v,
            None => {
                return None;
            },
        };
        if is_null(&value) {
            return Some(None);
        }
        match as_text(&value) {
            Some(s) => match Version::parse(s) {
                Some(v) => Some(Some(v)),
                None => None,
            },
            None => None,
        }
    }

    /// The text of the record of a check that found the newer version
    /// `found`, or none.
    pub fn write_record(found: &Option<Version>) -> (r: String)
        ensures
            r@ == json_text(
                record_json(
                    match *found {
                        Some(v) => Some(v@),
                        None => None,
                    },
                ),
            ),
    {
        match found {
            Some(v) => {
                let written = v.to_text();
                render(&text(written.as_str()))
            },
            None => render(&null()),
        }
    }

    /// Says from where the latest release is to be downloaded, and into which
    /// file of the workflow's cache directory.
    ///
    /// The downloaded workflow is always saved as
    /// `latest_release_WORKFLOW-UID.alfredworkflow`.  The caller makes the
    /// download: a download that fails leaves a file that must not be used.
    ///
    /// Where the releaser knows no release yet, it is asked for the latest
    /// version first.
    ///
    /// # Errors
    /// Fails if the releaser cannot produce a usable download url, with
    /// `Error::NoDownloadAsset` where the latest release has nothing that can
    /// be installed, or if the host gave no cache directory or no UID.
    pub fn download_latest(&mut self) -> (r: Result<Download, Error>)
        ensures
            final(self)@.state == old(self)@.state,
            final(self)@.config == old(self)@.config,
            final(self)@.pending == old(self)@.pending,
            old(self)@.releaser.download() != Err::<Seq<char>, Error>(Error::NoDataYet) ==> final(self)@ == old(
                self,
            )@ && download_view(r) == download_of(old(self)@.releaser.download(), old(self)@.config),
            old(self)@.releaser.download() == Err::<Seq<char>, Error>(Error::NoDataYet) ==> r is Err || download_view(r)
                == download_of(final(self)@.releaser.download(), old(self)@.config),
    {
        let first = self.releaser.downloadable_url();
        let offer = match first {
            Err(Error::NoDataYet) => {
                match self.releaser.latest_version() {
                    Err(e) => {
                        return Err(e);
                    },
                    Ok(_) => {},
                }
                self.releaser.downloadable_url()
            },
            other => other,
        };
        Updater::<T>::plan_download(offer, &self.config)
    }

    /// The download that follows from what the releaser offers.
    pub fn plan_download(offer: Result<String, Error>, config: &HostConfig) -> (r: Result<Download, Error>)
        ensures
            download_view(r) == download_of(crate::updater::releaser::url_view(offer), config@),
    {
        let url = match offer {
            Ok(u) => u,
            Err(e) => {
                return Err(e);
            },
        };
        let dir = match &config.workflow_cache {
            Some(d) => d.clone(),
            None => {
                return Err(Error::ConfigMissing);
            },
        };
        let uid = match &config.workflow_uid {
            Some(u) => u,
            None => {
                return Err(Error::ConfigMissing);
            },
        };
        let head = crate::text::concat("latest_release_", uid.as_str());
        let file_name = crate::text::concat(head.as_str(), ".alfredworkflow");
        Ok(Download { url, target: FilePath { dir, file_name } })
    }

    /// The releaser that the updater asks.
    pub fn releaser(&self) -> (r: &T)
        ensures
            *r == self@.releaser,
    {
        &*self.releaser
    }
}

/// The first call of `update_ready` answers `false`, and it saves a state that
/// holds the time of the call as the time of the last check.
///
/// This holds of an updater that has never checked, wherever its state can be
/// saved: the host gave a data directory and a UID, and `now` can be written.
pub proof fn lemma_first_call_answers_false<T>(
    before: UpdaterView<T>,
    now: Timestamp,
    cache: Option<Seq<char>>,
    answer: Result<bool, Error>,
    after: UpdaterView<T>,
)
    requires
        before.state.last_check is None,
        data_file(before.config) is Ok,
        crate::timestamp::rfc3339_text(now.secs, now.nanos) is Some,
        answered(before, now, cache, answer, after),
    ensures
        answer == Ok::<bool, Error>(false),
        after.state.last_check == Some(now),
        after.state == (StateView { last_check: Some(now), ..before.state }),
        state_write(after.state, after.config) is Ok,
        after.pending == before.pending.push(state_write(after.state, after.config)->Ok_0),
{
}

/// With an interval of zero seconds every call of `update_ready` that comes
/// after the last check asks the releaser.
///
/// "After" is meant strictly: a call at the very instant of the last check is
/// not due.
pub proof fn lemma_zero_interval_always_asks(
    s: StateView,
    c: HostConfigView,
    now: Timestamp,
    cache: Option<Seq<char>>,
)
    requires
        s.update_interval == 0,
        s.last_check is Some,
        since_epoch(now) > since_epoch(s.last_check->0),
        c.workflow_data is Some,
    ensures
        is_due(s, now),
        plan(s, c, now, cache) == Plan::Ask,
{
}

/// Where the releaser reports a version, `update_ready` answers `true` if the
/// current version precedes it, and `false` if it does not.
///
/// This holds wherever the state can be saved: the host gave a data directory
/// and a UID, and the time of the check can be written.
pub proof fn lemma_answer_compares_versions(
    s: StateView,
    c: HostConfigView,
    pending: Seq<FileWriteView>,
    now: Timestamp,
    remote: VersionView,
)
    requires
        state_write(checked_at(s, now), c) is Ok,
    ensures
        concluded(s, c, pending, now, Ok(remote)).answer == Ok::<bool, Error>(precedes(s.current_version, remote)),
        precedes(s.current_version, remote) ==> concluded(s, c, pending, now, Ok(remote)).answer == Ok::<bool, Error>(
            true,
        ),
        !precedes(s.current_version, remote) ==> concluded(s, c, pending, now, Ok(remote)).answer == Ok::<
            bool,
            Error,
        >(false),
{
}

/// The time of the last check never moves backwards, and after a check it is
/// not before the time of that check.
pub proof fn lemma_last_check_never_moves_back(s: StateView, now: Timestamp)
    ensures
        checked_at(s, now).last_check is Some,
        since_epoch(checked_at(s, now).last_check->0) >= since_epoch(now),
        s.last_check is Some ==> since_epoch(checked_at(s, now).last_check->0) >= since_epoch(s.last_check->0),
{
}

/// Where the release that a `GithubReleaser` knows has no eligible asset,
/// `download_latest` fails with `Error::NoDownloadAsset`.
pub proof fn lemma_download_fails_without_asset(
    g: crate::updater::releaser::GithubReleaserView,
    c: HostConfigView,
)
    requires
        g.latest_release is Some,
        forall|i: int|
            0 <= i < g.latest_release->0.assets.len() ==> !crate::updater::releaser::eligible(
                #[trigger] g.latest_release->0.assets[i],
            ),
    ensures
        download_of(g.download(), c) == Err::<DownloadView, Error>(Error::NoDownloadAsset),
{
    crate::updater::releaser::lemma_nothing_to_download(g.latest_release->0);
}

/// Where the release that a `GithubReleaser` knows has exactly one eligible
/// asset, `download_latest` succeeds: the download comes from the url of that
/// asset and goes to a file of the cache directory whose name holds the UID of
/// the workflow.
///
/// This holds wherever the address of the asset is a url and the host gave a
/// cache directory and a UID.
pub proof fn lemma_download_of_single_asset(
    g: crate::updater::releaser::GithubReleaserView,
    c: HostConfigView,
    k: int,
)
    requires
        g.latest_release is Some,
        0 <= k < g.latest_release->0.assets.len(),
        crate::updater::releaser::eligible(g.latest_release->0.assets[k]),
        forall|i: int|
            0 <= i < g.latest_release->0.assets.len() && i != k ==> !crate::updater::releaser::eligible(
                #[trigger] g.latest_release->0.assets[i],
            ),
        crate::updater::releaser::url_text(g.latest_release->0.assets[k].browser_download_url) is Some,
        c.workflow_cache is Some,
        c.workflow_uid is Some,
    ensures
        download_of(g.download(), c) is Ok,
        download_of(g.download(), c)->Ok_0.url == crate::updater::releaser::url_text(
            g.latest_release->0.assets[k].browser_download_url,
        )->0,
        download_of(g.download(), c)->Ok_0.target.dir == c.workflow_cache->0,
        download_of(g.download(), c)->Ok_0.target.file_name == "latest_release_"@ + c.workflow_uid->0
            + ".alfredworkflow"@,
{
    crate::updater::releaser::lemma_single_asset_is_chosen(g.latest_release->0, k);
}

} // verus!

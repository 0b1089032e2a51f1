//! Where the latest release of a workflow is found.
//!
//! A [`Releaser`] answers two questions: which version is the latest one, and
//! from which URL it can be had.  [`GithubReleaser`] answers them from the
//! description of a release as `github.com` gives it.  It starts without such
//! a description and gets one from [`GithubReleaser::latest_release_data`],
//! which takes the answer of the server: the request itself is made by the
//! caller, to the address that [`GithubReleaser::latest_release_url`] gives.

use vstd::prelude::*;
use crate::text::{chars_of, concat, ends_with, is_suffix, str_eq, string_of};
use crate::updater::Error;
use crate::value::{as_items, as_text, json_model, json_models, json_parsed, lookup, member_of, parse, JsonModel};
use crate::version::{parsed_version, Version, VersionView};

verus! {

/// Where `github.com` describes the repositories.
pub const GITHUB_API_URL: &'static str = "https://api.github.com/repos/";

/// What follows a repository's name in the address of its latest release.
pub const GITHUB_LATEST_RELEASE_ENDPOINT: &'static str = "/releases/latest";

/// The url, where there is one.
pub open spec fn url_view(r: Result<String, Error>) -> Result<Seq<char>, Error> {
    match r {
        Ok(s) => Ok(s@),
        Err(e) => Err(e),
    }
}

/// An interface for checking with remote servers to identify the latest release for an
/// Alfred workflow.
///
/// This trait has been implemented for `GithubReleaser` to check for a newer version of a workflow
/// that's maintained on `github.com`.  A releaser says in contracts what it
/// offers for download.  A service of your own is a [`Remote`]; [`Cached`]
/// makes a releaser of it.
pub trait Releaser: Sized {
    /// What `downloadable_url` answers in the releaser's present state.
    spec fn download(&self) -> Result<Seq<char>, Error>;

    /// Creates a new `Releaser` instance that is identified as `name`
    fn new(name: &str) -> Self;

    /// Returns an `Ok(url)` that can be used to directly download the `.alfredworkflow`
    ///
    /// Returns `Err(Error::NoDataYet)` as long as the releaser knows no release, and
    /// `Err(Error::NoDownloadAsset)` where the release it knows has nothing to download.
    fn downloadable_url(&self) -> (r: Result<String, Error>)
        ensures
            url_view(r) == self.download(),
    ;

    /// Returns the latest release's version that is available for download from server
    ///
    /// Implementors are strongly encouraged to get the meta-data about the latest release without
    /// performing a full download of the workflow.
    ///
    /// Method returns `Err(Error)` on file or network error.
    fn latest_version(&mut self) -> Result<Version, Error>;
}

/// A remote service of which nothing is known: what it answers is its own
/// affair.
pub trait Remote: Sized {
    /// Creates a new instance that is identified as `name`
    fn new(name: &str) -> Self;

    /// Returns an `Ok(url)` that can be used to directly download the `.alfredworkflow`
    fn downloadable_url(&self) -> Result<String, Error>;

    /// Returns the latest release's version that is available for download from server
    fn latest_version(&mut self) -> Result<Version, Error>;
}

/// A copy of what a releaser offers.
pub fn copy_offer(offer: &Result<String, Error>) -> (r: Result<String, Error>)
    ensures
        url_view(r) == url_view(*offer),
{
    match offer {
        Ok(url) => Ok(url.clone()),
        Err(e) => Err(*e),
    }
}

/// A [`Remote`] as a [`Releaser`]: it keeps what the remote offered for
/// download when it was made and after each question for the latest version,
/// and answers from that.
pub struct Cached<R: Remote> {
    remote: R,
    offer: Result<String, Error>,
}

impl<R: Remote> Cached<R> {
    /// The remote that the releaser asks.
    pub closed spec fn inner(&self) -> R {
        self.remote
    }

    /// The releaser of a remote that is there already.  What it offers is
    /// what the remote answers now.
    pub fn wrap(remote: R) -> (r: Cached<R>)
        ensures
            r.inner() == remote,
    {
        let offer = remote.downloadable_url();
        Cached { remote, offer }
    }

    /// The remote that the releaser asks.
    pub fn remote(&self) -> (r: &R)
        ensures
            *r == self.inner(),
    {
        &self.remote
    }
}

impl<R: Remote> Releaser for Cached<R> {
    closed spec fn download(&self) -> Result<Seq<char>, Error> {
        url_view(self.offer)
    }

    fn new(name: &str) -> (r: Cached<R>) {
        Cached::wrap(R::new(name))
    }

    fn downloadable_url(&self) -> (r: Result<String, Error>) {
        copy_offer(&self.offer)
    }

    fn latest_version(&mut self) -> (r: Result<Version, Error>) {
        let latest = self.remote.latest_version();
        self.offer = self.remote.downloadable_url();
        latest
    }
}

/// A single downloadable asset.
#[derive(Clone, Debug, PartialEq, Eq)]
pub struct ReleaseAsset {
    pub url: String,
    pub name: String,
    pub state: String,
    pub browser_download_url: String,
}

/// What a [`ReleaseAsset`] is in contracts.
pub struct ReleaseAssetView {
    pub url: Seq<char>,
    pub name: Seq<char>,
    pub state: Seq<char>,
    pub browser_download_url: Seq<char>,
}

impl View for ReleaseAsset {
    type V = ReleaseAssetView;

    open spec fn view(&self) -> ReleaseAssetView {
        ReleaseAssetView {
            url: self.url@,
            name: self.name@,
            state: self.state@,
            browser_download_url: self.browser_download_url@,
        }
    }
}

/// Information about a single release point.
///
/// Each release point may have multiple downloadable assets.
#[derive(Clone, Debug, PartialEq, Eq)]
pub struct ReleaseItem {
    /// name of release that should hold a semver compatible identifier.
    pub tag_name: String,
    /// what the release offers for download.
    pub assets: Vec<ReleaseAsset>,
}

/// What a [`ReleaseItem`] is in contracts.
pub struct ReleaseItemView {
    pub tag_name: Seq<char>,
    pub assets: Seq<ReleaseAssetView>,
}

/// The views of a sequence of assets.
pub open spec fn asset_views(assets: Seq<ReleaseAsset>) -> Seq<ReleaseAssetView> {
    assets.map_values(|a: ReleaseAsset| a@)
}

impl View for ReleaseItem {
    type V = ReleaseItemView;

    open spec fn view(&self) -> ReleaseItemView {
        ReleaseItemView { tag_name: self.tag_name@, assets: asset_views(self.assets@) }
    }
}

/// The member `key` of a JSON object, where it is a string.
pub open spec fn text_member(m: JsonModel, key: Seq<char>) -> Option<Seq<char>> {
    match member_of(m, key) {
        Some(JsonModel::Text(s)) => Some(s),
        _ => None,
    }
}

/// The asset that a JSON value describes: an object whose members `url`,
/// `name`, `state` and `browser_download_url` are strings.  Other members are
/// passed over.
pub open spec fn asset_of(m: JsonModel) -> Option<ReleaseAssetView> {
    if text_member(m, "url"@) is Some && text_member(m, "name"@) is Some && text_member(m, "state"@) is Some
        && text_member(m, "browser_download_url"@) is Some {
        Some(
            ReleaseAssetView {
                url: text_member(m, "url"@)->0,
                name: text_member(m, "name"@)->0,
                state: text_member(m, "state"@)->0,
                browser_download_url: text_member(m, "browser_download_url"@)->0,
            },
        )
    } else {
        None
    }
}

/// The assets that the elements of a JSON array describe, where each of them
/// describes one.
pub open spec fn assets_of(items: Seq<JsonModel>) -> Option<Seq<ReleaseAssetView>> {
    if forall|i: int| 0 <= i < items.len() ==> (#[trigger] asset_of(items[i])) is Some {
        Some(items.map_values(|m: JsonModel| asset_of(m)->0))
    } else {
        None
    }
}

/// The release that a JSON value describes: an object whose member `tag_name`
/// is a string and whose member `assets` is an array of assets.
pub open spec fn release_of(m: JsonModel) -> Option<ReleaseItemView> {
    match text_member(m, "tag_name"@) {
        Some(tag) => match member_of(m, "assets"@) {
            Some(JsonModel::Array(items)) => match assets_of(items) {
                Some(assets) => Some(ReleaseItemView { tag_name: tag, assets }),
                None => None,
            },
            _ => None,
        },
        None => None,
    }
}

/// A tag without the `v` that may stand before the version.
pub open spec fn without_v(tag: Seq<char>) -> Seq<char> {
    if tag.len() > 0 && tag[0] == 'v' {
        tag.drop_first()
    } else {
        tag
    }
}

/// Whether a status of HTTP says that the request succeeded.
pub open spec fn is_success(status: u16) -> bool {
    200 <= status < 300
}

/// What the answer of the server to the request for the latest release gives:
/// the release it describes, its tag without a leading `v`, or the reason why
/// there is none.
pub open spec fn received(status: u16, body: Seq<char>) -> Result<ReleaseItemView, Error> {
    if !is_success(status) {
        Err(Error::Network)
    } else {
        match json_parsed(body) {
            Some(m) => match release_of(m) {
                Some(item) => Ok(ReleaseItemView { tag_name: without_v(item.tag_name), assets: item.assets }),
                None => Err(Error::Serialization),
            },
            None => Err(Error::Serialization),
        }
    }
}

/// Whether an asset can be installed: it is uploaded, and its name ends like
/// the name of a workflow bundle.
pub open spec fn eligible(a: ReleaseAssetView) -> bool {
    a.state == "uploaded"@ && (is_suffix("alfredworkflow"@, a.name) || is_suffix("alfred3workflow"@, a.name))
}

/// Whether an asset can be installed and has the more specific of the two
/// endings.
pub open spec fn preferred(a: ReleaseAssetView) -> bool {
    eligible(a) && is_suffix("alfred3workflow"@, a.name)
}

/// The first preferred asset.
pub open spec fn first_preferred(assets: Seq<ReleaseAssetView>) -> Option<ReleaseAssetView>
    decreases assets.len(),
{
    if assets.len() == 0 {
        None
    } else if preferred(assets[0]) {
        Some(assets[0])
    } else {
        first_preferred(assets.drop_first())
    }
}

/// The first eligible asset.
pub open spec fn first_eligible(assets: Seq<ReleaseAssetView>) -> Option<ReleaseAssetView>
    decreases assets.len(),
{
    if assets.len() == 0 {
        None
    } else if eligible(assets[0]) {
        Some(assets[0])
    } else {
        first_eligible(assets.drop_first())
    }
}

/// The asset to download: the first preferred one, or else the first eligible
/// one.
pub open spec fn chosen(assets: Seq<ReleaseAssetView>) -> Option<ReleaseAssetView> {
    match first_preferred(assets) {
        Some(a) => Some(a),
        None => first_eligible(assets),
    }
}

/// The url that the `url` crate makes of a text, where the text is a url.
pub uninterp spec fn url_text(text: Seq<char>) -> Option<Seq<char>>;

/// `url::Url::parse`, and `as_str` on the url it gives.
#[verifier::external_body]
fn url_parse(s: &str) -> (r: Option<String>)
    ensures
        match r {
            Some(u) => url_text(s@) == Some(u@),
            None => url_text(s@) is None,
        },
{
    url::Url::parse(s).ok().map(|u| u.as_str().to_owned())
}

/// What a release offers for download.
pub open spec fn offered(item: ReleaseItemView) -> Result<Seq<char>, Error> {
    match chosen(item.assets) {
        None => Err(Error::NoDownloadAsset),
        Some(a) => match url_text(a.browser_download_url) {
            Some(u) => Ok(u),
            None => Err(Error::Serialization),
        },
    }
}

/// The version that a release carries.
pub open spec fn tagged(item: ReleaseItemView) -> Result<VersionView, Error> {
    match parsed_version(item.tag_name) {
        Some(v) => Ok(v),
        None => Err(Error::VersionParse),
    }
}

/// The member `key` of `v`, where it is a string.
fn text_field(v: &serde_json::Value, key: &str) -> (r: Option<String>)
    ensures
        match r {
            Some(s) => text_member(json_model(*v), key@) == Some(s@),
            None => text_member(json_model(*v), key@) is None,
        },
{
    match lookup(v, key) {
        Some(x) => match as_text(x) {
            Some(s) => Some(s.to_owned()),
            None => None,
        },
        None => None,
    }
}

impl ReleaseAsset {
    /// The asset that a JSON value describes.
    pub fn from_json(v: &serde_json::Value) -> (r: Option<ReleaseAsset>)
        ensures
            match r {
                Some(a) => asset_of(json_model(*v)) == Some(a@),
                None => asset_of(json_model(*v)) is None,
            },
    {
        let url = match text_field(v, "url") {
            Some(s) => s,
            None => {
                return None;
            },
        };
        let name = match text_field(v, "name") {
            Some(s) => s,
            None => {
                return None;
            },
        };
        let state = match text_field(v, "state") {
            Some(s) => s,
            None => {
                return None;
            },
        };
        let browser_download_url = match text_field(v, "browser_download_url") {
            Some(s) => s,
            None => {
                return None;
            },
        };
        Some(ReleaseAsset { url, name, state, browser_download_url })
    }

    /// Whether the asset can be installed.
    pub fn is_eligible(&self) -> (r: bool)
        ensures
            r == eligible(self@),
    {
        str_eq(self.state.as_str(), "uploaded") && (ends_with(self.name.as_str(), "alfredworkflow") || ends_with(
            self.name.as_str(),
            "alfred3workflow",
        ))
    }

    /// Whether the asset can be installed and has the more specific ending.
    pub fn is_preferred(&self) -> (r: bool)
        ensures
            r == preferred(self@),
    {
        self.is_eligible() && ends_with(self.name.as_str(), "alfred3workflow")
    }
}

impl ReleaseItem {
    /// The release that a JSON value describes.
    pub fn from_json(v: &serde_json::Value) -> (r: Option<ReleaseItem>)
        ensures
            match r {
                Some(item) => release_of(json_model(*v)) == Some(item@),
                None => release_of(json_model(*v)) is None,
            },
    {
        let tag_name = match text_field(v, "tag_name") {
            Some(s) => s,
            None => {
                return None;
            },
        };
        let listed = match lookup(v, "assets") {
            Some(x) => x,
            None => {
                return None;
            },
        };
        let items = match as_items(listed) {
            Some(items) => items,
            None => {
                return None;
            },
        };
        let ghost models = json_models(items@);
        let mut assets: Vec<ReleaseAsset> = Vec::new();
        let mut i: usize = 0;
        while i < items.len()
            invariant
                i <= items.len(),
                models == json_models(items@),
                text_member(json_model(*v), "tag_name"@) == Some(tag_name@),
                member_of(json_model(*v), "assets"@) == Some(JsonModel::Array(models)),
                assets@.len() == i,
                forall|j: int| 0 <= j < i ==> asset_of(models[j]) == Some(#[trigger] assets@[j]@),
            decreases items.len() - i,
        {
            match ReleaseAsset::from_json(&items[i]) {
                Some(a) => {
                    assets.push(a);
                },
                None => {
                    assert(asset_of(models[i as int]) is None);
                    return None;
                },
            }
            i = i + 1;
        }
        let item = ReleaseItem { tag_name, assets };
        proof {
            assert forall|j: int| 0 <= j < models.len() implies (#[trigger] asset_of(models[j])) is Some by {
                assert(asset_of(models[j]) == Some(assets@[j]@));
            }
            assert(item@.assets =~= assets_of(models)->0);
        }
        Some(item)
    }

    /// The asset to download, if the release has one.
    pub fn choose_asset(&self) -> (r: Option<&ReleaseAsset>)
        ensures
            match r {
                Some(a) => chosen(self@.assets) == Some(a@),
                None => chosen(self@.assets) is None,
            },
    {
        let ghost all = self@.assets;
        let mut fallback: Option<&ReleaseAsset> = None;
        let mut i: usize = 0;
        assert(all.skip(0) =~= all);
        while i < self.assets.len()
            invariant
                i <= self.assets.len(),
                all == asset_views(self.assets@),
                first_preferred(all) == first_preferred(all.skip(i as int)),
                match fallback {
                    Some(a) => first_eligible(all) == Some(a@),
                    None => first_eligible(all) == first_eligible(all.skip(i as int)),
                },
            decreases self.assets.len() - i,
        {
            let a = &self.assets[i];
            proof {
                assert(all.skip(i as int)[0] == a@);
                assert(all.skip(i as int).drop_first() =~= all.skip(i + 1));
            }
            if a.is_preferred() {
                return Some(a);
            }
            if fallback.is_none() && a.is_eligible() {
                fallback = Some(a);
            }
            i = i + 1;
        }
        fallback
    }
}

/// Checks and downloads release files from `github.com`.
#[derive(Clone, Debug, PartialEq, Eq)]
pub struct GithubReleaser {
    repo: String,
    latest_release: Option<ReleaseItem>,
}

/// What a [`GithubReleaser`] is in contracts.
pub struct GithubReleaserView {
    pub repo: Seq<char>,
    pub latest_release: Option<ReleaseItemView>,
}

impl View for GithubReleaser {
    type V = GithubReleaserView;

    closed spec fn view(&self) -> GithubReleaserView {
        GithubReleaserView {
            repo: self.repo@,
            latest_release: match self.latest_release {
                Some(item) => Some(item@),
                None => None,
            },
        }
    }
}

impl GithubReleaserView {
    /// What the releaser offers for download.
    pub open spec fn download(self) -> Result<Seq<char>, Error> {
        match self.latest_release {
            None => Err(Error::NoDataYet),
            Some(item) => offered(item),
        }
    }

    /// The latest version that the releaser knows.
    pub open spec fn version(self) -> Result<VersionView, Error> {
        match self.latest_release {
            None => Err(Error::NoDataYet),
            Some(item) => tagged(item),
        }
    }
}

impl GithubReleaser {
    /// The address from which the description of the latest release is
    /// requested.
    pub fn latest_release_url(&self) -> (r: String)
        ensures
            r@ == GITHUB_API_URL@ + self@.repo + GITHUB_LATEST_RELEASE_ENDPOINT@,
    {
        let head = concat(GITHUB_API_URL, self.repo.as_str());
        concat(head.as_str(), GITHUB_LATEST_RELEASE_ENDPOINT)
    }

    /// Whether the releaser still needs the description of the latest
    /// release.
    pub fn needs_data(&self) -> (r: bool)
        ensures
            r == (self@.latest_release is None),
    {
        self.latest_release.is_none()
    }

    /// The release that the releaser knows.
    pub fn latest_release(&self) -> (r: Option<&ReleaseItem>)
        ensures
            match r {
                Some(item) => self@.latest_release == Some(item@),
                None => self@.latest_release is None,
            },
    {
        self.latest_release.as_ref()
    }

    /// Takes the answer of the server to the request for the latest release:
    /// the status of the answer and its body.
    ///
    /// The answer must have a status of success and describe a release in
    /// JSON.  The release is kept, its tag without a leading `v`.  Where the
    /// answer is refused, the releaser stays as it was.
    pub fn latest_release_data(&mut self, status: u16, body: &str) -> (r: Result<(), Error>)
        ensures
            match received(status, body@) {
                Ok(item) => r == Ok::<(), Error>(()) && final(self)@ == (GithubReleaserView {
                    latest_release: Some(item),
                    ..old(self)@
                }),
                Err(e) => r == Err::<(), Error>(e) && final(self)@ == old(self)@,
            },
    {
        if status < 200 || status >= 300 {
            return Err(Error::Network);
        }
        let value = match parse(body) {
            Some(v) => v,
            None => {
                return Err(Error::Serialization);
            },
        };
        let item = match ReleaseItem::from_json(&value) {
            Some(item) => item,
            None => {
                return Err(Error::Serialization);
            },
        };
        let tag = strip_v(item.tag_name.as_str());
        self.latest_release = Some(ReleaseItem { tag_name: tag, assets: item.assets });
        Ok(())
    }
}

/// The tag without the `v` that may stand before the version.
pub fn strip_v(tag: &str) -> (r: String)
    ensures
        r@ == without_v(tag@),
{
    let chars = chars_of(tag);
    if chars.len() > 0 && chars[0] == 'v' {
        let mut rest: Vec<char> = Vec::new();
        let mut i: usize = 1;
        while i < chars.len()
            invariant
                1 <= i <= chars.len(),
                rest@ == chars@.subrange(1, i as int),
            decreases chars.len() - i,
        {
            rest.push(chars[i]);
            assert(chars@.subrange(1, i + 1) =~= chars@.subrange(1, i as int).push(chars@[i as int]));
            i = i + 1;
        }
        assert(chars@.subrange(1, chars@.len() as int) =~= chars@.drop_first());
        string_of(&rest)
    } else {
        tag.to_owned()
    }
}

impl Releaser for GithubReleaser {
    open spec fn download(&self) -> Result<Seq<char>, Error> {
        self@.download()
    }

    fn new(repo_name: &str) -> (r: GithubReleaser)
        ensures
            r@ == (GithubReleaserView { repo: repo_name@, latest_release: None }),
    {
        GithubReleaser { repo: repo_name.to_owned(), latest_release: None }
    }

    // This implementation of Releaser will favor assets that end with `alfred3workflow`
    // over `alfredworkflow`
    fn downloadable_url(&self) -> (r: Result<String, Error>) {
        match &self.latest_release {
            None => Err(Error::NoDataYet),
            Some(item) => match item.choose_asset() {
                None => Err(Error::NoDownloadAsset),
                Some(a) => match url_parse(a.browser_download_url.as_str()) {
                    Some(u) => Ok(u),
                    None => Err(Error::Serialization),
                },
            },
        }
    }

    fn latest_version(&mut self) -> (r: Result<Version, Error>)
        ensures
            final(self)@ == old(self)@,
            match r {
                Ok(v) => old(self)@.version() == Ok::<VersionView, Error>(v@),
                Err(e) => old(self)@.version() == Err::<VersionView, Error>(e),
            },
    {
        match &self.latest_release {
            None => Err(Error::NoDataYet),
            Some(item) => match Version::parse(item.tag_name.as_str()) {
                Some(v) => Ok(v),
                None => Err(Error::VersionParse),
            },
        }
    }
}

/// No asset is chosen exactly if no asset is eligible.
pub proof fn lemma_chosen_none(assets: Seq<ReleaseAssetView>)
    ensures
        chosen(assets) is None <==> forall|i: int| 0 <= i < assets.len() ==> !eligible(#[trigger] assets[i]),
        first_eligible(assets) is None <==> forall|i: int| 0 <= i < assets.len() ==> !eligible(#[trigger] assets[i]),
        first_preferred(assets) is Some ==> preferred(first_preferred(assets)->0) && exists|i: int|
            0 <= i < assets.len() && assets[i] == first_preferred(assets)->0,
        first_eligible(assets) is Some ==> eligible(first_eligible(assets)->0) && exists|i: int|
            0 <= i < assets.len() && assets[i] == first_eligible(assets)->0,
    decreases assets.len(),
{
    if assets.len() > 0 {
        let rest = assets.drop_first();
        lemma_chosen_none(rest);
        assert forall|i: int| 0 <= i < rest.len() implies rest[i] == assets[i + 1] by {}
        if first_eligible(assets) is None {
            assert forall|i: int| 0 <= i < assets.len() implies !eligible(#[trigger] assets[i]) by {
                if i > 0 {
                    assert(rest[i - 1] == assets[i]);
                }
            }
        }
        if forall|i: int| 0 <= i < assets.len() ==> !eligible(#[trigger] assets[i]) {
            assert(!eligible(assets[0]));
            assert forall|i: int| 0 <= i < rest.len() implies !eligible(#[trigger] rest[i]) by {
                assert(rest[i] == assets[i + 1]);
            }
        }
        if first_preferred(assets) is Some {
            if preferred(assets[0]) {
                assert(assets[0] == first_preferred(assets)->0);
            } else {
                let i = choose|i: int| 0 <= i < rest.len() && rest[i] == first_preferred(rest)->0;
                assert(assets[i + 1] == first_preferred(assets)->0);
            }
        }
        if first_eligible(assets) is Some {
            if eligible(assets[0]) {
                assert(assets[0] == first_eligible(assets)->0);
            } else {
                let i = choose|i: int| 0 <= i < rest.len() && rest[i] == first_eligible(rest)->0;
                assert(assets[i + 1] == first_eligible(assets)->0);
            }
        }
    }
}

/// A release without an eligible asset offers nothing: asking it for a
/// download fails with `Error::NoDownloadAsset`.
pub proof fn lemma_nothing_to_download(item: ReleaseItemView)
    requires
        forall|i: int| 0 <= i < item.assets.len() ==> !eligible(#[trigger] item.assets[i]),
    ensures
        offered(item) == Err::<Seq<char>, Error>(Error::NoDownloadAsset),
{
    lemma_chosen_none(item.assets);
}

/// A release with exactly one eligible asset offers that asset: asking it for
/// a download gives the url of the asset, where that is a url, and else fails
/// with `Error::Serialization`.
pub proof fn lemma_single_asset_is_chosen(item: ReleaseItemView, k: int)
    requires
        0 <= k < item.assets.len(),
        eligible(item.assets[k]),
        forall|i: int| 0 <= i < item.assets.len() && i != k ==> !eligible(#[trigger] item.assets[i]),
    ensures
        chosen(item.assets) == Some(item.assets[k]),
        offered(item) == match url_text(item.assets[k].browser_download_url) {
            Some(u) => Ok::<Seq<char>, Error>(u),
            None => Err::<Seq<char>, Error>(Error::Serialization),
        },
{
    let assets = item.assets;
    lemma_chosen_none(assets);
    if first_preferred(assets) is Some {
        let i = choose|i: int| 0 <= i < assets.len() && assets[i] == first_preferred(assets)->0;
        assert(eligible(assets[i]));
        assert(i == k);
    } else {
        assert(first_eligible(assets) is Some) by {
            if first_eligible(assets) is None {
                assert(!eligible(assets[k]));
            }
        }
        let i = choose|i: int| 0 <= i < assets.len() && assets[i] == first_eligible(assets)->0;
        assert(eligible(assets[i]));
        assert(i == k);
    }
}

} // verus!

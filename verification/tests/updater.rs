use alfred::timestamp::Timestamp;
use alfred::updater::imp::UpdaterState;
use alfred::updater::releaser::{strip_v, ReleaseItem};
use alfred::updater::{Cached, Error, FileWrite, GithubReleaser, HostConfig, Releaser, Remote, UPDATE_INTERVAL};
use alfred::version::Version;
use alfred::Updater;
use std::collections::HashMap;

const VERSION_TEST: &str = "0.10.5";
const MOCK_RELEASER_REPO_NAME: &str = "MockZnVja29mZg==/fd850fc2e63511e79f720023dfdf24ec";
const ASSET_URL: &str =
    "http://127.0.0.1:1234/releases/download/v0.11.1/alfred-pinboard-rust-v0.11.1.alfredworkflow";

fn latest_json() -> String {
    let asset = |name: &str, state: &str| {
        format!(
            "{{\"url\": \"http://127.0.0.1:1234/releases/assets/1\", \"id\": 1, \"name\": \"{}\", \"label\": null, \
             \"state\": \"{}\", \"size\": 1542461, \"download_count\": 3.5, \
             \"browser_download_url\": \"http://127.0.0.1:1234/releases/download/v0.11.1/{}\"}}",
            name, state, name
        )
    };
    format!(
        "{{\"url\": \"http://127.0.0.1:1234/releases/1\", \"tag_name\": \"v0.11.1\", \"draft\": false, \
         \"assets\": [{}, {}]}}",
        asset("alfred-pinboard-rust-v0.11.1.alfredworkflow", "uploaded"),
        asset("notes.txt", "uploaded")
    )
}

struct MockReleaser {
    inner: GithubReleaser,
    status: u16,
    calls: usize,
}

impl Remote for MockReleaser {
    fn new(name: &str) -> Self {
        MockReleaser { inner: GithubReleaser::new(name), status: 200, calls: 0 }
    }

    fn downloadable_url(&self) -> Result<String, Error> {
        self.inner.downloadable_url()
    }

    fn latest_version(&mut self) -> Result<Version, Error> {
        self.calls += 1;
        self.inner = GithubReleaser::new(MOCK_RELEASER_REPO_NAME);
        self.inner.latest_release_data(self.status, &latest_json())?;
        self.inner.latest_version()
    }
}

fn workflow_config() -> HostConfig {
    HostConfig {
        workflow_uid: Some("workflow.B0AC54EC-601C".to_string()),
        workflow_name: Some("YouForgotTo/フ:NameYourOwnWork}flowッ".to_string()),
        workflow_version: Some(VERSION_TEST.to_string()),
        workflow_data: Some("/tmp/alfred_rs_test".to_string()),
        workflow_cache: Some("/tmp/alfred_rs_test".to_string()),
    }
}

fn at(secs: i64) -> Timestamp {
    Timestamp { secs, nanos: 0 }
}

fn make(writes: Vec<FileWrite>, disk: &mut HashMap<String, String>) {
    for w in writes {
        disk.insert(w.path.file_name, w.content);
    }
}

fn cache_of(disk: &HashMap<String, String>) -> Option<&str> {
    disk.get("last_check_status.json").map(|s| s.as_str())
}

#[test]
fn it_tests_settings_filename() {
    let updater_state_fn = Updater::<GithubReleaser>::build_data_fn(&workflow_config()).unwrap();
    assert_eq!(
        "workflow.B0AC54EC-601C-YouForgotTo___NameYourOwnWork_flow_-updater.json",
        updater_state_fn.file_name
    );
    assert_eq!("/tmp/alfred_rs_test", updater_state_fn.dir);
}

#[test]
fn it_loads_last_updater_state() {
    let mut disk = HashMap::new();
    let config = workflow_config();
    let state_file = Updater::<GithubReleaser>::build_data_fn(&config).unwrap().file_name;

    let mut updater: Updater<GithubReleaser> =
        Updater::new("spamwax/alfred-pinboard-rs", config.clone(), None).expect("cannot build Updater");
    assert_eq!(VERSION_TEST, updater.current_version().to_text());
    assert!(!updater.update_ready(None).expect("couldn't check for update"));
    updater.set_interval(-1).unwrap();
    make(updater.take_writes(), &mut disk);

    assert!(disk.contains_key(&state_file));
    let saved = disk.get(&state_file).map(|s| s.as_str());
    let updater: Updater<GithubReleaser> =
        Updater::new("spamwax/alfred-pinboard-rs", config, saved).expect("cannot build Updater");
    assert_eq!(-1, updater.update_interval());
    assert!(updater.last_check().is_some());
}

#[test]
fn it_handles_server_error() {
    let mut disk = HashMap::new();
    let mut updater: Updater<Cached<MockReleaser>> =
        Updater::new(MOCK_RELEASER_REPO_NAME, workflow_config(), None).expect("cannot build Updater");
    assert_eq!(false, updater.update_ready_at(at(1000), None).expect("couldn't check for update"));
    updater.set_interval(0).unwrap();
    make(updater.take_writes(), &mut disk);

    let failing = Box::new(Cached::wrap(MockReleaser {
        inner: GithubReleaser::new(MOCK_RELEASER_REPO_NAME),
        status: 400,
        calls: 0,
    }));
    let state_file = Updater::<Cached<MockReleaser>>::build_data_fn(&workflow_config()).unwrap().file_name;
    let saved = disk.get(&state_file).map(|s| s.as_str());
    let mut updater = Updater::load_or_new(failing, workflow_config(), saved).unwrap();
    assert_eq!(Err(Error::Network), updater.update_ready_at(at(2000), cache_of(&disk)));
    assert_eq!(1, updater.releaser().remote().calls);
    assert_eq!(Some(at(2000)), updater.last_check());
    let writes = updater.take_writes();
    assert_eq!(1, writes.len());
    assert_eq!(state_file, writes[0].path.file_name);
}

#[test]
fn it_get_latest_info_from_releaser() {
    let mut updater: Updater<Cached<MockReleaser>> =
        Updater::new(MOCK_RELEASER_REPO_NAME, workflow_config(), None).expect("cannot build Updater");

    assert_eq!(false, updater.update_ready_at(at(1000), None).expect("couldn't check for update"));

    // Next check will be immediate
    updater.set_interval(0).unwrap();

    assert!(updater.update_ready_at(at(1001), None).expect("couldn't check for update"));
}

#[test]
fn it_does_one_network_call_per_interval() {
    let mut disk = HashMap::new();
    let mut updater: Updater<Cached<MockReleaser>> =
        Updater::new("spamwax/alfred-pinboard-rs", workflow_config(), None).expect("cannot build Updater");

    // Calling update_ready on first run of workflow will return false since we assume workflow
    // was just downloaded.
    assert!(!updater.update_ready_at(at(1000), cache_of(&disk)).expect("couldn't check for update"));
    make(updater.take_writes(), &mut disk);
    assert_eq!(0, updater.releaser().remote().calls);

    // Next check will be immediate
    updater.set_interval(0).unwrap();

    // Next update_ready will make a network call
    assert!(updater.update_ready_at(at(1001), cache_of(&disk)).expect("couldn't check for update"));
    make(updater.take_writes(), &mut disk);
    assert_eq!(1, updater.releaser().remote().calls);
    assert_eq!(Some("\"0.11.1\""), cache_of(&disk));

    // Increase interval
    updater.set_interval(86400).unwrap();
    assert!(!updater.due_at(at(1002)));
    assert!(updater.due_to_check());
    updater.set_last_check(Timestamp::now());
    assert!(!updater.due_to_check());
    updater.set_last_check(at(1001));

    // no call is made within the interval
    let t = updater.update_ready_at(at(1002), cache_of(&disk));
    assert!(t.is_ok());
    // Make sure we stil report update is ready
    assert_eq!(true, t.unwrap());
    assert_eq!(1, updater.releaser().remote().calls);

    // a record that cannot be read makes the updater ask again
    let t = updater.update_ready_at(at(1003), Some("{ not json"));
    assert_eq!(Ok(true), t);
    assert_eq!(2, updater.releaser().remote().calls);
}

#[test]
fn it_tests_download() {
    let mut updater: Updater<Cached<MockReleaser>> =
        Updater::new(MOCK_RELEASER_REPO_NAME, workflow_config(), None).expect("cannot build Updater");
    assert_eq!(false, updater.update_ready_at(at(1000), None).expect("couldn't check for update"));

    // Next check will be immediate
    updater.set_interval(0).unwrap();
    // Force current version to be really old.
    updater.set_version("0.0.1").unwrap();
    assert!(updater.update_ready_at(at(1001), None).expect("couldn't check for update"));
    let download = updater.download_latest();
    assert!(download.is_ok());
    let download = download.unwrap();
    assert_eq!(ASSET_URL, download.url);
    assert_eq!("latest_release_workflow.B0AC54EC-601C.alfredworkflow", download.target.file_name);
    assert_eq!("/tmp/alfred_rs_test", download.target.dir);
}

#[test]
fn it_tests_releaser() {
    let mut releaser = GithubReleaser::new(MOCK_RELEASER_REPO_NAME);

    // Calling downloadable_url before checking for latest_version will return error
    assert!(releaser.downloadable_url().is_err());
    assert_eq!(Err(Error::NoDataYet), releaser.downloadable_url());
    assert_eq!(Err(Error::NoDataYet), releaser.latest_version());
    assert!(releaser.needs_data());

    releaser.latest_release_data(200, &latest_json()).unwrap();
    assert!(Version::new(0, 11, 0).lt(&releaser.latest_version().expect("couldn't do latest_version")));

    assert_eq!(ASSET_URL, releaser.downloadable_url().unwrap().as_str());
}

#[test]
fn releaser_asks_the_address_of_the_repository() {
    let releaser = GithubReleaser::new("spamwax/alfred-pinboard-rs");
    assert_eq!(
        "https://api.github.com/repos/spamwax/alfred-pinboard-rs/releases/latest",
        releaser.latest_release_url()
    );
}

#[test]
fn releaser_refuses_bad_answers() {
    let mut releaser = GithubReleaser::new("a/b");
    assert_eq!(Err(Error::Network), releaser.latest_release_data(404, &latest_json()));
    assert_eq!(Err(Error::Network), releaser.latest_release_data(199, &latest_json()));
    assert_eq!(Err(Error::Network), releaser.latest_release_data(300, &latest_json()));
    assert_eq!(Err(Error::Serialization), releaser.latest_release_data(200, "not json"));
    assert_eq!(Err(Error::Serialization), releaser.latest_release_data(200, "{\"tag_name\": \"v1.0.0\"}"));
    assert_eq!(
        Err(Error::Serialization),
        releaser.latest_release_data(200, "{\"tag_name\": 3, \"assets\": []}")
    );
    assert_eq!(
        Err(Error::Serialization),
        releaser.latest_release_data(200, "{\"tag_name\": \"v1.0.0\", \"assets\": [{\"name\": \"x\"}]}")
    );
    assert!(releaser.needs_data());
    assert_eq!(Ok(()), releaser.latest_release_data(299, "{\"tag_name\": \"nonsense\", \"assets\": []}"));
    assert_eq!(Err(Error::VersionParse), releaser.latest_version());
    assert_eq!(Err(Error::NoDownloadAsset), releaser.downloadable_url());
}

fn release_with(assets: &[(&str, &str, &str)]) -> GithubReleaser {
    let listed: Vec<String> = assets
        .iter()
        .map(|(name, state, url)| {
            format!(
                "{{\"url\": \"u\", \"name\": \"{}\", \"state\": \"{}\", \"browser_download_url\": \"{}\"}}",
                name, state, url
            )
        })
        .collect();
    let body = format!("{{\"tag_name\": \"v2.0.0\", \"assets\": [{}]}}", listed.join(","));
    let mut releaser = GithubReleaser::new("a/b");
    releaser.latest_release_data(200, &body).unwrap();
    releaser
}

#[test]
fn releaser_picks_the_asset() {
    let none = release_with(&[("a.zip", "uploaded", "http://h/a.zip"), ("b.alfredworkflow", "new", "http://h/b")]);
    assert_eq!(Err(Error::NoDownloadAsset), none.downloadable_url());

    let one = release_with(&[("a.zip", "uploaded", "http://h/a.zip"), ("b.alfredworkflow", "uploaded", "http://h/b")]);
    assert_eq!(Ok("http://h/b".to_string()), one.downloadable_url());

    let both = release_with(&[
        ("w.alfredworkflow", "uploaded", "http://h/old"),
        ("w.alfred3workflow", "uploaded", "http://h/new"),
        ("x.alfred3workflow", "uploaded", "http://h/other"),
    ]);
    assert_eq!(Ok("http://h/new".to_string()), both.downloadable_url());

    let first = release_with(&[
        ("v.alfredworkflow", "uploaded", "http://h/first"),
        ("w.alfredworkflow", "uploaded", "http://h/second"),
    ]);
    assert_eq!(Ok("http://h/first".to_string()), first.downloadable_url());

    let bad = release_with(&[("w.alfredworkflow", "uploaded", "not a url")]);
    assert_eq!(Err(Error::Serialization), bad.downloadable_url());

    let normal = release_with(&[("w.alfredworkflow", "uploaded", "HTTP://EXAMPLE.com")]);
    assert_eq!(Ok("http://example.com/".to_string()), normal.downloadable_url());
}

#[test]
fn remote_tag_loses_its_v() {
    assert_eq!("2.0.0", strip_v("v2.0.0"));
    assert_eq!("2.0.0", strip_v("2.0.0"));
    assert_eq!("", strip_v("v"));
    assert_eq!("", strip_v(""));
    assert_eq!("v1", strip_v("vv1"));
    let mut releaser = release_with(&[]);
    assert_eq!("2.0.0", releaser.latest_release().unwrap().tag_name);
    assert_eq!(Ok(Version::new(2, 0, 0)), releaser.latest_version());
}

#[test]
fn first_run_saves_the_state() {
    let config = HostConfig {
        workflow_uid: Some("abc-123".to_string()),
        workflow_name: Some("My Tool".to_string()),
        workflow_version: Some("1.2.0".to_string()),
        workflow_data: Some("/data".to_string()),
        workflow_cache: Some("/cache".to_string()),
    };
    let mut disk = HashMap::new();
    let mut updater = Updater::gh("user/repo", config, None).unwrap();
    assert_eq!(Ok(false), updater.update_ready(None));
    make(updater.take_writes(), &mut disk);
    let saved = disk.get("abc-123-My_Tool-updater.json").expect("the state was not saved");
    let document: serde_json::Value = serde_json::from_str(saved).unwrap();
    assert_eq!(Some("1.2.0"), document["current_version"].as_str());
    assert!(document["last_check"].is_string());
    assert_eq!(Some(86400), document["update_interval"].as_i64());
    assert!(updater.last_check().is_some());
}

#[test]
fn first_run_notes_the_time() {
    let mut updater = Updater::gh("user/repo", workflow_config(), None).unwrap();
    assert_eq!(None, updater.last_check());
    assert!(updater.due_to_check());
    let pending = updater.take_writes();
    assert_eq!(1, pending.len());
    assert_eq!(
        "{\"current_version\":\"0.10.5\",\"last_check\":null,\"update_interval\":86400}",
        pending[0].content
    );
    assert_eq!(Ok(false), updater.update_ready_at(Timestamp { secs: 1_520_000_000, nanos: 5 }, None));
    assert_eq!(Some(Timestamp { secs: 1_520_000_000, nanos: 5 }), updater.last_check());
    let pending = updater.take_writes();
    assert_eq!(1, pending.len());
    assert_eq!(
        "{\"current_version\":\"0.10.5\",\"last_check\":\"2018-03-02T14:13:20.000000005Z\",\"update_interval\":86400}",
        pending[0].content
    );
    assert!(updater.take_writes().is_empty());
}

#[test]
fn check_is_due_after_the_interval() {
    let mut updater = Updater::gh("user/repo", workflow_config(), None).unwrap();
    let now = 1_600_000_000;
    assert_eq!(UPDATE_INTERVAL, updater.update_interval());
    assert_eq!(86400, UPDATE_INTERVAL);
    updater.set_last_check(at(now - 90000));
    assert!(updater.due_at(at(now)));
    updater.set_last_check(at(now - 86400));
    assert!(!updater.due_at(at(now)));
    assert!(updater.due_at(Timestamp { secs: now, nanos: 1 }));
    updater.set_last_check(at(now - 100));
    assert!(!updater.due_at(at(now)));
    updater.set_update_interval(0);
    assert!(updater.due_at(at(now)));
    assert!(!updater.due_at(at(now - 100)));
    updater.set_update_interval(-1);
    assert!(updater.due_at(at(now - 100)));
    updater.set_update_interval(i64::MAX);
    assert!(!updater.due_at(Timestamp { secs: i64::MAX, nanos: 999_999_999 }));
}

#[test]
fn answer_compares_the_versions() {
    let mut updater = Updater::gh("user/repo", workflow_config(), None).unwrap();
    assert_eq!(Ok(true), updater.conclude_check(at(10), Ok(Version::new(0, 10, 6))));
    assert_eq!(Ok(false), updater.conclude_check(at(20), Ok(Version::new(0, 10, 5))));
    assert_eq!(Ok(false), updater.conclude_check(at(30), Ok(Version::new(0, 9, 9))));
    assert_eq!(Err(Error::Network), updater.conclude_check(at(40), Err(Error::Network)));
    assert_eq!(Some(at(40)), updater.last_check());
    assert_eq!(Ok(true), updater.conclude_check(at(5), Ok(Version::new(1, 0, 0))));
    assert_eq!(Some(at(40)), updater.last_check());
    let files: Vec<(String, String)> =
        updater.take_writes().into_iter().skip(1).map(|w| (w.path.file_name, w.content)).collect();
    let state_file = "workflow.B0AC54EC-601C-YouForgotTo___NameYourOwnWork_flow_-updater.json";
    assert_eq!(9, files.len());
    assert_eq!(("last_check_status.json".to_string(), "\"0.10.6\"".to_string()), files[0]);
    assert_eq!(state_file, files[1].0);
    assert_eq!(("last_check_status.json".to_string(), "null".to_string()), files[2]);
    assert_eq!(state_file, files[6].0);
    assert_eq!(("last_check_status.json".to_string(), "\"1.0.0\"".to_string()), files[7]);
}

#[test]
fn record_of_the_last_check_is_read() {
    assert_eq!(Some(None), Updater::<GithubReleaser>::read_record(Some("null")));
    assert_eq!(
        Some(Some(Version::new(1, 2, 3))),
        Updater::<GithubReleaser>::read_record(Some("\"1.2.3\""))
    );
    assert_eq!(None, Updater::<GithubReleaser>::read_record(Some("\"1.2\"")));
    assert_eq!(None, Updater::<GithubReleaser>::read_record(Some("17")));
    assert_eq!(None, Updater::<GithubReleaser>::read_record(Some("")));
    assert_eq!(None, Updater::<GithubReleaser>::read_record(None));
    assert_eq!("null", Updater::<GithubReleaser>::write_record(&None));
    assert_eq!("\"1.2.3\"", Updater::<GithubReleaser>::write_record(&Some(Version::new(1, 2, 3))));
}

#[test]
fn missing_configuration_fails() {
    let mut config = workflow_config();
    config.workflow_data = None;
    assert_eq!(Err(Error::ConfigMissing), Updater::<GithubReleaser>::build_data_fn(&config));
    assert!(matches!(Updater::gh("user/repo", config.clone(), None), Err(Error::ConfigMissing)));
    assert_eq!(Err(Error::ConfigMissing), Updater::<GithubReleaser>::cache_fn(&config));

    let mut config = workflow_config();
    config.workflow_uid = None;
    assert_eq!(Err(Error::ConfigMissing), Updater::<GithubReleaser>::build_data_fn(&config));
    assert!(matches!(Updater::gh("user/repo", config.clone(), None), Err(Error::ConfigMissing)));
    assert_eq!(Err(Error::ConfigMissing), Updater::<GithubReleaser>::plan_download(Ok("http://h/".to_string()), &config));

    let mut config = workflow_config();
    config.workflow_cache = None;
    assert_eq!(Err(Error::ConfigMissing), Updater::<GithubReleaser>::plan_download(Ok("http://h/".to_string()), &config));
    assert_eq!(
        Err(Error::NoDownloadAsset),
        Updater::<GithubReleaser>::plan_download(Err(Error::NoDownloadAsset), &config)
    );

    let mut config = workflow_config();
    config.workflow_version = None;
    let updater = Updater::gh("user/repo", config.clone(), None).unwrap();
    assert_eq!(&Version::new(0, 0, 0), updater.current_version());
    config.workflow_version = Some("one".to_string());
    assert!(matches!(Updater::gh("user/repo", config.clone(), None), Err(Error::VersionParse)));

    let mut config = workflow_config();
    config.workflow_name = None;
    assert_eq!(
        "workflow.B0AC54EC-601C-YouForgotTo___NameYourOwnWork_flow_-updater.json",
        Updater::<GithubReleaser>::build_data_fn(&config).unwrap().file_name
    );
}

#[test]
fn version_is_set_and_saved() {
    let mut updater = Updater::gh("user/repo", workflow_config(), None).unwrap();
    let _ = updater.take_writes();
    assert_eq!(Err(Error::VersionParse), updater.set_version("1.2"));
    assert_eq!("0.10.5", updater.current_version().to_text());
    assert!(updater.take_writes().is_empty());
    assert_eq!(Ok(()), updater.set_version("1.2.3-beta.1"));
    assert_eq!("1.2.3-beta.1", updater.current_version().to_text());
    let writes = updater.take_writes();
    assert_eq!(1, writes.len());
    assert_eq!(
        "{\"current_version\":\"1.2.3-beta.1\",\"last_check\":null,\"update_interval\":86400}",
        writes[0].content
    );
}

#[test]
fn saved_state_loads_again() {
    let config = workflow_config();
    let state = UpdaterState {
        current_version: Version::parse("3.4.5-rc.1+build.7").unwrap(),
        last_check: Some(Timestamp { secs: 1_700_000_000, nanos: 123_456_789 }),
        update_interval: -17,
    };
    let text = state.to_text().unwrap();
    assert_eq!(Ok(state.clone()), UpdaterState::from_text(&text));
    assert_eq!(Ok(state.clone()), Updater::<GithubReleaser>::load(&config, Some(text.as_str())));

    let fresh = UpdaterState::fresh(Version::new(1, 0, 0));
    assert_eq!(Ok(fresh.clone()), UpdaterState::from_text(&fresh.to_text().unwrap()));

    let mut updater: Updater<GithubReleaser> = Updater::new("a/b", config.clone(), Some(text.as_str())).unwrap();
    assert!(updater.take_writes().is_empty());
    assert_eq!(Some(Timestamp { secs: 1_700_000_000, nanos: 123_456_789 }), updater.last_check());
    updater.save().unwrap();
    let writes = updater.take_writes();
    assert_eq!(text, writes[0].content);
}

#[test]
fn state_is_read_from_its_document() {
    assert_eq!(Err(Error::Io), Updater::<GithubReleaser>::load(&workflow_config(), None));
    assert_eq!(Err(Error::Serialization), UpdaterState::from_text("nonsense"));
    assert_eq!(Err(Error::Serialization), UpdaterState::from_text("[]"));
    assert_eq!(Err(Error::Serialization), UpdaterState::from_text("{\"update_interval\": 5}"));
    assert_eq!(
        Err(Error::VersionParse),
        UpdaterState::from_text("{\"current_version\": \"x\", \"update_interval\": 5}")
    );
    assert_eq!(
        Err(Error::Serialization),
        UpdaterState::from_text("{\"current_version\": \"1.0.0\", \"last_check\": 5, \"update_interval\": 5}")
    );
    assert_eq!(
        Err(Error::Serialization),
        UpdaterState::from_text("{\"current_version\": \"1.0.0\", \"last_check\": \"soon\", \"update_interval\": 5}")
    );
    assert_eq!(
        Err(Error::Serialization),
        UpdaterState::from_text("{\"current_version\": \"1.0.0\", \"update_interval\": 5.5}")
    );
    assert_eq!(Err(Error::Serialization), UpdaterState::from_text("{\"current_version\": \"1.0.0\"}"));
    let expected = UpdaterState { current_version: Version::new(1, 0, 0), last_check: None, update_interval: 5 };
    assert_eq!(
        Ok(expected.clone()),
        UpdaterState::from_text("{\"current_version\": \"1.0.0\", \"update_interval\": 5, \"more\": true}")
    );
    assert_eq!(
        Ok(expected),
        UpdaterState::from_text("{\"current_version\": \"1.0.0\", \"last_check\": null, \"update_interval\": 5}")
    );
    let checked = UpdaterState::from_text(
        "{\"current_version\": \"1.0.0\", \"last_check\": \"2018-03-02T15:13:20+01:00\", \"update_interval\": 5}",
    );
    assert_eq!(Some(at(1_520_000_000)), checked.unwrap().last_check);
    let far = UpdaterState {
        current_version: Version::new(1, 0, 0),
        last_check: Some(at(i64::MAX)),
        update_interval: 5,
    };
    assert_eq!(None, far.to_text());
}

#[test]
fn release_is_read_from_json() {
    let value: serde_json::Value = serde_json::from_str(&latest_json()).unwrap();
    let item = ReleaseItem::from_json(&value).unwrap();
    assert_eq!("v0.11.1", item.tag_name);
    assert_eq!(2, item.assets.len());
    assert_eq!("uploaded", item.assets[0].state);
    assert!(item.assets[0].is_eligible());
    assert!(!item.assets[0].is_preferred());
    assert!(!item.assets[1].is_eligible());
    assert_eq!(Some(&item.assets[0]), item.choose_asset());
    assert_eq!(None, ReleaseItem::from_json(&serde_json::Value::Null));
}

#[test]
fn updater_for_github_takes_the_answer_of_the_server() {
    let mut updater = Updater::gh("spamwax/alfred-pinboard-rs", workflow_config(), None).unwrap();
    assert_eq!(
        "https://api.github.com/repos/spamwax/alfred-pinboard-rs/releases/latest",
        updater.latest_release_url()
    );
    assert_eq!(Ok(false), updater.update_ready_at(at(1000), None));
    updater.set_interval(0).unwrap();
    // without the description of a release the releaser cannot answer
    assert_eq!(Err(Error::NoDataYet), updater.update_ready_at(at(1001), None));
    assert_eq!(Err(Error::Network), updater.latest_release_data(500, &latest_json()));
    assert!(updater.releaser().needs_data());
    assert_eq!(Ok(()), updater.latest_release_data(200, &latest_json()));
    assert!(!updater.releaser().needs_data());
    assert_eq!(Ok(true), updater.update_ready_at(at(1002), None));
    let download = updater.download_latest().unwrap();
    assert_eq!(ASSET_URL, download.url);
}

#[test]
fn cached_releaser_answers_from_what_the_remote_offered() {
    let mut cached: Cached<MockReleaser> = Releaser::new(MOCK_RELEASER_REPO_NAME);
    assert_eq!(Err(Error::NoDataYet), cached.downloadable_url());
    assert_eq!(Ok(Version::new(0, 11, 1)), cached.latest_version());
    assert_eq!(Ok(ASSET_URL.to_string()), cached.downloadable_url());
    assert_eq!(1, cached.remote().calls);
}

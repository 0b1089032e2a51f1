use alfred::timestamp::Timestamp;
use alfred::version::{Identifier, Version};

#[test]
fn version_text_reads_back() {
    for text in ["0.0.0", "1.2.3", "10.20.30", "1.0.0-alpha", "1.0.0-alpha.1", "1.0.0-0.3.7", "1.0.0-x.7.z.92",
        "1.0.0+20130313144700", "1.0.0-beta+exp.sha.5114f85", "18446744073709551615.0.1"]
    {
        let version = Version::parse(text).expect("a semantic version");
        assert_eq!(text, version.to_text());
        assert_eq!(Some(version), Version::parse(&Version::parse(text).unwrap().to_text()));
    }
}

#[test]
fn version_is_parsed_into_its_parts() {
    assert_eq!(Some(Version::new(1, 2, 3)), Version::parse("1.2.3"));
    let v = Version::parse("1.2.3-alpha.7+build.11").unwrap();
    assert_eq!((1, 2, 3), (v.major, v.minor, v.patch));
    assert_eq!(vec![Identifier::AlphaNumeric("alpha".to_string()), Identifier::Numeric(7)], v.pre);
    assert_eq!(vec![Identifier::AlphaNumeric("build".to_string()), Identifier::Numeric(11)], v.build);
    assert!(v.is_prerelease());
    assert!(!Version::new(1, 2, 3).is_prerelease());
    assert_eq!(None, Version::parse(""));
    assert_eq!(None, Version::parse("1"));
    assert_eq!(None, Version::parse("1.2"));
    assert_eq!(None, Version::parse("a.b.c"));
    assert_eq!(None, Version::parse("1.2.3-"));
    assert_eq!(None, Version::parse("v1.2.3"));
    assert_eq!(None, Version::parse("1.2.3 abc"));
}

#[test]
fn versions_are_ordered_by_precedence() {
    let order = ["0.0.1", "0.1.0", "0.1.1", "1.0.0-1", "1.0.0-2.a", "1.0.0-10", "1.0.0-alpha", "1.0.0-alpha.1",
        "1.0.0-alpha.beta", "1.0.0-beta", "1.0.0-beta.2", "1.0.0-beta.11", "1.0.0-rc.1", "1.0.0", "1.0.1", "1.1.0",
        "2.0.0", "11.0.0"];
    for i in 0..order.len() {
        for j in 0..order.len() {
            let a = Version::parse(order[i]).unwrap();
            let b = Version::parse(order[j]).unwrap();
            assert_eq!(i < j, a.lt(&b), "{} < {}", order[i], order[j]);
        }
    }
    let plain = Version::parse("1.0.0+a").unwrap();
    let other = Version::parse("1.0.0+b").unwrap();
    assert!(!plain.lt(&other));
    assert!(!other.lt(&plain));
    let made = Version {
        major: 1,
        minor: 0,
        patch: 0,
        pre: vec![Identifier::AlphaNumeric("é".to_string())],
        build: vec![],
    };
    let ascii = Version { pre: vec![Identifier::AlphaNumeric("z".to_string())], ..made.clone() };
    assert!(ascii.lt(&made));
    assert!(!made.lt(&ascii));
    assert_eq!("1.0.0-é", made.to_text());
}

#[test]
fn timestamp_has_a_text() {
    let t = Timestamp { secs: 1_520_000_000, nanos: 0 };
    assert_eq!(Some("2018-03-02T14:13:20Z".to_string()), t.to_text());
    assert_eq!(Some(t), Timestamp::parse("2018-03-02T14:13:20Z"));
    assert_eq!(Some(t), Timestamp::parse("2018-03-02 15:13:20+01:00"));
    let fine = Timestamp { secs: -1, nanos: 500_000_000 };
    assert_eq!(Some("1969-12-31T23:59:59.500Z".to_string()), fine.to_text());
    assert_eq!(Some(fine), Timestamp::parse("1969-12-31T23:59:59.500Z"));
    assert_eq!(None, Timestamp::parse("yesterday"));
    assert_eq!(None, Timestamp { secs: i64::MAX, nanos: 0 }.to_text());
    assert_eq!(None, Timestamp { secs: 0, nanos: 2_000_000_000 }.to_text());
}

#[test]
fn timestamps_are_compared() {
    let a = Timestamp { secs: 10, nanos: 5 };
    let b = Timestamp { secs: 10, nanos: 6 };
    let c = Timestamp { secs: 11, nanos: 0 };
    assert_eq!(b, a.later(b));
    assert_eq!(b, b.later(a));
    assert_eq!(c, b.later(c));
    assert_eq!(a, a.later(a));
    assert!(a.passed(b, 0));
    assert!(!a.passed(a, 0));
    assert!(!a.passed(c, 1));
    assert!(b.passed(Timestamp { secs: 11, nanos: 7 }, 1));
    assert!(c.passed(a, -1));
    assert!(!c.passed(a, 0));
    assert!(Timestamp { secs: i64::MIN, nanos: 0 }.passed(Timestamp { secs: i64::MAX, nanos: 0 }, i64::MAX));
    assert!(!Timestamp { secs: i64::MAX, nanos: 0 }.passed(Timestamp { secs: i64::MIN, nanos: 0 }, i64::MIN));
    let now = Timestamp::now();
    assert!(now.secs > 1_500_000_000);
}

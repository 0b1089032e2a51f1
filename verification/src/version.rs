//! Semantic versions.
//!
//! A [`Version`] holds what the `semver` crate's version holds, as plain
//! values.  Reading a version from text, ordering two versions and printing one
//! are done by `semver`; the three functions that call it are believed, not
//! proved.  Their contracts say, as far as a few lines can, what `semver` does.

use vstd::prelude::*;

verus! {

/// An identifier in the pre-release or build metadata.
#[derive(Clone, Debug, PartialEq, Eq)]
pub enum Identifier {
    /// An identifier that's solely numbers.
    Numeric(u64),
    /// An identifier with letters and numbers.
    AlphaNumeric(String),
}

/// What an [`Identifier`] is in contracts.
pub enum IdentifierView {
    Numeric(u64),
    AlphaNumeric(Seq<char>),
}

impl View for Identifier {
    type V = IdentifierView;

    open spec fn view(&self) -> IdentifierView {
        match *self {
            Identifier::Numeric(n) => IdentifierView::Numeric(n),
            Identifier::AlphaNumeric(s) => IdentifierView::AlphaNumeric(s@),
        }
    }
}

/// Represents a version number conforming to the semantic versioning scheme.
#[derive(Clone, Debug, PartialEq, Eq)]
pub struct Version {
    /// The major version, to be incremented on incompatible changes.
    pub major: u64,
    /// The minor version, to be incremented when functionality is added in a
    /// backwards-compatible manner.
    pub minor: u64,
    /// The patch version, to be incremented when backwards-compatible bug
    /// fixes are made.
    pub patch: u64,
    /// The pre-release version identifier, if one exists.
    pub pre: Vec<Identifier>,
    /// The build metadata, ignored when determining version precedence.
    pub build: Vec<Identifier>,
}

/// What a [`Version`] is in contracts.
pub struct VersionView {
    pub major: u64,
    pub minor: u64,
    pub patch: u64,
    pub pre: Seq<IdentifierView>,
    pub build: Seq<IdentifierView>,
}

/// The views of a sequence of identifiers.
pub open spec fn identifier_views(ids: Seq<Identifier>) -> Seq<IdentifierView> {
    ids.map_values(|i: Identifier| i@)
}

impl View for Version {
    type V = VersionView;

    open spec fn view(&self) -> VersionView {
        VersionView {
            major: self.major,
            minor: self.minor,
            patch: self.patch,
            pre: identifier_views(self.pre@),
            build: identifier_views(self.build@),
        }
    }
}

impl VersionView {
    /// The version `major.minor.patch`, without pre-release and build
    /// identifiers.
    pub open spec fn plain(major: u64, minor: u64, patch: u64) -> VersionView {
        VersionView { major, minor, patch, pre: Seq::empty(), build: Seq::empty() }
    }
}

/// Whether `a` comes before `b` where strings are ordered character by
/// character, by the characters' code points; a proper prefix comes first.
pub open spec fn text_before(a: Seq<char>, b: Seq<char>) -> bool
    decreases a.len(),
{
    if b.len() == 0 {
        false
    } else if a.len() == 0 {
        true
    } else if a[0] != b[0] {
        a[0] < b[0]
    } else {
        text_before(a.drop_first(), b.drop_first())
    }
}

/// Whether identifier `a` comes before `b`: numbers by their value, texts by
/// [`text_before`], and every number before every text.
pub open spec fn identifier_before(a: IdentifierView, b: IdentifierView) -> bool {
    match a {
        IdentifierView::Numeric(x) => match b {
            IdentifierView::Numeric(y) => x < y,
            IdentifierView::AlphaNumeric(_) => true,
        },
        IdentifierView::AlphaNumeric(s) => match b {
            IdentifierView::Numeric(_) => false,
            IdentifierView::AlphaNumeric(t) => text_before(s, t),
        },
    }
}

/// Whether the identifiers `a` come before `b`: the first pair that differs
/// decides, and a proper prefix comes first.
pub open spec fn identifiers_before(a: Seq<IdentifierView>, b: Seq<IdentifierView>) -> bool
    decreases a.len(),
{
    if b.len() == 0 {
        false
    } else if a.len() == 0 {
        true
    } else if a[0] != b[0] {
        identifier_before(a[0], b[0])
    } else {
        identifiers_before(a.drop_first(), b.drop_first())
    }
}

/// Whether version `a` has lower precedence than `b`.
///
/// Major, minor and patch numbers decide in this order.  Where they agree, a
/// version with pre-release identifiers comes before one without, and two
/// versions with such identifiers are ordered by them.  Build metadata plays no
/// part.
pub open spec fn precedes(a: VersionView, b: VersionView) -> bool {
    if a.major != b.major {
        a.major < b.major
    } else if a.minor != b.minor {
        a.minor < b.minor
    } else if a.patch != b.patch {
        a.patch < b.patch
    } else if a.pre.len() == 0 {
        false
    } else if b.pre.len() == 0 {
        true
    } else {
        identifiers_before(a.pre, b.pre)
    }
}

/// The character for a decimal digit.
pub open spec fn digit(d: int) -> char {
    if d == 0 {
        '0'
    } else if d == 1 {
        '1'
    } else if d == 2 {
        '2'
    } else if d == 3 {
        '3'
    } else if d == 4 {
        '4'
    } else if d == 5 {
        '5'
    } else if d == 6 {
        '6'
    } else if d == 7 {
        '7'
    } else if d == 8 {
        '8'
    } else {
        '9'
    }
}

/// The decimal digits of `n`, without leading zeros.
pub open spec fn decimal(n: nat) -> Seq<char>
    decreases n,
{
    if n < 10 {
        seq![digit(n as int)]
    } else {
        decimal(n / 10).push(digit((n % 10) as int))
    }
}

/// The text of one identifier.
pub open spec fn identifier_text(i: IdentifierView) -> Seq<char> {
    match i {
        IdentifierView::Numeric(n) => decimal(n as nat),
        IdentifierView::AlphaNumeric(s) => s,
    }
}

/// The texts of the identifiers, with a dot between neighbours.
pub open spec fn dotted(ids: Seq<IdentifierView>) -> Seq<char>
    decreases ids.len(),
{
    if ids.len() == 0 {
        Seq::empty()
    } else if ids.len() == 1 {
        identifier_text(ids[0])
    } else {
        dotted(ids.drop_last()) + seq!['.'] + identifier_text(ids.last())
    }
}

/// The text of a version: `major.minor.patch`, then `-` and the pre-release
/// identifiers where there are any, then `+` and the build identifiers where
/// there are any.
pub open spec fn version_text(v: VersionView) -> Seq<char> {
    decimal(v.major as nat) + seq!['.'] + decimal(v.minor as nat) + seq!['.'] + decimal(v.patch as nat) + (if v.pre.len()
        > 0 {
        seq!['-'] + dotted(v.pre)
    } else {
        Seq::empty()
    }) + (if v.build.len() > 0 {
        seq!['+'] + dotted(v.build)
    } else {
        Seq::empty()
    })
}

/// The version that `semver` reads from a text, where the text is a semantic
/// version.
pub uninterp spec fn parsed_version(text: Seq<char>) -> Option<VersionView>;

/// `semver::Version::parse`, with the version it returns copied field by field.
#[verifier::external_body]
fn semver_parse(s: &str) -> (r: Option<Version>)
    ensures
        match r {
            Some(v) => parsed_version(s@) == Some(v@),
            None => parsed_version(s@) is None,
        },
{
    let id = |i: semver::Identifier| match i {
        semver::Identifier::Numeric(n) => Identifier::Numeric(n),
        semver::Identifier::AlphaNumeric(s) => Identifier::AlphaNumeric(s),
    };
    semver::Version::parse(s).ok().map(|v| Version {
        major: v.major,
        minor: v.minor,
        patch: v.patch,
        pre: v.pre.into_iter().map(id).collect(),
        build: v.build.into_iter().map(id).collect(),
    })
}

/// `<` on two `semver::Version`s that hold what `a` and `b` hold: the order
/// that `semver` gives its versions is [`precedes`].
#[verifier::external_body]
fn semver_less(a: &Version, b: &Version) -> (r: bool)
    ensures
        r == precedes(a@, b@),
{
    let id = |i: &Identifier| match i {
        Identifier::Numeric(n) => semver::Identifier::Numeric(*n),
        Identifier::AlphaNumeric(s) => semver::Identifier::AlphaNumeric(s.clone()),
    };
    let ver = |v: &Version| semver::Version {
        major: v.major,
        minor: v.minor,
        patch: v.patch,
        pre: v.pre.iter().map(id).collect(),
        build: v.build.iter().map(id).collect(),
    };
    ver(a) < ver(b)
}

/// `to_string` on a `semver::Version` that holds what `v` holds: the text that
/// `semver` prints for a version is [`version_text`].
#[verifier::external_body]
fn semver_text(v: &Version) -> (r: String)
    ensures
        r@ == version_text(v@),
{
    let id = |i: &Identifier| match i {
        Identifier::Numeric(n) => semver::Identifier::Numeric(*n),
        Identifier::AlphaNumeric(s) => semver::Identifier::AlphaNumeric(s.clone()),
    };
    let outside = semver::Version {
        major: v.major,
        minor: v.minor,
        patch: v.patch,
        pre: v.pre.iter().map(id).collect(),
        build: v.build.iter().map(id).collect(),
    };
    outside.to_string()
}

impl Version {
    /// Constructs the simple case without pre or build.
    pub fn new(major: u64, minor: u64, patch: u64) -> (r: Version)
        ensures
            r@ == VersionView::plain(major, minor, patch),
    {
        let r = Version { major, minor, patch, pre: Vec::new(), build: Vec::new() };
        assert(r@.pre =~= Seq::empty());
        assert(r@.build =~= Seq::empty());
        r
    }

    /// Parse a string into a version; `None` where the string is no semantic
    /// version.
    pub fn parse(version: &str) -> (r: Option<Version>)
        ensures
            match r {
                Some(v) => parsed_version(version@) == Some(v@),
                None => parsed_version(version@) is None,
            },
    {
        semver_parse(version)
    }

    /// Whether this version has lower precedence than `other`.
    pub fn lt(&self, other: &Version) -> (r: bool)
        ensures
            r == precedes(self@, other@),
    {
        semver_less(self, other)
    }

    /// The text of the version, as it is written in files.
    pub fn to_text(&self) -> (r: String)
        ensures
            r@ == version_text(self@),
    {
        semver_text(self)
    }

    /// Checks to see if the current Version is in pre-release status
    pub fn is_prerelease(&self) -> (r: bool)
        ensures
            r == (self@.pre.len() > 0),
    {
        self.pre.len() > 0
    }
}

/// Of two texts exactly one holds: the first comes before the second, the
/// second before the first, or they are the same text.
pub proof fn lemma_text_order(a: Seq<char>, b: Seq<char>)
    ensures
        !(text_before(a, b) && text_before(b, a)),
        a == b ==> !text_before(a, b),
        a != b ==> text_before(a, b) || text_before(b, a),
    decreases a.len(),
{
    if a.len() > 0 && b.len() > 0 {
        if a[0] == b[0] {
            lemma_text_order(a.drop_first(), b.drop_first());
            if a.drop_first() == b.drop_first() {
                assert(a =~= seq![a[0]] + a.drop_first());
                assert(b =~= seq![b[0]] + b.drop_first());
            }
        }
    } else if a.len() == 0 && b.len() == 0 {
        assert(a =~= b);
    }
}

/// Of two identifiers exactly one holds: the first comes before the second,
/// the second before the first, or they are the same identifier.
pub proof fn lemma_identifier_order(a: IdentifierView, b: IdentifierView)
    ensures
        !(identifier_before(a, b) && identifier_before(b, a)),
        a == b ==> !identifier_before(a, b),
        a != b ==> identifier_before(a, b) || identifier_before(b, a),
{
    match a {
        IdentifierView::AlphaNumeric(s) => match b {
            IdentifierView::AlphaNumeric(t) => {
                lemma_text_order(s, t);
            },
            IdentifierView::Numeric(_) => {},
        },
        IdentifierView::Numeric(_) => {},
    }
}

/// Of two sequences of identifiers exactly one holds: the first comes before
/// the second, the second before the first, or they are the same sequence.
pub proof fn lemma_identifiers_order(a: Seq<IdentifierView>, b: Seq<IdentifierView>)
    ensures
        !(identifiers_before(a, b) && identifiers_before(b, a)),
        a == b ==> !identifiers_before(a, b),
        a != b ==> identifiers_before(a, b) || identifiers_before(b, a),
    decreases a.len(),
{
    if a.len() > 0 && b.len() > 0 {
        if a[0] == b[0] {
            lemma_identifiers_order(a.drop_first(), b.drop_first());
            if a.drop_first() == b.drop_first() {
                assert(a =~= seq![a[0]] + a.drop_first());
                assert(b =~= seq![b[0]] + b.drop_first());
            }
        } else {
            lemma_identifier_order(a[0], b[0]);
        }
    } else if a.len() == 0 && b.len() == 0 {
        assert(a =~= b);
    }
}

/// Precedence orders the versions: no version precedes itself, of two
/// versions at most one precedes the other, and where neither does, the two
/// agree in everything but their build metadata.
pub proof fn lemma_precedence_orders(a: VersionView, b: VersionView)
    ensures
        !precedes(a, a),
        !(precedes(a, b) && precedes(b, a)),
        !precedes(a, b) && !precedes(b, a) ==> a.major == b.major && a.minor == b.minor && a.patch == b.patch
            && a.pre == b.pre,
{
    lemma_identifiers_order(a.pre, a.pre);
    lemma_identifiers_order(a.pre, b.pre);
    if a.pre.len() == 0 && b.pre.len() == 0 {
        assert(a.pre =~= b.pre);
    }
}

/// Where two versions have no pre-release identifiers, their numbers alone
/// decide which precedes the other.
pub proof fn lemma_precedes_by_numbers(a: VersionView, b: VersionView)
    requires
        a.pre.len() == 0,
        b.pre.len() == 0,
    ensures
        precedes(a, b) <==> (a.major < b.major || (a.major == b.major && (a.minor < b.minor || (a.minor == b.minor
            && a.patch < b.patch)))),
{
}

/// What comes before a text that comes before a third comes before the third.
pub proof fn lemma_text_order_passes_on(a: Seq<char>, b: Seq<char>, c: Seq<char>)
    requires
        text_before(a, b),
        text_before(b, c),
    ensures
        text_before(a, c),
    decreases a.len(),
{
    if a.len() > 0 && a[0] == b[0] && b[0] == c[0] {
        lemma_text_order_passes_on(a.drop_first(), b.drop_first(), c.drop_first());
    }
}

/// What comes before an identifier that comes before a third comes before the
/// third.
pub proof fn lemma_identifier_order_passes_on(a: IdentifierView, b: IdentifierView, c: IdentifierView)
    requires
        identifier_before(a, b),
        identifier_before(b, c),
    ensures
        identifier_before(a, c),
{
    match a {
        IdentifierView::AlphaNumeric(s) => match b {
            IdentifierView::AlphaNumeric(t) => match c {
                IdentifierView::AlphaNumeric(u) => {
                    lemma_text_order_passes_on(s, t, u);
                },
                IdentifierView::Numeric(_) => {},
            },
            IdentifierView::Numeric(_) => {},
        },
        IdentifierView::Numeric(_) => {},
    }
}

/// What comes before a sequence of identifiers that comes before a third
/// comes before the third.
pub proof fn lemma_identifiers_order_passes_on(
    a: Seq<IdentifierView>,
    b: Seq<IdentifierView>,
    c: Seq<IdentifierView>,
)
    requires
        identifiers_before(a, b),
        identifiers_before(b, c),
    ensures
        identifiers_before(a, c),
    decreases a.len(),
{
    if a.len() > 0 {
        if a[0] == b[0] && b[0] == c[0] {
            lemma_identifiers_order_passes_on(a.drop_first(), b.drop_first(), c.drop_first());
        } else if a[0] != b[0] && b[0] != c[0] {
            lemma_identifier_order_passes_on(a[0], b[0], c[0]);
            lemma_identifier_order(a[0], c[0]);
        }
    }
}

/// A version that precedes one that precedes a third precedes the third.
pub proof fn lemma_precedence_passes_on(a: VersionView, b: VersionView, c: VersionView)
    requires
        precedes(a, b),
        precedes(b, c),
    ensures
        precedes(a, c),
{
    if a.major == b.major && b.major == c.major && a.minor == b.minor && b.minor == c.minor && a.patch == b.patch
        && b.patch == c.patch && c.pre.len() > 0 {
        lemma_identifiers_order_passes_on(a.pre, b.pre, c.pre);
    }
}

} // verus!

//! The RPC API version reported in a response context: a semantic version
//! (`major.minor.patch`, optional pre-release and build labels).

use std::cmp::Ordering;
use std::str::FromStr;
use vstd::prelude::*;
use crate::text::{decimal_text, decimal_value, lemma_decimal_text_reads_back, push_decimal, push_char};

verus! {

#[verifier::external_type_specification]
#[verifier::external_body]
pub struct ExSemverError(semver::Error);

/// The parts that `semver::Version::from_str` reads a text as
/// (major, minor, patch, pre-release label, build label), or `None` where
/// it refuses the text.
pub uninterp spec fn semver_parse(text: Seq<char>) -> Option<(u64, u64, u64, Seq<char>, Seq<char>)>;

/// Parses a semantic version with `semver::Version::from_str` and hands
/// back its numbers and labels (`Prerelease::as_str`, `BuildMetadata::as_str`).
/// Claimed: the result is `semver_parse` of the text; the source refuses the
/// empty text; and what it accepts, it accepts again in the form `Display`
/// writes it (`display.rs`: the numbers in decimal, `-pre` and `+build` only
/// when not empty). In `parse.rs` a number is read as its decimal digits with
/// no leading zero, and each label as the run of identifier characters
/// (`[0-9A-Za-z-.]`) that follows its `-` or `+`, so the printed form reads
/// back to the same numbers and labels.
#[verifier::external_body]
fn parse_semver(text: &str) -> (r: Result<(u64, u64, u64, String, String), semver::Error>)
    ensures
        match r {
            Ok(p) => semver_parse(text@) == Some((p.0, p.1, p.2, p.3@, p.4@)),
            Err(_) => semver_parse(text@) is None,
        },
        text@.len() == 0 ==> r is Err,
        r matches Ok(p) ==> semver_parse(version_text(view_of_parts((p.0, p.1, p.2, p.3@, p.4@))))
            == Some((p.0, p.1, p.2, p.3@, p.4@)),
{
    match semver::Version::from_str(text) {
        Ok(v) => Ok((v.major, v.minor, v.patch, v.pre.as_str().to_string(), v.build.as_str().to_string())),
        Err(e) => Err(e),
    }
}

/// The version of this node's software: `solana_version::Version::default()`
/// turned into a semantic version by `as_semver_version`, handed back as
/// its parts. Claimed: the numbers are those of the `solana-version` package
/// that was built (2.3.13, read from its manifest at compile time) and both
/// labels are empty (`as_semver_version` calls `semver::Version::new`); and
/// the text `Display` writes for it, `2.3.13`, is read back by
/// `semver::Version::from_str` as the same parts (`parse.rs`: three decimal
/// numbers with no leading zero, separated by dots, and nothing after them).
#[verifier::external_body]
fn node_semver_parts() -> (r: (u64, u64, u64, String, String))
    ensures
        r.0 == 2,
        r.1 == 3,
        r.2 == 13,
        r.3@.len() == 0,
        r.4@.len() == 0,
        semver_parse(version_text(view_of_parts((r.0, r.1, r.2, r.3@, r.4@))))
            == Some((r.0, r.1, r.2, r.3@, r.4@)),
{
    let v = solana_version::Version::default().as_semver_version();
    (v.major, v.minor, v.patch, v.pre.as_str().to_string(), v.build.as_str().to_string())
}

/// The abstract value of an API version.
pub struct ApiVersionView {
    pub major: u64,
    pub minor: u64,
    pub patch: u64,
    pub pre: Seq<char>,
    pub build: Seq<char>,
}

/// The semantic version of the RPC API that answered a request. Its text
/// is always one that semver reads back as the same version.
#[derive(PartialEq, Eq)]
pub struct RpcApiVersion {
    major: u64,
    minor: u64,
    patch: u64,
    pre: String,
    build: String,
}

impl View for RpcApiVersion {
    type V = ApiVersionView;

    closed spec fn view(&self) -> ApiVersionView {
        ApiVersionView {
            major: self.major,
            minor: self.minor,
            patch: self.patch,
            pre: self.pre@,
            build: self.build@,
        }
    }
}

/// The abstract version with these parts.
pub open spec fn view_of_parts(p: (u64, u64, u64, Seq<char>, Seq<char>)) -> ApiVersionView {
    ApiVersionView { major: p.0, minor: p.1, patch: p.2, pre: p.3, build: p.4 }
}

/// The parts of an abstract version.
pub open spec fn parts_of(v: ApiVersionView) -> (u64, u64, u64, Seq<char>, Seq<char>) {
    (v.major, v.minor, v.patch, v.pre, v.build)
}

/// The text of a semantic version: `major.minor.patch`, then `-pre` when
/// the pre-release label is not empty, then `+build` when the build label
/// is not empty.
pub open spec fn version_text(v: ApiVersionView) -> Seq<char> {
    let core = decimal_text(v.major as nat) + seq!['.'] + decimal_text(v.minor as nat) + seq!['.']
        + decimal_text(v.patch as nat);
    let with_pre = if v.pre.len() == 0 {
        core
    } else {
        core + seq!['-'] + v.pre
    };
    if v.build.len() == 0 {
        with_pre
    } else {
        with_pre + seq!['+'] + v.build
    }
}

impl Clone for RpcApiVersion {
    fn clone(&self) -> (c: RpcApiVersion)
        ensures
            c@ == self@,
    {
        proof {
            use_type_invariant(self);
        }
        RpcApiVersion {
            major: self.major,
            minor: self.minor,
            patch: self.patch,
            pre: self.pre.clone(),
            build: self.build.clone(),
        }
    }
}

/// Law: the text of a version opens with its major, minor and patch
/// numbers, each written with the digits `0`-`9` and read back as that
/// number, separated by dots; after them come only a `-` or `+` label, or
/// nothing.
pub proof fn lemma_version_text_numbers(v: ApiVersionView)
    ensures
        ({
            let t = version_text(v);
            let a = decimal_text(v.major as nat).len() as int;
            let b = decimal_text(v.minor as nat).len() as int;
            let c = decimal_text(v.patch as nat).len() as int;
            &&& a > 0 && b > 0 && c > 0
            &&& t.len() >= a + b + c + 2
            &&& forall|i: int| 0 <= i < a ==> '0' <= #[trigger] t[i] <= '9'
            &&& decimal_value(t.subrange(0, a)) == v.major
            &&& t[a] == '.'
            &&& forall|i: int| a + 1 <= i < a + 1 + b ==> '0' <= #[trigger] t[i] <= '9'
            &&& decimal_value(t.subrange(a + 1, a + 1 + b)) == v.minor
            &&& t[a + 1 + b] == '.'
            &&& forall|i: int| a + b + 2 <= i < a + b + 2 + c ==> '0' <= #[trigger] t[i] <= '9'
            &&& decimal_value(t.subrange(a + b + 2, a + b + 2 + c)) == v.patch
            &&& (t.len() == a + b + c + 2 || t[a + b + c + 2] == '-' || t[a + b + c + 2] == '+')
        }),
{
    let d1 = decimal_text(v.major as nat);
    let d2 = decimal_text(v.minor as nat);
    let d3 = decimal_text(v.patch as nat);
    lemma_decimal_text_reads_back(v.major as nat);
    lemma_decimal_text_reads_back(v.minor as nat);
    lemma_decimal_text_reads_back(v.patch as nat);
    let core = d1 + seq!['.'] + d2 + seq!['.'] + d3;
    let t = version_text(v);
    let a = d1.len() as int;
    let b = d2.len() as int;
    let c = d3.len() as int;
    let pre_part = if v.pre.len() == 0 { core } else { core + seq!['-'] + v.pre };
    assert(pre_part.subrange(0, core.len() as int) =~= core);
    assert(t.subrange(0, pre_part.len() as int) =~= pre_part);
    assert(t.subrange(0, core.len() as int) =~= core);
    assert forall|i: int| 0 <= i < core.len() implies #[trigger] t[i] == core[i] by {
        assert(t.subrange(0, core.len() as int)[i] == t[i]);
    }
    assert(t.subrange(0, a) =~= d1);
    assert(t.subrange(a + 1, a + 1 + b) =~= d2);
    assert(t.subrange(a + b + 2, a + b + 2 + c) =~= d3);
    assert forall|i: int| 0 <= i < a implies '0' <= #[trigger] t[i] <= '9' by {
        assert(t[i] == d1[i]);
    }
    assert forall|i: int| a + 1 <= i < a + 1 + b implies '0' <= #[trigger] t[i] <= '9' by {
        assert(t[i] == d2[i - a - 1]);
    }
    assert forall|i: int| a + b + 2 <= i < a + b + 2 + c implies '0' <= #[trigger] t[i] <= '9' by {
        assert(t[i] == d3[i - a - b - 2]);
    }
    assert(t[a] == core[a]);
    assert(t[a + 1 + b] == core[a + 1 + b]);
    if t.len() > core.len() {
        if v.pre.len() != 0 {
            assert(t[core.len() as int] == pre_part[core.len() as int]);
        } else {
            assert(t =~= core + seq!['+'] + v.build);
        }
    }
}

/// The debugging text of an API version: the version wrapped as semver
/// shows it, `RpcApiVersion(Version { major: M, minor: N, patch: P })`, with
/// `, pre: Prerelease("..")` and `, build: BuildMetadata("..")` after the
/// patch number when those labels are not empty.
pub open spec fn version_debug_text(v: ApiVersionView) -> Seq<char> {
    let core = "RpcApiVersion(Version { major: "@ + decimal_text(v.major as nat) + ", minor: "@
        + decimal_text(v.minor as nat) + ", patch: "@ + decimal_text(v.patch as nat);
    let with_pre = if v.pre.len() == 0 {
        core
    } else {
        core + ", pre: Prerelease(\""@ + v.pre + "\")"@
    };
    let with_build = if v.build.len() == 0 {
        with_pre
    } else {
        with_pre + ", build: BuildMetadata(\""@ + v.build + "\")"@
    };
    with_build + " })"@
}

/// Why a text was refused as an API version.
#[derive(Debug)]
pub struct RpcApiVersionError {
    /// What the semantic version parser reported.
    pub source: semver::Error,
}

impl RpcApiVersion {
    /// Reads an API version from its text. A version read this way prints
    /// (`to_version_string`) to a text that reads back to the same version.
    pub fn parse(text: &str) -> (r: Result<RpcApiVersion, RpcApiVersionError>)
        ensures
            r is Ok <==> semver_parse(text@) is Some,
            r matches Ok(v) ==> semver_parse(text@) == Some(parts_of(v@)),
            r matches Ok(v) ==> semver_parse(version_text(v@)) == Some(parts_of(v@)),
    {
        let parsed = parse_semver(text);
        Self::from_semver_result(parsed)
    }

    /// A version's text reads back, with semver, as the version itself.
    #[verifier::type_invariant]
    closed spec fn text_reads_back(self) -> bool {
        semver_parse(version_text(self@)) == Some(parts_of(self@))
    }

    /// The API version for what the semantic version parser answered: the
    /// parts it read, or its error. Parts must be ones whose text semver
    /// reads back as themselves, as any parts it answers with are.
    pub fn from_semver_result(parsed: Result<(u64, u64, u64, String, String), semver::Error>) -> (r: Result<RpcApiVersion, RpcApiVersionError>)
        requires
            parsed matches Ok(p) ==> semver_parse(version_text(view_of_parts((p.0, p.1, p.2, p.3@, p.4@))))
                == Some((p.0, p.1, p.2, p.3@, p.4@)),
        ensures
            match parsed {
                Ok(p) => r matches Ok(v) && v@ == view_of_parts((p.0, p.1, p.2, p.3@, p.4@)),
                Err(e) => r matches Err(err) && err.source == e,
            },
    {
        match parsed {
            Ok(p) => {
                let (major, minor, patch, pre, build) = p;
                Ok(RpcApiVersion { major, minor, patch, pre, build })
            },
            Err(e) => Err(RpcApiVersionError { source: e }),
        }
    }

    /// The API version of this node: the version of its software, with no
    /// labels.
    pub fn node_version() -> (v: RpcApiVersion)
        ensures
            v@.major == 2,
            v@.minor == 3,
            v@.patch == 13,
            v@.pre.len() == 0,
            v@.build.len() == 0,
    {
        let (major, minor, patch, pre, build) = node_semver_parts();
        RpcApiVersion { major, minor, patch, pre, build }
    }

    /// The major version number.
    pub fn major(&self) -> (n: u64)
        ensures
            n == self@.major,
    {
        self.major
    }

    /// The minor version number.
    pub fn minor(&self) -> (n: u64)
        ensures
            n == self@.minor,
    {
        self.minor
    }

    /// The patch version number.
    pub fn patch(&self) -> (n: u64)
        ensures
            n == self@.patch,
    {
        self.patch
    }

    /// The pre-release label (empty when there is none).
    pub fn pre(&self) -> (s: &str)
        ensures
            s@ == self@.pre,
    {
        self.pre.as_str()
    }

    /// The build label (empty when there is none).
    pub fn build(&self) -> (s: &str)
        ensures
            s@ == self@.build,
    {
        self.build.as_str()
    }

    /// The debugging text of this version.
    pub fn debug_string(&self) -> (s: String)
        ensures
            s@ == version_debug_text(self@),
    {
        let mut s = "RpcApiVersion(Version { major: ".to_owned();
        push_decimal(&mut s, self.major);
        s.append(", minor: ");
        push_decimal(&mut s, self.minor);
        s.append(", patch: ");
        push_decimal(&mut s, self.patch);
        if !self.pre.as_str().is_empty() {
            s.append(", pre: Prerelease(\"");
            s.append(self.pre.as_str());
            s.append("\")");
        }
        if !self.build.as_str().is_empty() {
            s.append(", build: BuildMetadata(\"");
            s.append(self.build.as_str());
            s.append("\")");
        }
        s.append(" })");
        s
    }

    /// The text of this version, as it is sent over the wire. Semver reads
    /// it back as this same version.
    pub fn to_version_string(&self) -> (s: String)
        ensures
            s@ == version_text(self@),
            semver_parse(s@) == Some(parts_of(self@)),
    {
        proof {
            use_type_invariant(self);
        }
        let mut s = String::new();
        push_decimal(&mut s, self.major);
        push_char(&mut s, '.');
        push_decimal(&mut s, self.minor);
        push_char(&mut s, '.');
        push_decimal(&mut s, self.patch);
        if !self.pre.as_str().is_empty() {
            push_char(&mut s, '-');
            s.append(self.pre.as_str());
        }
        if !self.build.as_str().is_empty() {
            push_char(&mut s, '+');
            s.append(self.build.as_str());
        }
        assert(s@ =~= version_text(self@));
        s
    }
}

impl Default for RpcApiVersion {
    fn default() -> (v: RpcApiVersion)
        ensures
            v@.major == 2,
            v@.minor == 3,
            v@.patch == 13,
            v@.pre.len() == 0,
            v@.build.len() == 0,
    {
        RpcApiVersion::node_version()
    }
}

/// The order of semantic version precedence between the versions these two
/// texts are read as by `semver::Version::from_str` (`Ord` of
/// `semver::Version`), or `None` where a text is refused.
pub uninterp spec fn semver_text_precedence(a: Seq<char>, b: Seq<char>) -> Option<Ordering>;

/// The order of two triples of version numbers, compared from the left.
pub open spec fn numbers_order(a: (u64, u64, u64), b: (u64, u64, u64)) -> Ordering {
    if a.0 < b.0 || (a.0 == b.0 && (a.1 < b.1 || (a.1 == b.1 && a.2 < b.2))) {
        Ordering::Less
    } else if a == b {
        Ordering::Equal
    } else {
        Ordering::Greater
    }
}

/// Reads both texts with `semver::Version::from_str` and compares them with
/// `Ord` of `semver::Version`. Claimed, from semver's source and its
/// documented total ordering: the result is `semver_text_precedence`; it is
/// there exactly when both texts are accepted; different numbers order by
/// the numbers from the left; with equal numbers, a pre-release comes
/// before the release without one.
#[verifier::external_body]
fn semver_precedence_of_texts(a: &str, b: &str) -> (r: Option<Ordering>)
    ensures
        r == semver_text_precedence(a@, b@),
        r is Some <==> (semver_parse(a@) is Some && semver_parse(b@) is Some),
        match (semver_parse(a@), semver_parse(b@), r) {
            (Some(pa), Some(pb), Some(o)) => {
                &&& (pa.0, pa.1, pa.2) != (pb.0, pb.1, pb.2) ==> o == numbers_order((pa.0, pa.1, pa.2), (pb.0, pb.1, pb.2))
                &&& ((pa.0, pa.1, pa.2) == (pb.0, pb.1, pb.2) && pa.3.len() == 0 && pb.3.len() > 0) ==> o == Ordering::Greater
                &&& ((pa.0, pa.1, pa.2) == (pb.0, pb.1, pb.2) && pa.3.len() > 0 && pb.3.len() == 0) ==> o == Ordering::Less
            },
            _ => true,
        },
{
    Some(semver::Version::from_str(a).ok()?.cmp(&semver::Version::from_str(b).ok()?))
}

impl RpcApiVersion {
    /// The order of semantic version precedence between this version and
    /// `other`, as semver orders the texts they print to; `None` where semver
    /// does not accept one of those texts.
    pub fn precedence(&self, other: &RpcApiVersion) -> (r: Option<Ordering>)
        ensures
            r == semver_text_precedence(version_text(self@), version_text(other@)),
    {
        let a = self.to_version_string();
        let b = other.to_version_string();
        semver_precedence_of_texts(a.as_str(), b.as_str())
    }
}

} // verus!

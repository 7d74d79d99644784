//! Semantic versions as plain values, and the newest of a list of releases.

use vstd::prelude::*;
use crate::models::{releases, Release, ReleaseView};
use crate::string_map::Duplicate;
use crate::text::decimal;

verus! {

/// A semantic version.
pub struct ModVersion {
    pub major: u64,
    pub minor: u64,
    pub patch: u64,
    /// The pre-release identifiers, empty for a full release.
    pub pre: String,
    /// The build metadata, empty if there is none.
    pub build: String,
}

#[verifier::ext_equal]
pub struct ModVersionView {
    pub major: u64,
    pub minor: u64,
    pub patch: u64,
    pub pre: Seq<char>,
    pub build: Seq<char>,
}

impl View for ModVersion {
    type V = ModVersionView;

    open spec fn view(&self) -> ModVersionView {
        ModVersionView {
            major: self.major,
            minor: self.minor,
            patch: self.patch,
            pre: self.pre@,
            build: self.build@,
        }
    }
}

impl Duplicate for ModVersion {
    fn duplicate(&self) -> (r: Self) {
        ModVersion {
            major: self.major,
            minor: self.minor,
            patch: self.patch,
            pre: self.pre.clone(),
            build: self.build.clone(),
        }
    }
}

/// What `semver::Version::parse` makes of a text: the version, or the error as
/// it is displayed.
pub uninterp spec fn semver_parse(text: Seq<char>) -> Result<ModVersionView, Seq<char>>;

/// Whether `semver` orders a version after another one with the same numbers:
/// the pre-release and build metadata of the one, then of the other. It is
/// asked only of two pre-releases or of two full releases that differ.
pub uninterp spec fn semver_tail_after(
    pre: Seq<char>,
    build: Seq<char>,
    other_pre: Seq<char>,
    other_build: Seq<char>,
) -> bool;

/// Three version numbers as they are written.
pub open spec fn numbers_text(major: u64, minor: u64, patch: u64) -> Seq<char> {
    decimal(major as nat) + "."@ + decimal(minor as nat) + "."@ + decimal(patch as nat)
}

/// The full release with these numbers, without build metadata.
pub open spec fn full_release(major: u64, minor: u64, patch: u64) -> ModVersionView {
    ModVersionView { major, minor, patch, pre: Seq::empty(), build: Seq::empty() }
}

/// Whether a text of three numbers is read as the release with these numbers.
pub open spec fn reads_numbers(
    text: Seq<char>,
    parsed: Result<ModVersionView, Seq<char>>,
) -> bool {
    forall|a: u64, b: u64, c: u64|
        text == #[trigger] numbers_text(a, b, c) ==> parsed == Ok::<ModVersionView, Seq<char>>(
            full_release(a, b, c),
        )
}

/// A version as it is written.
pub open spec fn version_text(v: ModVersionView) -> Seq<char> {
    let core = numbers_text(v.major, v.minor, v.patch);
    let with_pre = if v.pre.len() == 0 {
        core
    } else {
        core + "-"@ + v.pre
    };
    if v.build.len() == 0 {
        with_pre
    } else {
        with_pre + "+"@ + v.build
    }
}

/// A version that can be written and read back.
pub open spec fn is_version(v: ModVersionView) -> bool {
    semver_parse(version_text(v)) matches Ok(w) && w == v
}

/// Whether the numbers of `a` are larger than those of `b`, the major number
/// first.
pub open spec fn numbers_above(a: ModVersionView, b: ModVersionView) -> bool {
    a.major > b.major || (a.major == b.major && (a.minor > b.minor || (a.minor == b.minor && a.patch
        > b.patch)))
}

/// Two versions that differ, with the same numbers, both pre-releases or both
/// full releases.
pub open spec fn undecided(a: ModVersionView, b: ModVersionView) -> bool {
    &&& a != b
    &&& !numbers_above(a, b)
    &&& !numbers_above(b, a)
    &&& (a.pre.len() == 0 <==> b.pre.len() == 0)
}

/// Whether `a` is the newer version: the numbers decide first, then a full
/// release is newer than its pre-releases.
pub open spec fn semver_greater(a: ModVersionView, b: ModVersionView) -> bool {
    if undecided(a, b) {
        semver_tail_after(a.pre, a.build, b.pre, b.build)
    } else {
        numbers_above(a, b) || (!numbers_above(b, a) && a.pre.len() == 0 && b.pre.len() > 0)
    }
}

/// What a parse gave, by its contents.
pub open spec fn outcome(r: Result<ModVersion, String>) -> Result<ModVersionView, Seq<char>> {
    match r {
        Ok(v) => Ok(v@),
        Err(e) => Err(e@),
    }
}

/// Calls `semver::Version::parse`, which is given the name `semver_parse`. A
/// text that parses is the text that the version is written as: the parser
/// takes no leading zeros, no empty identifiers and nothing before or behind.
/// Three numbers with dots between them always parse, and a text with an
/// underscore never does: identifiers hold letters, digits and hyphens only.
#[verifier::external_body]
pub(crate) fn parse_version(text: &str) -> (r: Result<ModVersion, String>)
    ensures
        outcome(r) == semver_parse(text@),
        r matches Ok(v) ==> version_text(v@) == text@,
        reads_numbers(text@, outcome(r)),
        r is Ok ==> !text@.contains('_'),
{
    match semver::Version::parse(text) {
        Ok(v) => Ok(ModVersion {
            major: v.major,
            minor: v.minor,
            patch: v.patch,
            pre: v.pre.as_str().to_string(),
            build: v.build.as_str().to_string(),
        }),
        Err(e) => Err(e.to_string()),
    }
}

/// Calls the `>` of `semver::Version`. The numbers decide first, then whether
/// there is a pre-release; what is left is given the name
/// `semver_tail_after`. It is a total order: of two different versions one is
/// the greater, and what is greater than the greater of two versions is greater
/// than the other one too.
#[verifier::external_body]
pub(crate) fn version_greater(a: &ModVersion, b: &ModVersion) -> (r: bool)
    requires
        is_version(a@),
        is_version(b@),
    ensures
        r == semver_greater(a@, b@),
        undecided(a@, b@) ==> r == semver_tail_after(a@.pre, a@.build, b@.pre, b@.build),
        r ==> !semver_greater(b@, a@),
        !r ==> a@ == b@ || semver_greater(b@, a@),
        r ==> forall|c: ModVersionView|
            is_version(c) && #[trigger] semver_greater(c, a@) ==> semver_greater(c, b@),
        !r ==> forall|c: ModVersionView|
            is_version(c) && #[trigger] semver_greater(c, b@) ==> semver_greater(c, a@),
{
    let pre = |text: &str| semver::Prerelease::new(text).unwrap();
    let build = |text: &str| semver::BuildMetadata::new(text).unwrap();
    let left = semver::Version {
        major: a.major, minor: a.minor, patch: a.patch, pre: pre(&a.pre), build: build(&a.build),
    };
    let right = semver::Version {
        major: b.major, minor: b.minor, patch: b.patch, pre: pre(&b.pre), build: build(&b.build),
    };
    left > right
}

/// Writes a version by the `Display` of `semver::Version`: the three numbers
/// with dots, then the pre-release behind `-` and the build metadata behind
/// `+` where they are not empty.
#[verifier::external_body]
pub(crate) fn display_version(v: &ModVersion) -> (text: String)
    requires
        is_version(v@),
    ensures
        text@ == version_text(v@),
{
    semver::Version {
        major: v.major,
        minor: v.minor,
        patch: v.patch,
        pre: semver::Prerelease::new(&v.pre).unwrap(),
        build: semver::BuildMetadata::new(&v.build).unwrap(),
    }
    .to_string()
}

/// The version of a release whose version text parses.
pub open spec fn version_of(release: ReleaseView) -> ModVersionView {
    semver_parse(release.version)->Ok_0
}

/// The position of the newest release: of those whose version parses, the
/// first that no later one is greater than.
pub open spec fn newest(list: Seq<ReleaseView>) -> Option<int>
    decreases list.len(),
{
    if list.len() == 0 {
        None
    } else {
        let before = newest(list.drop_last());
        if semver_parse(list.last().version) is Err {
            before
        } else {
            match before {
                None => Some(list.len() - 1),
                Some(i) => if semver_greater(version_of(list.last()), version_of(list[i])) {
                    Some(list.len() - 1)
                } else {
                    before
                },
            }
        }
    }
}

/// No other release of the list whose version parses is newer than the one at
/// `n`, and none has larger version numbers.
pub open spec fn none_newer(list: Seq<ReleaseView>, n: int) -> bool {
    forall|j: int|
        0 <= j < list.len() && j != n && semver_parse((#[trigger] list[j]).version) is Ok ==> {
            &&& !semver_greater(version_of(list[j]), version_of(list[n]))
            &&& !numbers_above(version_of(list[j]), version_of(list[n]))
        }
}

/// No release before the one at `n` has the same version.
pub open spec fn none_same_before(list: Seq<ReleaseView>, n: int) -> bool {
    forall|j: int|
        0 <= j < n && semver_parse((#[trigger] list[j]).version) is Ok ==> version_of(list[j])
            != version_of(list[n])
}

/// The newest of a list of releases, with its version; `None` if no version
/// of the list parses. Of releases with the same version the first counts.
pub fn latest_release(list: &Vec<Release>) -> (r: Option<(usize, ModVersion)>)
    ensures
        r is Some <==> newest(releases(list@)) is Some,
        r matches Some(found) ==> {
            &&& found.0 < list@.len()
            &&& newest(releases(list@)) == Some(found.0 as int)
            &&& semver_parse(list@[found.0 as int].version@) is Ok
            &&& found.1@ == version_of(list@[found.0 as int]@)
            &&& version_text(found.1@) == list@[found.0 as int].version@
            &&& is_version(found.1@)
            &&& !list@[found.0 as int].version@.contains('_')
            &&& none_newer(releases(list@), found.0 as int)
            &&& none_same_before(releases(list@), found.0 as int)
        },
{
    let mut best: Option<(usize, ModVersion)> = None;
    let ghost all = releases(list@);
    for i in 0..list.len()
        invariant
            all == releases(list@),
            best is Some <==> newest(all.take(i as int)) is Some,
            best is None ==> forall|j: int|
                0 <= j < i ==> semver_parse((#[trigger] all[j]).version) is Err,
            forall|j: int|
                0 <= j < i && semver_parse((#[trigger] all[j]).version) is Ok ==> is_version(
                    version_of(all[j]),
                ),
            best matches Some(found) ==> {
                &&& found.0 < i
                &&& newest(all.take(i as int)) == Some(found.0 as int)
                &&& semver_parse(list@[found.0 as int].version@) is Ok
                &&& found.1@ == version_of(list@[found.0 as int]@)
                &&& version_text(found.1@) == list@[found.0 as int].version@
                &&& !list@[found.0 as int].version@.contains('_')
                &&& none_newer(all.take(i as int), found.0 as int)
                &&& none_same_before(all.take(i as int), found.0 as int)
            },
    {
        let parsed: Result<ModVersion, String> = parse_version(list[i].version.as_str());
        assert(all.take(i + 1).drop_last() =~= all.take(i as int));
        assert(all[i as int] == list@[i as int]@);
        let ghost shorter = all.take(i as int);
        let ghost longer = all.take(i + 1);
        assert forall|j: int| 0 <= j < i implies #[trigger] longer[j] == all[j] && shorter[j]
            == all[j] by {}
        match parsed {
            Ok(v) => {
                let better: bool = match &best {
                    None => true,
                    Some(found) => version_greater(&v, &found.1),
                };
                if better {
                    best = Some((i, v));
                }
            },
            Err(_) => {},
        }
    }
    assert(all.take(all.len() as int) =~= all);
    best
}

/// There is a newest release exactly when some version of the list parses, and
/// its own version parses.
pub proof fn law_newest_exists(list: Seq<ReleaseView>)
    ensures
        newest(list) is Some <==> exists|i: int|
            0 <= i < list.len() && semver_parse((#[trigger] list[i]).version) is Ok,
        newest(list) matches Some(n) ==> 0 <= n < list.len() && semver_parse(list[n].version) is Ok,
    decreases list.len(),
{
    if list.len() > 0 {
        let front = list.drop_last();
        law_newest_exists(front);
        if newest(front) is Some {
            let i = choose|i: int|
                0 <= i < front.len() && semver_parse((#[trigger] front[i]).version) is Ok;
            assert(list[i] == front[i]);
        }
        if semver_parse(list.last().version) is Ok {
            assert(list[list.len() - 1] == list.last());
        }
        if newest(list) is None {
            assert forall|i: int| 0 <= i < list.len() implies semver_parse(
                (#[trigger] list[i]).version,
            ) is Err by {
                if i < front.len() {
                    assert(front[i] == list[i]);
                }
            }
        }
    }
}

} // verus!

//! Application versions and the compatibility string that decides which
//! builds may share their data on disk.

use vstd::prelude::*;
use crate::errors::AppError;
use crate::text::{append_chars, contains_char, to_chars, to_text};

verus! {

/// The character of the decimal digit `d`.
pub open spec fn digit_char(d: nat) -> char {
    if d == 0 {
        '0'
    } else if d == 1 {
        '1'
    } else if d == 2 {
        '2'
    } else if d == 3 {
        '3'
    } else if d == 4 {
        '4'
    } else if d == 5 {
        '5'
    } else if d == 6 {
        '6'
    } else if d == 7 {
        '7'
    } else if d == 8 {
        '8'
    } else {
        '9'
    }
}

/// `n` in decimal, without leading zeros.
pub open spec fn decimal(n: nat) -> Seq<char>
    decreases n,
{
    if n < 10 {
        seq![digit_char(n)]
    } else {
        decimal(n / 10).push(digit_char(n % 10))
    }
}

/// A character that may stand in a pre-release tag or in build metadata.
pub open spec fn is_tag_char(c: char) -> bool {
    c == '-' || c == '.' || ('0' <= c && c <= '9') || ('a' <= c && c <= 'z') || ('A' <= c && c
        <= 'Z')
}

/// Every character of `tag` may stand in a tag.
pub open spec fn is_tag(tag: Seq<char>) -> bool {
    forall|i: int| 0 <= i < tag.len() ==> is_tag_char(#[trigger] tag[i])
}

/// A semantic version: three numbers, a pre-release tag and build
/// metadata, each of the last two empty where the version has none.
#[derive(Debug, Clone, PartialEq, Eq)]
pub struct AppVersion {
    pub major: u64,
    pub minor: u64,
    pub patch: u64,
    pub pre: String,
    pub build: String,
}

/// `major.minor.patch`.
pub open spec fn core_text(major: nat, minor: nat, patch: nat) -> Seq<char> {
    decimal(major) + seq!['.'] + decimal(minor) + seq!['.'] + decimal(patch)
}

/// The whole version as text: the three numbers, then `-` and the
/// pre-release tag if there is one, then `+` and the build metadata if
/// there is any.
pub open spec fn full_text(
    major: nat,
    minor: nat,
    patch: nat,
    pre: Seq<char>,
    build: Seq<char>,
) -> Seq<char> {
    core_text(major, minor, patch) + (if pre.len() > 0 {
        seq!['-'] + pre
    } else {
        Seq::empty()
    }) + (if build.len() > 0 {
        seq!['+'] + build
    } else {
        Seq::empty()
    })
}

/// The compatibility string of a version. A pre-release stands alone under
/// its full text. A release shares its string with the releases that it is
/// compatible with: from `1.0.0` on those with the same major number,
/// below that those with the same minor number, and below `0.1.0` none but
/// itself.
pub open spec fn breaking_version(
    major: nat,
    minor: nat,
    patch: nat,
    pre: Seq<char>,
    build: Seq<char>,
) -> Seq<char> {
    if pre.len() > 0 {
        full_text(major, minor, patch, pre, build)
    } else if major == 0 && minor == 0 {
        "0.0."@ + decimal(patch)
    } else if major == 0 {
        "0."@ + decimal(minor) + ".x"@
    } else {
        decimal(major) + ".x.x"@
    }
}

impl AppVersion {
    /// The tag and the metadata hold only characters that may stand there.
    pub open spec fn wf(&self) -> bool {
        is_tag(self.pre@) && is_tag(self.build@)
    }

    /// The compatibility string of this version.
    pub open spec fn compatibility(&self) -> Seq<char> {
        breaking_version(
            self.major as nat,
            self.minor as nat,
            self.patch as nat,
            self.pre@,
            self.build@,
        )
    }

    /// The version with the given parts, or `None` where the tag or the
    /// metadata holds a character that may not stand there.
    pub fn new(major: u64, minor: u64, patch: u64, pre: &str, build: &str) -> (r: Option<
        AppVersion,
    >)
        ensures
            r is Some <==> is_tag(pre@) && is_tag(build@),
            r matches Some(v) ==> v.wf() && v.major == major && v.minor == minor && v.patch
                == patch && v.pre@ == pre@ && v.build@ == build@,
    {
        let p = to_chars(pre);
        let b = to_chars(build);
        if all_tag_chars(&p) && all_tag_chars(&b) {
            Some(AppVersion { major, minor, patch, pre: to_text(&p), build: to_text(&b) })
        } else {
            None
        }
    }

    /// The whole version as text.
    pub fn to_text(&self) -> (s: String)
        ensures
            s@ == full_text(
                self.major as nat,
                self.minor as nat,
                self.patch as nat,
                self.pre@,
                self.build@,
            ),
    {
        let mut out: Vec<char> = Vec::new();
        push_decimal(&mut out, self.major);
        out.push('.');
        push_decimal(&mut out, self.minor);
        out.push('.');
        push_decimal(&mut out, self.patch);
        assert(out@ =~= core_text(self.major as nat, self.minor as nat, self.patch as nat));
        let pre = to_chars(self.pre.as_str());
        if pre.len() > 0 {
            out.push('-');
            append_chars(&mut out, &pre);
        }
        let build = to_chars(self.build.as_str());
        if build.len() > 0 {
            out.push('+');
            append_chars(&mut out, &build);
        }
        assert(out@ =~= full_text(
            self.major as nat,
            self.minor as nat,
            self.patch as nat,
            self.pre@,
            self.build@,
        ));
        to_text(&out)
    }
}

/// Whether `c` may stand in a tag.
pub fn tag_char(c: char) -> (b: bool)
    ensures
        b == is_tag_char(c),
{
    c == '-' || c == '.' || ('0' <= c && c <= '9') || ('a' <= c && c <= 'z') || ('A' <= c && c
        <= 'Z')
}

/// Whether every character of `tag` may stand in a tag.
pub fn all_tag_chars(tag: &Vec<char>) -> (b: bool)
    ensures
        b == is_tag(tag@),
{
    let mut i: usize = 0;
    while i < tag.len()
        invariant
            i <= tag.len(),
            forall|j: int| 0 <= j < i ==> is_tag_char(#[trigger] tag@[j]),
        decreases tag.len() - i,
    {
        if !tag_char(tag[i]) {
            return false;
        }
        i += 1;
    }
    true
}

/// The character of the decimal digit `d`.
pub fn digit_of(d: u64) -> (c: char)
    requires
        d < 10,
    ensures
        c == digit_char(d as nat),
{
    if d == 0 {
        '0'
    } else if d == 1 {
        '1'
    } else if d == 2 {
        '2'
    } else if d == 3 {
        '3'
    } else if d == 4 {
        '4'
    } else if d == 5 {
        '5'
    } else if d == 6 {
        '6'
    } else if d == 7 {
        '7'
    } else if d == 8 {
        '8'
    } else {
        '9'
    }
}

/// Appends `n` in decimal to `out`.
pub fn push_decimal(out: &mut Vec<char>, n: u64)
    ensures
        final(out)@ == old(out)@ + decimal(n as nat),
    decreases n,
{
    if n >= 10 {
        push_decimal(out, n / 10);
    }
    out.push(digit_of(n % 10));
    assert(out@ =~= old(out)@ + decimal(n as nat));
}

/// The compatibility string of `version`: builds with different strings
/// never share a data directory.
pub fn breaking_app_version(version: &AppVersion) -> (r: Result<String, AppError>)
    ensures
        r is Ok,
        r->Ok_0@ == version.compatibility(),
{
    if version.pre.as_str().unicode_len() > 0 {
        return Ok(version.to_text());
    }
    let mut out: Vec<char> = Vec::new();
    proof {
        reveal_strlit("0.0.");
        reveal_strlit("0.");
        reveal_strlit(".x");
        reveal_strlit(".x.x");
    }
    if version.major == 0 {
        if version.minor == 0 {
            out.push('0');
            out.push('.');
            out.push('0');
            out.push('.');
            push_decimal(&mut out, version.patch);
            assert(out@ =~= "0.0."@ + decimal(version.patch as nat));
        } else {
            out.push('0');
            out.push('.');
            push_decimal(&mut out, version.minor);
            out.push('.');
            out.push('x');
            assert(out@ =~= "0."@ + decimal(version.minor as nat) + ".x"@);
        }
    } else {
        push_decimal(&mut out, version.major);
        out.push('.');
        out.push('x');
        out.push('.');
        out.push('x');
        assert(out@ =~= decimal(version.major as nat) + ".x.x"@);
    }
    Ok(to_text(&out))
}

/// A decimal number is not empty and is made of digits, which may stand
/// in a tag.
pub proof fn lemma_decimal_chars(n: nat)
    ensures
        decimal(n).len() > 0,
        is_tag(decimal(n)),
        forall|i: int| 0 <= i < decimal(n).len() ==> '0' <= #[trigger] decimal(n)[i] <= '9',
    decreases n,
{
    if n >= 10 {
        lemma_decimal_chars(n / 10);
    }
}

/// A decimal number above zero does not begin with a zero.
pub proof fn lemma_decimal_leading(n: nat)
    requires
        n > 0,
    ensures
        decimal(n)[0] != '0',
    decreases n,
{
    if n >= 10 {
        lemma_decimal_leading(n / 10);
        lemma_decimal_chars(n / 10);
        assert(decimal(n)[0] == decimal(n / 10)[0]);
    }
}

/// Different numbers are written differently.
pub proof fn lemma_decimal_injective(a: nat, b: nat)
    requires
        decimal(a) == decimal(b),
    ensures
        a == b,
    decreases a,
{
    lemma_decimal_chars(a / 10);
    lemma_decimal_chars(b / 10);
    if a < 10 && b < 10 {
        assert(decimal(a)[0] == digit_char(a));
        assert(decimal(b)[0] == digit_char(b));
        assert(a == b);
    } else if a < 10 {
        assert(decimal(a).len() == 1);
        assert(decimal(b).len() == decimal(b / 10).len() + 1);
        assert(false);
    } else if b < 10 {
        assert(decimal(b).len() == 1);
        assert(decimal(a).len() == decimal(a / 10).len() + 1);
        assert(false);
    } else {
        assert(decimal(a).drop_last() =~= decimal(a / 10));
        assert(decimal(b).drop_last() =~= decimal(b / 10));
        lemma_decimal_injective(a / 10, b / 10);
        assert(decimal(a).last() == digit_char(a % 10));
        assert(decimal(b).last() == digit_char(b % 10));
        assert(a % 10 == b % 10);
        assert(a == 10 * (a / 10) + a % 10);
        assert(b == 10 * (b / 10) + b % 10);
        assert(a == b);
    }
}

/// The same text before or after two texts does not make them equal.
proof fn lemma_framed_equal(before: Seq<char>, a: Seq<char>, b: Seq<char>, after: Seq<char>)
    requires
        before + a + after == before + b + after,
    ensures
        a == b,
{
    let x = before + a + after;
    let y = before + b + after;
    assert(x.len() == y.len());
    assert(a =~= x.subrange(before.len() as int, (before.len() + a.len()) as int));
    assert(b =~= y.subrange(before.len() as int, (before.len() + b.len()) as int));
}

/// When two releases share their data: from `1.0.0` on, those with the
/// same major number; below that, those with the same minor number; below
/// `0.1.0`, only those with the same patch number. Build metadata makes no
/// difference.
pub proof fn lemma_releases_share(a: AppVersion, b: AppVersion)
    requires
        a.pre@.len() == 0,
        b.pre@.len() == 0,
    ensures
        a.compatibility() == b.compatibility() <==> (if a.major > 0 || b.major > 0 {
            a.major == b.major
        } else if a.minor > 0 || b.minor > 0 {
            a.minor == b.minor
        } else {
            a.patch == b.patch
        }),
{
    reveal_strlit("0.0.");
    reveal_strlit("0.");
    reveal_strlit(".x");
    reveal_strlit(".x.x");
    let ca = a.compatibility();
    let cb = b.compatibility();
    let empty = Seq::<char>::empty();
    lemma_decimal_chars(a.major as nat);
    lemma_decimal_chars(b.major as nat);
    lemma_decimal_chars(a.minor as nat);
    lemma_decimal_chars(b.minor as nat);
    if a.major > 0 && b.major > 0 {
        if ca == cb {
            assert(ca =~= empty + decimal(a.major as nat) + ".x.x"@);
            assert(cb =~= empty + decimal(b.major as nat) + ".x.x"@);
            lemma_framed_equal(empty, decimal(a.major as nat), decimal(b.major as nat), ".x.x"@);
            lemma_decimal_injective(a.major as nat, b.major as nat);
        }
    } else if a.major > 0 {
        lemma_decimal_leading(a.major as nat);
        assert(ca[0] == decimal(a.major as nat)[0]);
        assert(cb[0] == '0');
    } else if b.major > 0 {
        lemma_decimal_leading(b.major as nat);
        assert(cb[0] == decimal(b.major as nat)[0]);
        assert(ca[0] == '0');
    } else if a.minor > 0 && b.minor > 0 {
        if ca == cb {
            lemma_framed_equal("0."@, decimal(a.minor as nat), decimal(b.minor as nat), ".x"@);
            lemma_decimal_injective(a.minor as nat, b.minor as nat);
        }
    } else if a.minor > 0 {
        lemma_decimal_leading(a.minor as nat);
        assert(ca[2] == decimal(a.minor as nat)[0]);
        assert(cb[2] == '0');
    } else if b.minor > 0 {
        lemma_decimal_leading(b.minor as nat);
        assert(cb[2] == decimal(b.minor as nat)[0]);
        assert(ca[2] == '0');
    } else {
        if ca == cb {
            assert(ca =~= "0.0."@ + decimal(a.patch as nat) + empty);
            assert(cb =~= "0.0."@ + decimal(b.patch as nat) + empty);
            lemma_framed_equal("0.0."@, decimal(a.patch as nat), decimal(b.patch as nat), empty);
            lemma_decimal_injective(a.patch as nat, b.patch as nat);
        }
    }
}

/// A pre-release shares its data with no release.
pub proof fn lemma_pre_release_stands_apart(pre_release: AppVersion, release: AppVersion)
    requires
        pre_release.pre@.len() > 0,
        release.pre@.len() == 0,
    ensures
        pre_release.compatibility() != release.compatibility(),
{
    reveal_strlit("0.0.");
    reveal_strlit("0.");
    reveal_strlit(".x");
    reveal_strlit(".x.x");
    let major = decimal(pre_release.major as nat);
    let minor = decimal(pre_release.minor as nat);
    let patch = decimal(pre_release.patch as nat);
    lemma_decimal_chars(release.major as nat);
    lemma_decimal_chars(release.minor as nat);
    lemma_decimal_chars(release.patch as nat);
    let cp = pre_release.compatibility();
    let cr = release.compatibility();
    let core = core_text(
        pre_release.major as nat,
        pre_release.minor as nat,
        pre_release.patch as nat,
    );
    let at = core.len() as int;
    assert(cp[at] == '-');
    if cp == cr {
        let r_major = decimal(release.major as nat);
        let r_minor = decimal(release.minor as nat);
        let r_patch = decimal(release.patch as nat);
        if release.major > 0 {
            assert(cr.len() == r_major.len() + 4);
            if at < r_major.len() {
                assert(cr[at] == r_major[at]);
            } else {
                assert(cr[at] == ".x.x"@[at - r_major.len()]);
            }
        } else if release.minor > 0 {
            assert(cr.len() == 2 + r_minor.len() + 2);
            if at < 2 {
                assert(cr[at] == "0."@[at]);
            } else if at < 2 + r_minor.len() {
                assert(cr[at] == r_minor[at - 2]);
            } else {
                assert(cr[at] == ".x"@[at - 2 - r_minor.len()]);
            }
        } else {
            assert(cr.len() == 4 + r_patch.len());
            if at < 4 {
                assert(cr[at] == "0.0."@[at]);
            } else {
                assert(cr[at] == r_patch[at - 4]);
            }
        }
    }
}

/// Two texts that are cut at the first occurrence of a character agree
/// only if they agree before and after it.
proof fn lemma_split_at_first(
    c: char,
    x1: Seq<char>,
    y1: Seq<char>,
    x2: Seq<char>,
    y2: Seq<char>,
)
    requires
        !contains_char(x1, c),
        !contains_char(x2, c),
        x1 + seq![c] + y1 == x2 + seq![c] + y2,
    ensures
        x1 == x2,
        y1 == y2,
{
    let t1 = x1 + seq![c] + y1;
    let t2 = x2 + seq![c] + y2;
    assert(t1[x1.len() as int] == c);
    assert(t2[x2.len() as int] == c);
    if x1.len() < x2.len() {
        assert(t2[x1.len() as int] == x2[x1.len() as int]);
    }
    if x2.len() < x1.len() {
        assert(t1[x2.len() as int] == x1[x2.len() as int]);
    }
    assert(x1 =~= t1.subrange(0, x1.len() as int));
    assert(x2 =~= t2.subrange(0, x2.len() as int));
    assert(y1 =~= t1.subrange(x1.len() as int + 1, t1.len() as int));
    assert(y2 =~= t2.subrange(x2.len() as int + 1, t2.len() as int));
}

/// The three numbers can be read off their text.
proof fn lemma_core_text_injective(
    major_a: nat,
    minor_a: nat,
    patch_a: nat,
    major_b: nat,
    minor_b: nat,
    patch_b: nat,
)
    requires
        core_text(major_a, minor_a, patch_a) == core_text(major_b, minor_b, patch_b),
    ensures
        major_a == major_b,
        minor_a == minor_b,
        patch_a == patch_b,
{
    lemma_decimal_chars(major_a);
    lemma_decimal_chars(major_b);
    lemma_decimal_chars(minor_a);
    lemma_decimal_chars(minor_b);
    let rest_a = decimal(minor_a) + seq!['.'] + decimal(patch_a);
    let rest_b = decimal(minor_b) + seq!['.'] + decimal(patch_b);
    assert(core_text(major_a, minor_a, patch_a) =~= decimal(major_a) + seq!['.'] + rest_a);
    assert(core_text(major_b, minor_b, patch_b) =~= decimal(major_b) + seq!['.'] + rest_b);
    lemma_split_at_first('.', decimal(major_a), rest_a, decimal(major_b), rest_b);
    lemma_split_at_first(
        '.',
        decimal(minor_a),
        decimal(patch_a),
        decimal(minor_b),
        decimal(patch_b),
    );
    lemma_decimal_injective(major_a, major_b);
    lemma_decimal_injective(minor_a, minor_b);
    lemma_decimal_injective(patch_a, patch_b);
}

/// What follows the numbers in the full text of a version.
spec fn tail_text(pre: Seq<char>, build: Seq<char>) -> Seq<char> {
    pre + (if build.len() > 0 {
        seq!['+'] + build
    } else {
        Seq::empty()
    })
}

/// The tag and the metadata can be read off what follows the numbers.
proof fn lemma_tail_text_injective(
    pre_a: Seq<char>,
    build_a: Seq<char>,
    pre_b: Seq<char>,
    build_b: Seq<char>,
)
    requires
        is_tag(pre_a),
        is_tag(pre_b),
        tail_text(pre_a, build_a) == tail_text(pre_b, build_b),
    ensures
        pre_a == pre_b,
        build_a == build_b,
{
    let ta = tail_text(pre_a, build_a);
    let tb = tail_text(pre_b, build_b);
    assert(forall|i: int| 0 <= i < pre_a.len() ==> is_tag_char(pre_a[i]));
    assert(forall|i: int| 0 <= i < pre_b.len() ==> is_tag_char(pre_b[i]));
    if build_a.len() > 0 && build_b.len() > 0 {
        assert(ta =~= pre_a + seq!['+'] + build_a);
        assert(tb =~= pre_b + seq!['+'] + build_b);
        lemma_split_at_first('+', pre_a, build_a, pre_b, build_b);
    } else if build_a.len() > 0 {
        assert(tb =~= pre_b);
        assert(ta[pre_a.len() as int] == '+');
        assert(is_tag_char(pre_b[pre_a.len() as int]));
    } else if build_b.len() > 0 {
        assert(ta =~= pre_a);
        assert(tb[pre_b.len() as int] == '+');
        assert(is_tag_char(pre_a[pre_b.len() as int]));
    } else {
        assert(ta =~= pre_a);
        assert(tb =~= pre_b);
        assert(build_a =~= build_b);
    }
}

/// Two pre-releases share their data only if they are the same version:
/// the same numbers, the same tag and the same build metadata.
pub proof fn lemma_pre_releases_share(a: AppVersion, b: AppVersion)
    requires
        a.wf(),
        b.wf(),
        a.pre@.len() > 0,
        b.pre@.len() > 0,
    ensures
        a.compatibility() == b.compatibility() <==> (a.major == b.major && a.minor == b.minor
            && a.patch == b.patch && a.pre@ == b.pre@ && a.build@ == b.build@),
{
    if a.compatibility() == b.compatibility() {
        let core_a = core_text(a.major as nat, a.minor as nat, a.patch as nat);
        let core_b = core_text(b.major as nat, b.minor as nat, b.patch as nat);
        let tail_a = tail_text(a.pre@, a.build@);
        let tail_b = tail_text(b.pre@, b.build@);
        lemma_decimal_chars(a.major as nat);
        lemma_decimal_chars(a.minor as nat);
        lemma_decimal_chars(a.patch as nat);
        lemma_decimal_chars(b.major as nat);
        lemma_decimal_chars(b.minor as nat);
        lemma_decimal_chars(b.patch as nat);
        assert(a.compatibility() =~= core_a + seq!['-'] + tail_a);
        assert(b.compatibility() =~= core_b + seq!['-'] + tail_b);
        lemma_split_at_first('-', core_a, tail_a, core_b, tail_b);
        lemma_core_text_injective(
            a.major as nat,
            a.minor as nat,
            a.patch as nat,
            b.major as nat,
            b.minor as nat,
            b.patch as nat,
        );
        lemma_tail_text_injective(a.pre@, a.build@, b.pre@, b.build@);
    }
}

/// A compatibility string is not empty and holds no path separator, so it
/// names exactly one directory level.
pub proof fn lemma_compatibility_is_one_level(v: AppVersion)
    requires
        v.wf(),
    ensures
        v.compatibility().len() > 0,
        !contains_char(v.compatibility(), '/'),
{
    reveal_strlit("0.0.");
    reveal_strlit("0.");
    reveal_strlit(".x");
    reveal_strlit(".x.x");
    lemma_decimal_chars(v.major as nat);
    lemma_decimal_chars(v.minor as nat);
    lemma_decimal_chars(v.patch as nat);
    let c = v.compatibility();
    assert forall|i: int| 0 <= i < c.len() implies c[i] != '/' by {
        let major = decimal(v.major as nat);
        let minor = decimal(v.minor as nat);
        let patch = decimal(v.patch as nat);
        if v.pre@.len() > 0 {
            let core = core_text(v.major as nat, v.minor as nat, v.patch as nat);
            assert forall|j: int| 0 <= j < core.len() implies core[j] != '/' by {
                if j < major.len() {
                    assert(is_tag_char(major[j]));
                } else if j == major.len() {
                } else if j < major.len() + 1 + minor.len() {
                    assert(is_tag_char(minor[j - major.len() - 1]));
                } else if j == major.len() + 1 + minor.len() {
                } else {
                    assert(is_tag_char(patch[j - major.len() - minor.len() - 2]));
                }
            }
            let with_pre = core + (seq!['-'] + v.pre@);
            if i < core.len() {
            } else if i == core.len() {
            } else if i < with_pre.len() {
                assert(is_tag_char(v.pre@[i - core.len() - 1]));
            } else if i == with_pre.len() {
            } else {
                assert(is_tag_char(v.build@[i - with_pre.len() - 1]));
            }
        } else if v.major == 0 && v.minor == 0 {
            if i >= 4 {
                assert(is_tag_char(patch[i - 4]));
            }
        } else if v.major == 0 {
            if 2 <= i < 2 + minor.len() {
                assert(is_tag_char(minor[i - 2]));
            }
        } else {
            if i < major.len() {
                assert(is_tag_char(major[i]));
            }
        }
    }
}

} // verus!

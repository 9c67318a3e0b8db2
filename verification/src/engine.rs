//! Engine-installation helpers: which directories an installation scan
//! skips, what counts as an engine root, and the display label of a
//! detected installation.  The scanning itself is filesystem work done by
//! the front end, which hands names and existence facts to these
//! functions.

use vstd::prelude::*;
use vstd::string::*;

use crate::text::{char_eq_nocase, eq_nocase, seq_eq_nocase, str_eq_nocase};

verus! {

/// Directory names an installation scan ignores, compared up to ASCII
/// case: launcher and redistributable directories that are never engine
/// roots.
pub open spec fn spec_should_skip(name: Seq<char>) -> bool {
    seq_eq_nocase(name, "launcher"@) || seq_eq_nocase(name, "epicgameslauncher"@) || seq_eq_nocase(
        name,
        "epic games launcher"@,
    ) || seq_eq_nocase(name, "epic online services"@) || seq_eq_nocase(name, "directxredist"@)
        || seq_eq_nocase(name, "vcredist"@)
}

/// Whether an installation scan skips the directory `name`.
pub fn should_skip_directory(name: &str) -> (r: bool)
    ensures
        r == spec_should_skip(name@),
{
    str_eq_nocase(name, "launcher") || str_eq_nocase(name, "epicgameslauncher") || str_eq_nocase(
        name,
        "epic games launcher",
    ) || str_eq_nocase(name, "epic online services") || str_eq_nocase(name, "directxredist")
        || str_eq_nocase(name, "vcredist")
}

/// Whether a directory is an engine root, judged from what exists under
/// it: it must hold an `Engine` directory with a `Binaries` or a `Build`
/// directory inside.
pub fn is_engine_root(
    engine_dir_exists: bool,
    binaries_dir_exists: bool,
    build_dir_exists: bool,
) -> (r: bool)
    ensures
        r == (engine_dir_exists && (binaries_dir_exists || build_dir_exists)),
{
    engine_dir_exists && (binaries_dir_exists || build_dir_exists)
}

/// The display label of a detected installation: the version when one is
/// known, the directory name in parentheses otherwise, and the bare
/// product name when there is neither.
pub fn format_label(name: &str, version: &Option<String>) -> (r: String)
    ensures
        version matches Some(v) ==> r@ == "Unreal Engine "@ + v@,
        version is None && name@.len() > 0 ==> r@ == "Unreal Engine ("@ + name@ + ")"@,
        version is None && name@.len() == 0 ==> r@ == "Unreal Engine"@,
{
    match version {
        Some(v) => String::from_str("Unreal Engine ").concat(v.as_str()),
        None => {
            if name.unicode_len() > 0 {
                let r = String::from_str("Unreal Engine (").concat(name).concat(")");
                proof {
                    assert(r@ =~= "Unreal Engine ("@ + name@ + ")"@);
                }
                r
            } else {
                String::from_str("Unreal Engine")
            }
        },
    }
}

/// An ASCII decimal digit.
pub open spec fn is_digit(c: char) -> bool {
    0x30 <= c as u32 && c as u32 <= 0x39
}

/// Exec test for [`is_digit`].
pub fn char_is_digit(c: char) -> (r: bool)
    ensures
        r == is_digit(c),
{
    let u = c as u32;
    0x30 <= u && u <= 0x39
}

/// A version number marked by the product prefix starts at `i`: `ue`
/// (up to ASCII case), an underscore or hyphen, and a digit.
pub open spec fn ue_prefix_at(s: Seq<char>, i: int) -> bool {
    &&& 0 <= i
    &&& i + 4 <= s.len()
    &&& eq_nocase(s[i], 'u')
    &&& eq_nocase(s[i + 1], 'e')
    &&& (s[i + 2] == '_' || s[i + 2] == '-')
    &&& is_digit(s[i + 3])
}

/// The end of the digit run starting at `j`.
pub open spec fn digits_end(s: Seq<char>, j: int) -> int
    decreases s.len() - j,
{
    if 0 <= j < s.len() && is_digit(s[j]) {
        digits_end(s, j + 1)
    } else {
        j
    }
}

/// A digit run never runs backwards or past the end.
proof fn lemma_digits_end_bounds(s: Seq<char>, j: int)
    requires
        0 <= j <= s.len(),
    ensures
        j <= digits_end(s, j) <= s.len(),
    decreases s.len() - j,
{
    if j < s.len() && is_digit(s[j]) {
        lemma_digits_end_bounds(s, j + 1);
    }
}

/// The end of a version number starting at `j`: the digit run, extended
/// greedily by every `.` that is followed by another digit run.
pub open spec fn version_end(s: Seq<char>, j: int) -> int
    decreases s.len() - j,
    via version_end_decreases
{
    if 0 <= j <= s.len() {
        let k = digits_end(s, j);
        if k + 1 < s.len() && s[k] == '.' && is_digit(s[k + 1]) {
            version_end(s, k + 1)
        } else {
            k
        }
    } else {
        j
    }
}

#[via_fn]
proof fn version_end_decreases(s: Seq<char>, j: int) {
    if 0 <= j <= s.len() {
        lemma_digits_end_bounds(s, j);
    }
}

/// Scan the digit run starting at `j`.
fn scan_digits(name: &str, j: usize) -> (k: usize)
    requires
        j <= name@.len(),
    ensures
        k == digits_end(name@, j as int),
        j <= k <= name@.len(),
        k == name@.len() || !is_digit(name@[k as int]),
{
    let len = name.unicode_len();
    let mut k = j;
    while k < len && char_is_digit(name.get_char(k))
        invariant
            j <= k <= len,
            len == name@.len(),
            digits_end(name@, j as int) == digits_end(name@, k as int),
        decreases len - k,
    {
        k = k + 1;
    }
    k
}

/// Scan a version number starting at `j`.
fn scan_version(name: &str, j: usize) -> (k: usize)
    requires
        j <= name@.len(),
    ensures
        k == version_end(name@, j as int),
        j <= k <= name@.len(),
{
    let len = name.unicode_len();
    let mut cur = j;
    loop
        invariant
            j <= cur <= len,
            len == name@.len(),
            version_end(name@, j as int) == version_end(name@, cur as int),
        ensures
            cur <= len,
            cur == version_end(name@, j as int),
        decreases len - cur,
    {
        let k = scan_digits(name, cur);
        if k < len && name.get_char(k) == '.' && k + 1 < len && char_is_digit(
            name.get_char(k + 1),
        ) {
            cur = k + 1;
        } else {
            proof {
                assert(version_end(name@, cur as int) == k);
                assert(digits_end(name@, k as int) == k);
                assert(version_end(name@, k as int) == k);
            }
            cur = k;
            break ;
        }
    }
    cur
}

/// Pull a version number out of a directory name: the first number marked
/// with the product prefix (`UE_5.3`, `ue-4.27`) wins; otherwise the first
/// bare number in the name; otherwise nothing.
#[verifier::rlimit(50)]
pub fn parse_version_from_name(name: &str) -> (r: Option<String>)
    ensures
        (exists|i: int| ue_prefix_at(name@, i)) ==> (r matches Some(v) && exists|i: int|
            #[trigger] ue_prefix_at(name@, i) && (forall|i2: int|
                0 <= i2 < i ==> !ue_prefix_at(name@, i2)) && v@ == name@.subrange(
                i + 3,
                version_end(name@, i + 3),
            )),
        !(exists|i: int| ue_prefix_at(name@, i)) && (exists|i: int|
            0 <= i < name@.len() && is_digit(#[trigger] name@[i])) ==> (r matches Some(v)
            && exists|i: int|
            0 <= i < name@.len() && is_digit(#[trigger] name@[i]) && (forall|i2: int|
                0 <= i2 < i ==> !is_digit(name@[i2])) && v@ == name@.subrange(
                i,
                version_end(name@, i),
            )),
        !(exists|i: int| ue_prefix_at(name@, i)) && !(exists|i: int|
            0 <= i < name@.len() && is_digit(#[trigger] name@[i])) ==> r is None,
{
    let len = name.unicode_len();
    let mut i: usize = 0;
    while len >= 4 && i <= len - 4
        invariant
            len == name@.len(),
            i <= len,
            forall|i2: int| 0 <= i2 < i ==> !ue_prefix_at(name@, i2),
        decreases len - i,
    {
        let hit = char_eq_nocase(name.get_char(i), 'u') && char_eq_nocase(
            name.get_char(i + 1),
            'e',
        ) && (name.get_char(i + 2) == '_' || name.get_char(i + 2) == '-') && char_is_digit(
            name.get_char(i + 3),
        );
        if hit {
            assert(ue_prefix_at(name@, i as int));
            let end = scan_version(name, i + 3);
            let v = name.substring_char(i + 3, end).to_owned();
            proof {
                let iw = i as int;
                assert(#[trigger] ue_prefix_at(name@, iw) && (forall|i2: int|
                    0 <= i2 < iw ==> !ue_prefix_at(name@, i2)) && v@ == name@.subrange(
                    iw + 3,
                    version_end(name@, iw + 3),
                ));
            }
            return Some(v);
        }
        assert(!ue_prefix_at(name@, i as int));
        i = i + 1;
    }
    proof {
        assert forall|i2: int| !ue_prefix_at(name@, i2) by {
            if ue_prefix_at(name@, i2) {
                assert(0 <= i2 && i2 + 4 <= len);
            }
        }
    }
    let mut d: usize = 0;
    while d < len
        invariant
            len == name@.len(),
            d <= len,
            forall|i2: int| !ue_prefix_at(name@, i2),
            forall|i2: int| 0 <= i2 < d ==> !is_digit(name@[i2]),
        decreases len - d,
    {
        if char_is_digit(name.get_char(d)) {
            let end = scan_version(name, d);
            let v = name.substring_char(d, end).to_owned();
            proof {
                let dw = d as int;
                assert(0 <= dw < name@.len() && is_digit(#[trigger] name@[dw]) && (forall|
                    i2: int,
                |
                    0 <= i2 < dw ==> !is_digit(name@[i2])) && v@ == name@.subrange(
                    dw,
                    version_end(name@, dw),
                ));
            }
            return Some(v);
        }
        d = d + 1;
    }
    None
}

} // verus!

//! Editor target resolution: discover candidate target names from the files
//! of a project's `Source/` directory and pick the name to compile, honouring
//! a manual override and falling back to the name the naming convention
//! derives from the project file's stem.

use vstd::prelude::*;
use vstd::string::*;

use crate::text::{
    ends_with, ends_with_nocase, is_blank, lex_lt, str_ends_with, str_ends_with_nocase,
    str_is_blank, strictly_sorted, views, insert_sorted_unique,
};

verus! {

/// A source file whose name marks it as an editor target descriptor.
pub open spec fn is_target_file(f: Seq<char>) -> bool {
    ends_with(f, "Editor.Target.cs"@)
}

/// The target name a descriptor file stands for: the file name with the
/// trailing `.Target.cs` removed.
pub open spec fn target_of(f: Seq<char>) -> Seq<char> {
    f.take(f.len() - ".Target.cs"@.len())
}

/// `t` is one of the target names discovered among `files`.
pub open spec fn is_target_name(files: Seq<Seq<char>>, t: Seq<char>) -> bool {
    exists|i: int|
        0 <= i < files.len() && is_target_file(#[trigger] files[i]) && target_of(files[i]) == t
}

/// No file in `files` is a target descriptor.
pub open spec fn no_target_names(files: Seq<Seq<char>>) -> bool {
    forall|i: int| 0 <= i < files.len() ==> !is_target_file(#[trigger] files[i])
}

/// `t` is the only target name discovered among `files`.
pub open spec fn unique_target_name(files: Seq<Seq<char>>, t: Seq<char>) -> bool {
    is_target_name(files, t) && forall|u: Seq<char>| is_target_name(files, u) ==> u == t
}

/// Two or more distinct target names are discovered among `files`.
pub open spec fn multiple_target_names(files: Seq<Seq<char>>) -> bool {
    exists|t: Seq<char>, u: Seq<char>|
        is_target_name(files, t) && is_target_name(files, u) && t != u
}

/// The name the naming convention expects: the project file's stem with
/// `Editor` appended, unless the stem already ends in `editor` up to ASCII
/// case.
pub open spec fn expected_target_name(stem: Seq<char>) -> Seq<char> {
    if ends_with_nocase(stem, "editor"@) {
        stem
    } else {
        stem + "Editor"@
    }
}

/// An override is in effect when it is present and non-blank.
pub open spec fn override_active(o: Option<String>) -> bool {
    match o {
        Some(s) => !is_blank(s@),
        None => false,
    }
}

/// Resolution failed because several targets were discovered and none
/// matches the convention-derived name; the caller must pick one.
#[derive(Debug, Clone)]
pub struct AmbiguousTargets {
    /// All discovered target names, sorted and deduplicated.
    pub candidates: Vec<String>,
}

/// The convention-derived target name for a project file stem.
pub fn expected_target(stem: &str) -> (r: String)
    ensures
        r@ == expected_target_name(stem@),
{
    if str_ends_with_nocase(stem, "editor") {
        stem.to_owned()
    } else {
        stem.to_owned().concat("Editor")
    }
}

/// Scan a list of file names for editor target descriptors and return the
/// target names they stand for, sorted and deduplicated.
pub fn discover_editor_targets(file_names: &Vec<String>) -> (r: Vec<String>)
    ensures
        strictly_sorted(views(r@)),
        forall|t: Seq<char>| views(r@).contains(t) <==> is_target_name(views(file_names@), t),
{
    proof {
        reveal_strlit("Editor.Target.cs");
        reveal_strlit(".Target.cs");
    }
    let ghost fs = views(file_names@);
    let mut out: Vec<String> = Vec::new();
    let mut i: usize = 0;
    while i < file_names.len()
        invariant
            i <= file_names.len(),
            fs == views(file_names@),
            fs.len() == file_names@.len(),
            strictly_sorted(views(out@)),
            forall|t: Seq<char>| views(out@).contains(t) <==> is_target_name(fs.take(i as int), t),
        decreases file_names.len() - i,
    {
        let ghost prefix = fs.take(i as int);
        let ghost prefix1 = fs.take(i + 1);
        proof {
            reveal_strlit("Editor.Target.cs");
            reveal_strlit(".Target.cs");
            assert(fs[i as int] == file_names@[i as int]@);
            assert forall|t: Seq<char>|
                is_target_name(prefix1, t) <==> (is_target_name(prefix, t) || (is_target_file(
                    fs[i as int],
                ) && target_of(fs[i as int]) == t)) by {
                if is_target_name(prefix1, t) {
                    let k = choose|k: int|
                        0 <= k < prefix1.len() && is_target_file(prefix1[k]) && target_of(
                            prefix1[k],
                        ) == t;
                    if k < i as int {
                        assert(prefix[k] == prefix1[k]);
                        assert(is_target_name(prefix, t));
                    } else {
                        assert(prefix1[k] == fs[i as int]);
                    }
                }
                if is_target_name(prefix, t) {
                    let k = choose|k: int|
                        0 <= k < prefix.len() && is_target_file(prefix[k]) && target_of(prefix[k])
                            == t;
                    assert(prefix1[k] == prefix[k]);
                    assert(is_target_name(prefix1, t));
                }
                if is_target_file(fs[i as int]) && target_of(fs[i as int]) == t {
                    assert(prefix1[i as int] == fs[i as int]);
                    assert(is_target_name(prefix1, t));
                }
            }
        }
        let f: &String = &file_names[i];
        if str_ends_with(f.as_str(), "Editor.Target.cs") {
            let flen = f.as_str().unicode_len();
            assert(flen >= 16);
            let name = f.as_str().substring_char(0, flen - 10).to_owned();
            proof {
                assert(name@ =~= target_of(fs[i as int]));
            }
            insert_sorted_unique(&mut out, name);
        } else {
            assert(!is_target_file(fs[i as int]));
        }
        i = i + 1;
    }
    proof {
        assert(fs.take(fs.len() as int) =~= fs);
    }
    out
}

/// Pick the target name to compile.
///
/// A non-blank override wins outright, whatever the files say.  Otherwise
/// the discovered candidates decide: none means the convention-derived name,
/// exactly one is trusted even against the convention, and among several the
/// convention-derived name must itself be a candidate, or resolution fails
/// with the full candidate list.
pub fn resolve_target(
    stem: &str,
    target_override: &Option<String>,
    file_names: &Vec<String>,
) -> (r: Result<String, AmbiguousTargets>)
    ensures
        override_active(*target_override) ==> (r matches Ok(t) && Some(t) == *target_override),
        !override_active(*target_override) && no_target_names(views(file_names@)) ==> (r matches Ok(
            t,
        ) && t@ == expected_target_name(stem@)),
        !override_active(*target_override) && (exists|u: Seq<char>|
            unique_target_name(views(file_names@), u)) ==> (r matches Ok(t)
            && unique_target_name(views(file_names@), t@)),
        !override_active(*target_override) && multiple_target_names(views(file_names@))
            && is_target_name(views(file_names@), expected_target_name(stem@)) ==> (r matches Ok(t)
            && t@ == expected_target_name(stem@)),
        !override_active(*target_override) && multiple_target_names(views(file_names@))
            && !is_target_name(views(file_names@), expected_target_name(stem@)) ==> (r matches Err(
            e,
        ) && strictly_sorted(views(e.candidates@)) && (forall|t: Seq<char>|
            views(e.candidates@).contains(t) <==> is_target_name(views(file_names@), t))),
{
    if let Some(o) = target_override {
        if !str_is_blank(o.as_str()) {
            return Ok(o.clone());
        }
    }
    let ghost fs = views(file_names@);
    let candidates = discover_editor_targets(file_names);
    let expected = expected_target(stem);
    if candidates.len() == 0 {
        proof {
            assert forall|t: Seq<char>| !is_target_name(fs, t) by {
                if is_target_name(fs, t) {
                    assert(views(candidates@).contains(t));
                }
            }
            assert forall|i: int| 0 <= i < fs.len() implies !is_target_file(fs[i]) by {
                if is_target_file(fs[i]) {
                    assert(is_target_name(fs, target_of(fs[i])));
                }
            }
        }
        return Ok(expected);
    }
    if candidates.len() == 1 {
        let only = candidates[0].clone();
        proof {
            assert(views(candidates@)[0] == only@);
            assert(views(candidates@).contains(only@));
            assert(is_target_name(fs, only@));
            assert forall|u: Seq<char>| is_target_name(fs, u) implies u == only@ by {
                assert(views(candidates@).contains(u));
                let k = choose|k: int|
                    0 <= k < views(candidates@).len() && views(candidates@)[k] == u;
                assert(k == 0);
            }
            assert(unique_target_name(fs, only@));
        }
        return Ok(only);
    }
    proof {
        assert(views(candidates@).contains(views(candidates@)[0]));
        assert(views(candidates@).contains(views(candidates@)[1]));
        assert(lex_lt(views(candidates@)[0], views(candidates@)[1]));
        assert(is_target_name(fs, views(candidates@)[0]));
        assert(is_target_name(fs, views(candidates@)[1]));
        assert(multiple_target_names(fs));
        if exists|u: Seq<char>| unique_target_name(fs, u) {
            let u = choose|u: Seq<char>| unique_target_name(fs, u);
            assert(views(candidates@)[0] == u && views(candidates@)[1] == u);
        }
    }
    let mut found = false;
    let mut i: usize = 0;
    while i < candidates.len()
        invariant
            i <= candidates.len(),
            found <==> exists|k: int|
                0 <= k < i && views(candidates@)[k] == expected@,
        decreases candidates.len() - i,
    {
        if expected.eq(&candidates[i]) {
            proof {
                assert(views(candidates@)[i as int] == expected@);
            }
            found = true;
        }
        i = i + 1;
    }
    proof {
        if found {
            assert(views(candidates@).contains(expected@));
        } else {
            if views(candidates@).contains(expected@) {
                let k = choose|k: int|
                    0 <= k < views(candidates@).len() && views(candidates@)[k] == expected@;
                assert(false);
            }
        }
    }
    if found {
        Ok(expected)
    } else {
        Err(AmbiguousTargets { candidates })
    }
}

} // verus!

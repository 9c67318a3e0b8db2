//! Log-line handling: severity classification, the heuristic for
//! target-related build failures, sanitising raw process output (ANSI
//! escape sequences, control characters, trailing whitespace), and
//! shortening long paths for display.

use vstd::prelude::*;
use vstd::string::*;

use crate::text::{char_is_space, contains_nocase, is_space, str_contains_nocase};
use crate::types::{LogLine, LogLevel};

verus! {

/// The severity a line of build output is classified as, from the words it
/// contains (compared up to ASCII case): errors win over warnings, which
/// win over success markers; anything else is informational.
pub open spec fn spec_classify(s: Seq<char>) -> LogLevel {
    if contains_nocase(s, "error"@) || contains_nocase(s, "fatal"@) {
        LogLevel::Error
    } else if contains_nocase(s, "warning"@) || contains_nocase(s, "warn"@) {
        LogLevel::Warning
    } else if contains_nocase(s, "success"@) || contains_nocase(s, "complete"@) {
        LogLevel::Success
    } else {
        LogLevel::Info
    }
}

/// Classify a line of build output by severity.
pub fn classify_log_line(line: &str) -> (r: LogLevel)
    ensures
        r == spec_classify(line@),
{
    if str_contains_nocase(line, "error") || str_contains_nocase(line, "fatal") {
        LogLevel::Error
    } else if str_contains_nocase(line, "warning") || str_contains_nocase(line, "warn") {
        LogLevel::Warning
    } else if str_contains_nocase(line, "success") || str_contains_nocase(line, "complete") {
        LogLevel::Success
    } else {
        LogLevel::Info
    }
}

/// Whether a line of build output points at a target-name problem, so the
/// caller can offer to pick another editor target.
pub open spec fn spec_target_error(s: Seq<char>) -> bool {
    (contains_nocase(s, "couldn't find target rules file"@) || contains_nocase(
        s,
        "unable to find target"@,
    ) || contains_nocase(s, "no target name was specified"@) || contains_nocase(
        s,
        "target rules"@,
    ) || contains_nocase(s, "editor.target.cs"@)) && contains_nocase(s, "target"@)
}

/// Heuristic test for a target-related build failure in a log line.
pub fn looks_like_target_error(line: &str) -> (r: bool)
    ensures
        r == spec_target_error(line@),
{
    (str_contains_nocase(line, "couldn't find target rules file") || str_contains_nocase(
        line,
        "unable to find target",
    ) || str_contains_nocase(line, "no target name was specified") || str_contains_nocase(
        line,
        "target rules",
    ) || str_contains_nocase(line, "editor.target.cs")) && str_contains_nocase(line, "target")
}

/// A control character in the Unicode sense: the C0 and C1 ranges.
pub open spec fn is_control_char(c: char) -> bool {
    let u = c as u32;
    u < 0x20 || (0x7f <= u && u < 0xa0)
}

/// The rest of the input after an ANSI control sequence introduced by
/// `ESC [`: everything up to and including the first final byte
/// (`@` through `~`) is dropped.
pub open spec fn after_csi(s: Seq<char>) -> Seq<char>
    decreases s.len(),
{
    if s.len() == 0 {
        s
    } else if 0x40 <= s[0] as u32 && s[0] as u32 <= 0x7e {
        s.skip(1)
    } else {
        after_csi(s.skip(1))
    }
}

/// Dropping a control sequence never makes the input longer.
proof fn lemma_after_csi_len(s: Seq<char>)
    ensures
        after_csi(s).len() <= s.len(),
    decreases s.len(),
{
    if s.len() > 0 && !(0x40 <= s[0] as u32 && s[0] as u32 <= 0x7e) {
        lemma_after_csi_len(s.skip(1));
    }
}

/// The input with ANSI escape sequences removed, line breaks flattened to
/// spaces, tabs widened to four spaces and other control characters
/// dropped.
pub open spec fn stripped(s: Seq<char>) -> Seq<char>
    decreases s.len(),
    via stripped_decreases
{
    if s.len() == 0 {
        Seq::empty()
    } else if s[0] == '\u{1b}' {
        if s.len() >= 2 && s[1] == '[' {
            stripped(after_csi(s.skip(2)))
        } else {
            stripped(s.skip(1))
        }
    } else if s[0] == '\r' || s[0] == '\n' {
        seq![' '] + stripped(s.skip(1))
    } else if s[0] == '\t' {
        seq![' ', ' ', ' ', ' '] + stripped(s.skip(1))
    } else if is_control_char(s[0]) {
        stripped(s.skip(1))
    } else {
        seq![s[0]] + stripped(s.skip(1))
    }
}

#[via_fn]
proof fn stripped_decreases(s: Seq<char>) {
    if s.len() >= 2 {
        lemma_after_csi_len(s.skip(2));
    }
}

/// The input with trailing whitespace removed.
pub open spec fn trim_end(s: Seq<char>) -> Seq<char>
    decreases s.len(),
{
    if s.len() == 0 {
        s
    } else if is_space(s.last()) {
        trim_end(s.drop_last())
    } else {
        s
    }
}

/// What sanitising leaves of a raw output line.
pub open spec fn sanitized(s: Seq<char>) -> Seq<char> {
    trim_end(stripped(s))
}

/// Trimming to the last non-space boundary is exactly `trim_end`.
proof fn lemma_trim_end_take(s: Seq<char>, e: int)
    requires
        0 <= e <= s.len(),
        forall|j: int| e <= j < s.len() ==> is_space(#[trigger] s[j]),
        e > 0 ==> !is_space(s[e - 1]),
    ensures
        trim_end(s) == s.take(e),
    decreases s.len(),
{
    if s.len() == e {
        if e == 0 {
            assert(s.take(0) =~= s);
        } else {
            assert(!is_space(s.last()));
            assert(s.take(e) =~= s);
        }
    } else {
        assert(is_space(s.last()));
        let d = s.drop_last();
        assert(forall|j: int| e <= j < d.len() ==> is_space(#[trigger] d[j]));
        if e > 0 {
            assert(d[e - 1] == s[e - 1]);
        }
        lemma_trim_end_take(d, e);
        assert(d.take(e) =~= s.take(e));
    }
}

/// Scrub a raw line of process output for display: strip ANSI escape
/// sequences, flatten line breaks to spaces, widen tabs, drop other
/// control characters, and trim trailing whitespace.
pub fn sanitize_log_text(input: &str) -> (r: String)
    ensures
        r@ == sanitized(input@),
{
    let len = input.unicode_len();
    let mut out = String::new();
    let mut i: usize = 0;
    proof {
        assert(input@.skip(0) =~= input@);
        assert(out@ + stripped(input@) =~= stripped(input@));
    }
    while i < len
        invariant
            i <= len,
            len == input@.len(),
            out@ + stripped(input@.skip(i as int)) == stripped(input@),
        decreases len - i,
    {
        let ghost tail = input@.skip(i as int);
        proof {
            assert(tail.len() == len - i);
            assert(tail[0] == input@[i as int]);
            assert(tail.skip(1) =~= input@.skip(i + 1));
        }
        let c = input.get_char(i);
        if c == '\u{1b}' {
            if i + 1 < len && input.get_char(i + 1) == '[' {
                proof {
                    assert(tail[1] == input@[i + 1]);
                    assert(tail.skip(2) =~= input@.skip(i + 2));
                    assert(stripped(tail) == stripped(after_csi(input@.skip(i + 2))));
                }
                // Skip the control sequence, up to and including its final
                // byte.
                let mut j: usize = i + 2;
                let mut k: usize = len;
                let mut found = false;
                loop
                    invariant
                        i + 2 <= j <= len,
                        len == input@.len(),
                        !found ==> after_csi(input@.skip(i + 2)) == after_csi(
                            input@.skip(j as int),
                        ),
                        found ==> j < len && after_csi(input@.skip(i + 2)) == input@.skip(
                            j + 1,
                        ) && k == j + 1,
                        found ==> k <= len,
                    ensures
                        i + 2 <= k <= len,
                        after_csi(input@.skip(i + 2)) == input@.skip(k as int),
                    decreases len - j + (if found {
                        0int
                    } else {
                        1int
                    }),
                {
                    if found {
                        break ;
                    }
                    if j == len {
                        proof {
                            assert(input@.skip(j as int).len() == 0);
                            assert(input@.skip(j as int) =~= input@.skip(len as int));
                        }
                        k = len;
                        break ;
                    }
                    let d = input.get_char(j);
                    proof {
                        assert(input@.skip(j as int)[0] == input@[j as int]);
                        assert(input@.skip(j as int).skip(1) =~= input@.skip(j + 1));
                    }
                    if 0x40 <= d as u32 && d as u32 <= 0x7e {
                        k = j + 1;
                        found = true;
                    } else {
                        j = j + 1;
                    }
                }
                i = k;
                continue ;
            } else {
                proof {
                    if tail.len() >= 2 {
                        assert(tail[1] == input@[i + 1]);
                    }
                    assert(stripped(tail) == stripped(input@.skip(i + 1)));
                }
                i = i + 1;
                continue ;
            }
        }
        if c == '\r' || c == '\n' {
            proof {
                assert(stripped(tail) == seq![' '] + stripped(input@.skip(i + 1)));
            }
            out.append(" ");
            proof {
                reveal_strlit(" ");
                assert(" "@ =~= seq![' ']);
            }
        } else if c == '\t' {
            proof {
                assert(stripped(tail) == seq![' ', ' ', ' ', ' '] + stripped(input@.skip(i + 1)));
            }
            out.append("    ");
            proof {
                reveal_strlit("    ");
                assert("    "@ =~= seq![' ', ' ', ' ', ' ']);
            }
        } else if char_is_control(c) {
            proof {
                assert(stripped(tail) == stripped(input@.skip(i + 1)));
            }
        } else {
            proof {
                assert(stripped(tail) == seq![tail[0]] + stripped(input@.skip(i + 1)));
            }
            let piece = input.substring_char(i, i + 1);
            proof {
                assert(piece@ =~= seq![input@[i as int]]);
            }
            out.append(piece);
        }
        i = i + 1;
    }
    proof {
        assert(input@.skip(len as int).len() == 0);
        assert(stripped(input@.skip(len as int)) =~= Seq::empty());
        assert(out@ =~= stripped(input@));
    }
    // Trim trailing whitespace off the assembled line.
    let total = out.as_str().unicode_len();
    let mut e: usize = total;
    loop
        invariant
            0 <= e <= total,
            total == out@.len(),
            forall|j: int| e <= j < total ==> is_space(#[trigger] out@[j]),
        ensures
            0 <= e <= total,
            forall|j: int| e <= j < total ==> is_space(#[trigger] out@[j]),
            e > 0 ==> !is_space(out@[e - 1]),
        decreases e,
    {
        if e == 0 {
            break ;
        }
        if !char_is_space(out.as_str().get_char(e - 1)) {
            break ;
        }
        e = e - 1;
    }
    proof {
        lemma_trim_end_take(out@, e as int);
    }
    let r = out.as_str().substring_char(0, e).to_owned();
    proof {
        assert(r@ =~= out@.take(e as int));
    }
    r
}

/// Exec test for [`is_control_char`].
pub fn char_is_control(c: char) -> (r: bool)
    ensures
        r == is_control_char(c),
{
    let u = c as u32;
    u < 0x20 || (0x7f <= u && u < 0xa0)
}

/// A path shortened for display: kept whole when it fits, otherwise an
/// ellipsis followed by the tail that fits, or a bare prefix when even the
/// ellipsis would not fit.
pub open spec fn spec_truncate_path(s: Seq<char>, max_len: int) -> Seq<char> {
    if s.len() <= max_len {
        s
    } else if max_len > 5 {
        "..."@ + s.skip(s.len() - (max_len - 3))
    } else {
        s.take(max_len)
    }
}

/// Shorten a path to at most `max_len` characters for display.
pub fn truncate_path(path: &str, max_len: usize) -> (r: String)
    ensures
        r@ == spec_truncate_path(path@, max_len as int),
{
    let len = path.unicode_len();
    if len <= max_len {
        path.to_owned()
    } else if max_len > 5 {
        let tail = path.substring_char(len - (max_len - 3), len);
        let r = String::from_str("...").concat(tail);
        proof {
            assert(path@.subrange(len - (max_len - 3), len as int) =~= path@.skip(
                len - (max_len - 3),
            ));
        }
        r
    } else {
        let r = path.substring_char(0, max_len).to_owned();
        proof {
            assert(path@.subrange(0, max_len as int) =~= path@.take(max_len as int));
        }
        r
    }
}

/// Turn a raw line of process output into a log entry: scrub it, classify
/// what is left, and drop it when nothing is left.
pub fn make_log_line(raw: &str) -> (r: Option<LogLine>)
    ensures
        sanitized(raw@).len() == 0 ==> r is None,
        sanitized(raw@).len() > 0 ==> (r matches Some(l) && l.text@ == sanitized(raw@)
            && l.level == spec_classify(sanitized(raw@))),
{
    let text = sanitize_log_text(raw);
    if text.as_str().unicode_len() == 0 {
        return None;
    }
    let level = classify_log_line(text.as_str());
    Some(LogLine { text, level })
}

/// The index where a window of the `window` most recent entries starts.
pub open spec fn window_start(len: int, window: int) -> int {
    if len >= window {
        len - window
    } else {
        0
    }
}

/// Whether any of the `window` most recent log entries points at a
/// target-name problem; used after a failed build to offer picking
/// another editor target.
pub fn recent_target_error(entries: &Vec<LogLine>, window: usize) -> (r: bool)
    ensures
        r <==> exists|i: int|
            window_start(entries@.len() as int, window as int) <= i < entries@.len()
                && spec_target_error(#[trigger] entries@[i].text@),
{
    let len = entries.len();
    let mut k: usize = 0;
    while k < window && k < len
        invariant
            k <= len,
            len == entries@.len(),
            k <= window,
            forall|j: int|
                len - k <= j < len ==> !spec_target_error(#[trigger] entries@[j].text@),
        decreases len - k,
    {
        let idx = len - 1 - k;
        if looks_like_target_error(entries[idx].text.as_str()) {
            proof {
                assert(spec_target_error(entries@[idx as int].text@));
                assert(window_start(len as int, window as int) <= idx as int);
            }
            return true;
        }
        k = k + 1;
    }
    proof {
        assert forall|i: int|
            window_start(len as int, window as int) <= i < len implies !spec_target_error(
            #[trigger] entries@[i].text@,
        ) by {
            assert(len - k <= i);
        }
    }
    false
}

} // verus!


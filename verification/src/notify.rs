//! Notification decisions for a finished build: which sound belongs to
//! which outcome, whether the fallback beep is needed after a round of
//! playback attempts, and the walk up the process tree that finds the
//! windows to flash.
//!
//! Playing a sound, beeping and flashing are platform side effects and are
//! carried out by the front end; it hands the process snapshot and the
//! playback outcomes back to these functions.

use vstd::prelude::*;
use vstd::string::*;

verus! {

/// The side effects to perform when a build ends.
#[derive(Debug, Clone)]
pub struct Notification {
    /// File name of the sound to play, looked up near the executable and
    /// in the working directory.
    pub sound_file: String,
    /// Whether to flash the application's windows in the taskbar.
    pub flash_taskbar: bool,
}

/// The notification for a successful build.
pub fn on_build_success() -> (n: Notification)
    ensures
        n.sound_file@ == "completed.wav"@,
        n.flash_taskbar,
{
    Notification { sound_file: String::from_str("completed.wav"), flash_taskbar: true }
}

/// The notification for a failed build.
pub fn on_build_failed() -> (n: Notification)
    ensures
        n.sound_file@ == "fail.wav"@,
        n.flash_taskbar,
{
    Notification { sound_file: String::from_str("fail.wav"), flash_taskbar: true }
}

/// How one attempt to play a sound candidate went.
#[derive(Debug, Clone, Copy, PartialEq, Eq, Structural)]
pub enum SoundAttempt {
    /// The candidate file does not exist.
    NotPresent,
    /// The file exists but playback did not start.
    PlayFailed,
    /// Playback started; the search stops here.
    Played,
}

/// Judge a round of playback attempts: the sound counts as played when
/// some attempt succeeded; otherwise the caller falls back to the terminal
/// bell.
pub fn play_sound(attempts: &Vec<SoundAttempt>) -> (played: bool)
    ensures
        played <==> exists|i: int|
            0 <= i < attempts@.len() && #[trigger] attempts@[i] is Played,
{
    let mut i: usize = 0;
    while i < attempts.len()
        invariant
            i <= attempts@.len(),
            forall|j: int| 0 <= j < i ==> !(#[trigger] attempts@[j] is Played),
        decreases attempts@.len() - i,
    {
        if matches!(attempts[i], SoundAttempt::Played) {
            return true;
        }
        i = i + 1;
    }
    false
}

/// The parent recorded for `pid` in a process snapshot of
/// `(process, parent)` pairs: the first matching entry wins.
pub open spec fn first_parent(snapshot: Seq<(u32, u32)>, pid: u32) -> Option<u32>
    decreases snapshot.len(),
{
    if snapshot.len() == 0 {
        None
    } else if snapshot[0].0 == pid {
        Some(snapshot[0].1)
    } else {
        first_parent(snapshot.skip(1), pid)
    }
}

/// Look up the parent of `pid` in a process snapshot.
pub fn parent_of(snapshot: &Vec<(u32, u32)>, pid: u32) -> (r: Option<u32>)
    ensures
        r == first_parent(snapshot@, pid),
{
    let mut i: usize = 0;
    proof {
        assert(snapshot@.skip(0) =~= snapshot@);
    }
    while i < snapshot.len()
        invariant
            i <= snapshot@.len(),
            first_parent(snapshot@.skip(i as int), pid) == first_parent(snapshot@, pid),
        decreases snapshot@.len() - i,
    {
        proof {
            assert(snapshot@.skip(i as int)[0] == snapshot@[i as int]);
            assert(snapshot@.skip(i as int).skip(1) =~= snapshot@.skip(i + 1));
        }
        let (child, parent) = snapshot[i];
        if child == pid {
            return Some(parent);
        }
        i = i + 1;
    }
    proof {
        assert(snapshot@.skip(snapshot@.len() as int).len() == 0);
    }
    None
}

/// The chain of ancestors collected from a process snapshot: starting at
/// `cur`, follow parent links for at most `depth` steps, stopping at a
/// missing entry, the root (parent 0), a self-loop, or a cycle back into
/// what was already collected.
pub open spec fn ancestor_chain(
    snapshot: Seq<(u32, u32)>,
    cur: u32,
    depth: nat,
    acc: Seq<u32>,
) -> Seq<u32>
    decreases depth,
{
    if depth == 0 {
        acc
    } else {
        match first_parent(snapshot, cur) {
            None => acc,
            Some(p) => if p == 0 || p == cur || acc.contains(p) {
                acc
            } else {
                ancestor_chain(snapshot, p, (depth - 1) as nat, acc.push(p))
            },
        }
    }
}

/// Whether `v` holds `x`.
fn vec_contains_u32(v: &Vec<u32>, x: u32) -> (r: bool)
    ensures
        r == v@.contains(x),
{
    let mut i: usize = 0;
    while i < v.len()
        invariant
            i <= v@.len(),
            forall|j: int| 0 <= j < i ==> v@[j] != x,
        decreases v@.len() - i,
    {
        if v[i] == x {
            return true;
        }
        i = i + 1;
    }
    false
}

/// Walk up the process tree from `start_pid`, returning at most
/// `max_depth` ancestor process identifiers, nearest first.
pub fn get_ancestor_pids(snapshot: &Vec<(u32, u32)>, start_pid: u32, max_depth: usize) -> (r: Vec<
    u32,
>)
    ensures
        r@ == ancestor_chain(snapshot@, start_pid, max_depth as nat, Seq::empty()),
{
    let mut result: Vec<u32> = Vec::new();
    let mut current = start_pid;
    let mut steps: usize = 0;
    proof {
        assert(result@ =~= Seq::<u32>::empty());
    }
    loop
        invariant
            steps <= max_depth,
            ancestor_chain(snapshot@, current, (max_depth - steps) as nat, result@)
                == ancestor_chain(snapshot@, start_pid, max_depth as nat, Seq::empty()),
        ensures
            result@ == ancestor_chain(snapshot@, start_pid, max_depth as nat, Seq::empty()),
        decreases max_depth - steps,
    {
        if steps == max_depth {
            break ;
        }
        match parent_of(snapshot, current) {
            None => {
                break ;
            },
            Some(parent) => {
                if parent == 0 || parent == current || vec_contains_u32(&result, parent) {
                    break ;
                }
                result.push(parent);
                current = parent;
                steps = steps + 1;
            },
        }
    }
    result
}

} // verus!

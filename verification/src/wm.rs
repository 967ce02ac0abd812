//! Recognising the window manager in the output of the session query command.
//!
//! The menu runs one query command (`wmctrl -m`) and looks for a known window
//! manager name anywhere in its output. `Hyprland` is tried first, then
//! `LG3D` (the name qtile reports), then `dwm`; output matching none of them
//! is `Unknown`, and the session-dependent actions then do nothing.

use vstd::prelude::*;

verus! {

/// The window managers the dispatcher can recognise in the output of the
/// session query command; any other output maps to `Unknown`.
#[derive(Clone, Copy, PartialEq, Eq, Debug, Structural)]
pub enum WindowManager {
    Hyprland,
    Lg3d,
    Dwm,
    Unknown,
}

/// `needle` occurs in `haystack` starting at position `i`.
pub open spec fn matches_at(haystack: Seq<char>, needle: Seq<char>, i: int) -> bool {
    &&& 0 <= i
    &&& i + needle.len() <= haystack.len()
    &&& haystack.subrange(i, i + needle.len()) == needle
}

/// `needle` occurs contiguously somewhere in `haystack`.
pub open spec fn contains_seq(haystack: Seq<char>, needle: Seq<char>) -> bool {
    exists|i: int| matches_at(haystack, needle, i)
}

/// Which window manager a given query output names, first match first:
/// `Hyprland`, then `LG3D`, then `dwm`.
pub open spec fn spec_detect(out: Seq<char>) -> WindowManager {
    if contains_seq(out, "Hyprland"@) {
        WindowManager::Hyprland
    } else if contains_seq(out, "LG3D"@) {
        WindowManager::Lg3d
    } else if contains_seq(out, "dwm"@) {
        WindowManager::Dwm
    } else {
        WindowManager::Unknown
    }
}

/// Whether `needle` occurs at position `i` of `haystack`, by comparing
/// characters one by one.
fn matches_at_exec(haystack: &str, needle: &str, i: usize, n_len: usize) -> (r: bool)
    requires
        n_len == needle@.len(),
        i + n_len <= haystack@.len(),
        haystack@.len() <= usize::MAX,
    ensures
        r == matches_at(haystack@, needle@, i as int),
{
    let mut j: usize = 0;
    while j < n_len
        invariant
            n_len == needle@.len(),
            i + n_len <= haystack@.len(),
            haystack@.len() <= usize::MAX,
            j <= n_len,
            forall|k: int| 0 <= k < j ==> haystack@[i + k] == needle@[k],
        decreases n_len - j,
    {
        if haystack.get_char(i + j) != needle.get_char(j) {
            proof {
                if matches_at(haystack@, needle@, i as int) {
                    assert(haystack@.subrange(i as int, i + needle@.len())[j as int]
                        == needle@[j as int]);
                }
            }
            return false;
        }
        j = j + 1;
    }
    proof {
        assert(haystack@.subrange(i as int, i + needle@.len()) =~= needle@);
    }
    true
}

/// Substring test: true exactly when the characters of `needle` occur
/// contiguously in `haystack`.
pub fn contains_substring(haystack: &str, needle: &str) -> (r: bool)
    ensures
        r == contains_seq(haystack@, needle@),
{
    let h_len = haystack.unicode_len();
    let n_len = needle.unicode_len();
    if n_len == 0 {
        proof {
            assert(matches_at(haystack@, needle@, 0)) by {
                assert(haystack@.subrange(0, 0) =~= needle@);
            }
        }
        return true;
    }
    if n_len > h_len {
        return false;
    }
    let mut i: usize = 0;
    while i <= h_len - n_len
        invariant
            h_len == haystack@.len(),
            n_len == needle@.len(),
            0 < n_len <= h_len,
            i <= h_len - n_len + 1,
            forall|k: int| 0 <= k < i ==> !matches_at(haystack@, needle@, k),
        decreases h_len - n_len - i + 1,
    {
        if matches_at_exec(haystack, needle, i, n_len) {
            return true;
        }
        i = i + 1;
    }
    false
}

/// Reads the query command's output and names the window manager it reports:
/// `Hyprland`, `LG3D` and `dwm` are recognised, in that order of precedence,
/// anywhere in the output; anything else is `Unknown`.
pub fn detect_window_manager(out: &str) -> (wm: WindowManager)
    ensures
        wm == spec_detect(out@),
{
    if contains_substring(out, "Hyprland") {
        WindowManager::Hyprland
    } else if contains_substring(out, "LG3D") {
        WindowManager::Lg3d
    } else if contains_substring(out, "dwm") {
        WindowManager::Dwm
    } else {
        WindowManager::Unknown
    }
}

/// Detection selects the branch of the first recognised name that occurs in
/// the output — `Hyprland` before `LG3D` before `dwm` — and output in which
/// none occurs falls through to `Unknown`: detection never guesses.
pub proof fn lemma_detect_branches(out: Seq<char>)
    ensures
        contains_seq(out, "Hyprland"@) ==> spec_detect(out) == WindowManager::Hyprland,
        !contains_seq(out, "Hyprland"@) && contains_seq(out, "LG3D"@) ==> spec_detect(out)
            == WindowManager::Lg3d,
        !contains_seq(out, "Hyprland"@) && !contains_seq(out, "LG3D"@) && contains_seq(out, "dwm"@)
            ==> spec_detect(out) == WindowManager::Dwm,
        !contains_seq(out, "Hyprland"@) && !contains_seq(out, "LG3D"@) && !contains_seq(
            out,
            "dwm"@,
        ) ==> spec_detect(out) == WindowManager::Unknown,
{
}

} // verus!

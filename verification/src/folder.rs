//! The images of a folder: a snapshot sorted by file name, the current
//! image in it, and moving to the previous or next one.
use std::sync::Arc;
use vstd::prelude::*;
use vstd::arithmetic::div_mod::{lemma_mod_sub_multiples_vanish, lemma_small_mod};

use crate::commands::ImageNavigationDirection;
use crate::export::{is_supported_image_path, supported_format_of_path};
use crate::paths::{file_name_of, path_file_name, paths_equal, same_path};
use crate::settings::NavigationSettings;
use crate::shared::share;
use crate::text::{
    chars_equal, chars_le, chars_of, lemma_text_le_antisymmetric, lemma_text_le_total,
    lemma_text_le_transitive, lowercase_of, text_le, to_lowercase,
};

use crate::order::{lemma_order_unique, lists_in_order, strict_total_order};

verus! {

/// The most paths a folder snapshot keeps.
pub const MAX_IMAGE_FOLDER_SNAPSHOT_PATHS: usize = 20_000;

// ---------------------------------------------------------------------------
// Moving through the folder
// ---------------------------------------------------------------------------
/// The position `attempt + 1` steps from `current` in a folder of `len`
/// images: around the ends when `wrap`, and none past them otherwise. There is
/// none without a current position inside the folder, in a folder of fewer
/// than two images, or when the steps would reach the current image again.
pub open spec fn stepped_index(
    len: int,
    current: Option<int>,
    direction: ImageNavigationDirection,
    wrap: bool,
    attempt: int,
) -> Option<int> {
    match current {
        None => None,
        Some(c) => {
            let steps = attempt + 1;
            if len <= 1 || c < 0 || c >= len || steps > usize::MAX || steps >= len {
                None
            } else {
                match direction {
                    ImageNavigationDirection::Previous => if wrap {
                        Some((c + len - steps) % len)
                    } else if c >= steps {
                        Some(c - steps)
                    } else {
                        None
                    },
                    ImageNavigationDirection::Next => if wrap {
                        Some((c + steps) % len)
                    } else if c + steps < len {
                        Some(c + steps)
                    } else {
                        None
                    },
                }
            }
        },
    }
}

/// The spec view of an optional position.
pub open spec fn index_view(index: Option<usize>) -> Option<int> {
    match index {
        Some(i) => Some(i as int),
        None => None,
    }
}

pub fn navigation_index_for_attempt(
    len: usize,
    current_index: Option<usize>,
    direction: ImageNavigationDirection,
    wrap_navigation: bool,
    attempt_index: usize,
) -> (index: Option<usize>)
    ensures
        index_view(index) == stepped_index(len as int, index_view(current_index), direction, wrap_navigation, attempt_index as int),
{
    let current = match current_index {
        Some(c) => c,
        None => return None,
    };
    if len <= 1 || current >= len {
        return None;
    }
    if attempt_index == usize::MAX {
        return None;
    }
    let steps = attempt_index + 1;
    if steps >= len {
        return None;
    }
    match direction {
        ImageNavigationDirection::Previous => {
            if wrap_navigation {
                proof {
                    lemma_mod_once(current + len - steps, len as int);
                }
                if current >= steps {
                    Some(current - steps)
                } else {
                    Some(current + (len - steps))
                }
            } else if current >= steps {
                Some(current - steps)
            } else {
                None
            }
        },
        ImageNavigationDirection::Next => {
            if wrap_navigation {
                proof {
                    lemma_mod_once(current + steps, len as int);
                }
                let remaining = len - current;
                if steps < remaining {
                    Some(current + steps)
                } else {
                    Some(steps - remaining)
                }
            } else if steps < len - current {
                Some(current + steps)
            } else {
                None
            }
        },
    }
}

/// The position next to `current_index`, wrapping around the ends.
pub fn navigation_index(len: usize, current_index: Option<usize>, direction: ImageNavigationDirection) -> (index: Option<usize>)
    ensures
        index_view(index) == stepped_index(len as int, index_view(current_index), direction, true, 0),
{
    navigation_index_for_attempt(len, current_index, direction, true, 0)
}

/// The position next to `current_index`, wrapping around the ends when the
/// settings say so.
pub fn navigation_index_with_settings(
    len: usize,
    current_index: Option<usize>,
    direction: ImageNavigationDirection,
    settings: NavigationSettings,
) -> (index: Option<usize>)
    ensures
        index_view(index) == stepped_index(len as int, index_view(current_index), direction, settings.wrap_navigation(), 0),
{
    navigation_index_for_attempt(len, current_index, direction, settings.wrap_navigation(), 0)
}

/// `x % len` for `0 <= x < 2 * len`.
proof fn lemma_mod_once(x: int, len: int)
    requires
        0 < len,
        0 <= x < 2 * len,
    ensures
        x % len == if x < len {
            x
        } else {
            x - len
        },
{
    if x < len {
        lemma_small_mod(x as nat, len as nat);
    } else {
        lemma_mod_sub_multiples_vanish(x, len);
        lemma_small_mod((x - len) as nat, len as nat);
    }
}

/// In a folder of two or more images, one step forward and one step back
/// (or back and forward) returns to the same image when moving wraps, and
/// from any inner image when it does not.
pub proof fn law_step_and_back(len: int, current: int, wrap: bool)
    requires
        2 <= len <= usize::MAX,
        0 <= current < len,
    ensures
        (wrap || current + 1 < len) ==> (stepped_index(len, Some(current), ImageNavigationDirection::Next, wrap, 0)
            matches Some(n) && stepped_index(len, Some(n), ImageNavigationDirection::Previous, wrap, 0)
            == Some(current)),
        (wrap || current > 0) ==> (stepped_index(len, Some(current), ImageNavigationDirection::Previous, wrap, 0)
            matches Some(p) && stepped_index(len, Some(p), ImageNavigationDirection::Next, wrap, 0)
            == Some(current)),
{
    if wrap {
        lemma_mod_once(current + 1, len);
        let n = (current + 1) % len;
        lemma_mod_once(n + len - 1, len);
        lemma_mod_once(current + len - 1, len);
        let p = (current + len - 1) % len;
        lemma_mod_once(p + 1, len);
    }
}

/// Each attempt moves one image further, and every image other than the
/// current one is reached by exactly one attempt when moving wraps.
pub proof fn law_attempts_visit_every_other_image(len: int, current: int, attempt: int)
    requires
        2 <= len <= usize::MAX,
        0 <= current < len,
        0 <= attempt < len - 1,
    ensures
        stepped_index(len, Some(current), ImageNavigationDirection::Next, true, attempt) == Some(
            (current + attempt + 1) % len,
        ),
        stepped_index(len, Some(current), ImageNavigationDirection::Next, true, attempt) != Some(current),
        stepped_index(len, Some(current), ImageNavigationDirection::Next, true, len - 1) is None,
{
    lemma_mod_once(current + attempt + 1, len);
}

/// Moving back `attempt + 1` images and then forward as many returns to the
/// current image when moving wraps, and the images reached never include the
/// current one; without wrapping the move stops at the first or the last
/// image. So each backward retry goes one image further back, as each forward
/// one goes one further on.
pub proof fn law_backward_attempts_step_further_back(len: int, current: int, attempt: int)
    requires
        2 <= len <= usize::MAX,
        0 <= current < len,
        0 <= attempt < len - 1,
    ensures
        stepped_index(len, Some(current), ImageNavigationDirection::Previous, true, attempt) matches Some(p)
            && 0 <= p < len
            && stepped_index(len, Some(p), ImageNavigationDirection::Next, true, attempt) == Some(current),
        stepped_index(len, Some(current), ImageNavigationDirection::Next, true, attempt) matches Some(n)
            && stepped_index(len, Some(n), ImageNavigationDirection::Previous, true, attempt) == Some(current),
        stepped_index(len, Some(current), ImageNavigationDirection::Previous, true, attempt) != Some(current),
        current > attempt ==> stepped_index(len, Some(current), ImageNavigationDirection::Previous, false, attempt)
            == Some(current - attempt - 1),
        current <= attempt ==> stepped_index(len, Some(current), ImageNavigationDirection::Previous, false, attempt)
            is None,
        current + attempt + 1 < len ==> stepped_index(len, Some(current), ImageNavigationDirection::Next, false, attempt)
            == Some(current + attempt + 1),
        current + attempt + 1 >= len ==> stepped_index(len, Some(current), ImageNavigationDirection::Next, false, attempt)
            is None,
{
    let steps = attempt + 1;
    lemma_mod_once(current + len - steps, len);
    let p = (current + len - steps) % len;
    lemma_mod_once(p + steps, len);
    lemma_mod_once(current + steps, len);
    let n = (current + steps) % len;
    lemma_mod_once(n + len - steps, len);
}

/// Different attempts in one direction reach different images, whichever way
/// the folder is walked, so no retry lands on an image an earlier retry tried.
pub proof fn law_attempts_reach_distinct_images(
    len: int,
    current: int,
    direction: ImageNavigationDirection,
    wrap: bool,
    first: int,
    second: int,
)
    requires
        2 <= len <= usize::MAX,
        0 <= current < len,
        0 <= first < second < len - 1,
    ensures
        stepped_index(len, Some(current), direction, wrap, first) is Some ==> stepped_index(
            len,
            Some(current),
            direction,
            wrap,
            first,
        ) != stepped_index(len, Some(current), direction, wrap, second),
{
    lemma_mod_once(current + len - first - 1, len);
    lemma_mod_once(current + len - second - 1, len);
    lemma_mod_once(current + first + 1, len);
    lemma_mod_once(current + second + 1, len);
}

// ---------------------------------------------------------------------------
// Sorting by name
// ---------------------------------------------------------------------------
/// The texts of a sequence of character vectors.
pub open spec fn key_texts(keys: Seq<Vec<char>>) -> Seq<Seq<char>> {
    keys.map_values(|k: Vec<char>| k@)
}

/// Whether position `i` comes before position `j`: by key in code point
/// order, and by position when the keys are equal. This is the order of a
/// stable sort by key; it is strict, so no position comes before itself.
pub open spec fn precedes(keys: Seq<Seq<char>>, i: int, j: int) -> bool {
    ||| (text_le(keys[i], keys[j]) && keys[i] != keys[j])
    ||| (keys[i] == keys[j] && i < j)
}

/// `run` is strictly ascending under `precedes`.
pub open spec fn ascending(keys: Seq<Seq<char>>, run: Seq<usize>) -> bool {
    forall|a: int, b: int| 0 <= a < b < run.len() ==> precedes(keys, run[a] as int, run[b] as int)
}

/// `order` lists positions of `keys`, as many as there are keys, strictly
/// ascending by key and then position: the order a stable sort by key gives.
/// Being strict, it holds no position twice, so it holds each exactly once.
pub open spec fn is_stable_order(keys: Seq<Seq<char>>, order: Seq<usize>) -> bool {
    &&& order.len() == keys.len()
    &&& forall|k: int| 0 <= k < order.len() ==> order[k] < keys.len()
    &&& ascending(keys, order)
}

proof fn lemma_precedes_transitive(keys: Seq<Seq<char>>, a: int, b: int, c: int)
    requires
        precedes(keys, a, b),
        precedes(keys, b, c),
    ensures
        precedes(keys, a, c),
{
    if keys[a] != keys[b] && keys[b] != keys[c] {
        lemma_text_le_transitive(keys[a], keys[b], keys[c]);
        if keys[a] == keys[c] {
            lemma_text_le_antisymmetric(keys[a], keys[b]);
        }
    }
}

proof fn lemma_precedes_total(keys: Seq<Seq<char>>, a: int, b: int)
    requires
        a != b,
    ensures
        precedes(keys, a, b) || precedes(keys, b, a),
{
    lemma_text_le_total(keys[a], keys[b]);
}

/// The order of a stable sort by key is fixed by the keys: any two lists of
/// the positions in that order are the same list.
pub proof fn law_stable_order_unique(keys: Seq<Seq<char>>, first: Seq<usize>, second: Seq<usize>)
    requires
        is_stable_order(keys, first),
        is_stable_order(keys, second),
    ensures
        first == second,
{
    let n = keys.len() as int;
    let before = |i: int, j: int| precedes(keys, i, j);
    assert forall|i: int, j: int| #[trigger] before(i, j) implies !before(j, i) by {
        if text_le(keys[i], keys[j]) && keys[i] != keys[j] && text_le(keys[j], keys[i]) {
            lemma_text_le_antisymmetric(keys[i], keys[j]);
        }
    }
    assert forall|i: int, j: int| 0 <= i < n && 0 <= j < n && i != j implies #[trigger] before(i, j) || before(j, i) by {
        lemma_precedes_total(keys, i, j);
    }
    assert(strict_total_order(n, before));
    assert(lists_in_order(n, before, first));
    assert(lists_in_order(n, before, second));
    lemma_order_unique(n, before, first, second);
}

/// Merges two ascending runs whose positions lie in `lo..mid` and `mid..hi`.
fn merge_runs(
    keys: &Vec<Vec<char>>,
    left: &Vec<usize>,
    right: &Vec<usize>,
    Ghost(lo): Ghost<int>,
    Ghost(mid): Ghost<int>,
    Ghost(hi): Ghost<int>,
) -> (merged: Vec<usize>)
    requires
        0 <= lo <= mid <= hi <= keys@.len(),
        ascending(key_texts(keys@), left@),
        ascending(key_texts(keys@), right@),
        forall|k: int| 0 <= k < left@.len() ==> lo <= #[trigger] left@[k] < mid,
        forall|k: int| 0 <= k < right@.len() ==> mid <= #[trigger] right@[k] < hi,
        left@.len() + right@.len() <= usize::MAX,
    ensures
        merged@.len() == left@.len() + right@.len(),
        ascending(key_texts(keys@), merged@),
        forall|k: int| 0 <= k < merged@.len() ==> lo <= #[trigger] merged@[k] < hi,
{
    let ghost ks = key_texts(keys@);
    let mut merged: Vec<usize> = Vec::new();
    let mut i: usize = 0;
    let mut j: usize = 0;
    while i < left.len() || j < right.len()
        invariant
            ks == key_texts(keys@),
            0 <= lo <= mid <= hi <= keys@.len(),
            ascending(ks, left@),
            ascending(ks, right@),
            forall|k: int| 0 <= k < left@.len() ==> lo <= #[trigger] left@[k] < mid,
            forall|k: int| 0 <= k < right@.len() ==> mid <= #[trigger] right@[k] < hi,
            left@.len() + right@.len() <= usize::MAX,
            i <= left@.len(),
            j <= right@.len(),
            merged@.len() == i + j,
            ascending(ks, merged@),
            forall|k: int| 0 <= k < merged@.len() ==> lo <= #[trigger] merged@[k] < hi,
            merged@.len() > 0 && i < left@.len() ==> precedes(ks, merged@.last() as int, left@[i as int] as int),
            merged@.len() > 0 && j < right@.len() ==> precedes(ks, merged@.last() as int, right@[j as int] as int),
        decreases left@.len() + right@.len() - i - j,
    {
        let take_left = if i < left.len() && j < right.len() {
            chars_le(&keys[left[i]], &keys[right[j]])
        } else {
            i < left.len()
        };
        let ghost before = merged@;
        let next = if take_left {
            left[i]
        } else {
            right[j]
        };
        proof {
            if take_left && j < right@.len() {
                assert(ks[left@[i as int] as int] == keys@[left@[i as int] as int]@);
                assert(ks[right@[j as int] as int] == keys@[right@[j as int] as int]@);
                assert(precedes(ks, next as int, right@[j as int] as int));
            }
            if !take_left && i < left@.len() {
                assert(ks[left@[i as int] as int] == keys@[left@[i as int] as int]@);
                assert(ks[right@[j as int] as int] == keys@[right@[j as int] as int]@);
                lemma_text_le_total(ks[right@[j as int] as int], ks[right@[j as int] as int]);
                lemma_precedes_total(ks, left@[i as int] as int, right@[j as int] as int);
                assert(precedes(ks, next as int, left@[i as int] as int));
            }
            if take_left && i + 1 < left@.len() {
                assert(precedes(ks, left@[i as int] as int, left@[i + 1] as int));
            }
            if !take_left && j + 1 < right@.len() {
                assert(precedes(ks, right@[j as int] as int, right@[j + 1] as int));
            }
            assert forall|a: int| 0 <= a < before.len() implies precedes(ks, before[a] as int, next as int) by {
                if a < before.len() - 1 {
                    lemma_precedes_transitive(ks, before[a] as int, before.last() as int, next as int);
                }
            }
        }
        merged.push(next);
        if take_left {
            i = i + 1;
        } else {
            j = j + 1;
        }
        proof {
            assert forall|a: int, b: int| 0 <= a < b < merged@.len() implies precedes(ks, merged@[a] as int, merged@[b] as int) by {
                if b < before.len() {
                    assert(merged@[a] == before[a] && merged@[b] == before[b]);
                }
            }
        }
    }
    merged
}

/// The positions `lo..hi` of `keys` in stable order by key.
fn sort_range(keys: &Vec<Vec<char>>, lo: usize, hi: usize) -> (run: Vec<usize>)
    requires
        lo <= hi <= keys@.len(),
    ensures
        run@.len() == hi - lo,
        ascending(key_texts(keys@), run@),
        forall|k: int| 0 <= k < run@.len() ==> lo <= #[trigger] run@[k] < hi,
    decreases hi - lo,
{
    if hi - lo == 0 {
        return Vec::new();
    }
    if hi - lo == 1 {
        let mut single: Vec<usize> = Vec::new();
        single.push(lo);
        return single;
    }
    let mid = lo + (hi - lo) / 2;
    let left = sort_range(keys, lo, mid);
    let right = sort_range(keys, mid, hi);
    merge_runs(keys, &left, &right, Ghost(lo as int), Ghost(mid as int), Ghost(hi as int))
}

/// The positions of `keys` in the order a stable sort by key puts them.
pub fn stable_order_by_key(keys: &Vec<Vec<char>>) -> (order: Vec<usize>)
    ensures
        is_stable_order(key_texts(keys@), order@),
{
    sort_range(keys, 0, keys.len())
}

// ---------------------------------------------------------------------------
// The folder snapshot
// ---------------------------------------------------------------------------
/// The texts of a sequence of strings.
pub open spec fn texts(v: Seq<String>) -> Seq<Seq<char>> {
    v.map_values(|s: String| s@)
}

/// The text a path is sorted and matched by: its file name, or the whole
/// path when it has none, in lowercase.
pub open spec fn name_key(path: Seq<char>) -> Seq<char> {
    lowercase_of(
        match file_name_of(path) {
            Some(name) => name,
            None => path,
        },
    )
}

/// The sort keys of a sequence of paths.
pub open spec fn name_keys(paths: Seq<Seq<char>>) -> Seq<Seq<char>> {
    paths.map_values(|p: Seq<char>| name_key(p))
}

pub open spec fn is_supported(path: Seq<char>) -> bool {
    supported_format_of_path(path) is Some
}

/// The paths a snapshot keeps: those naming supported images (all of them
/// when they are known to be supported), at most the first 20 000.
pub open spec fn kept_paths(paths: Seq<Seq<char>>, only_supported: bool) -> Seq<Seq<char>> {
    let kept = if only_supported {
        paths.filter(|p: Seq<char>| is_supported(p))
    } else {
        paths
    };
    if kept.len() <= MAX_IMAGE_FOLDER_SNAPSHOT_PATHS {
        kept
    } else {
        kept.take(MAX_IMAGE_FOLDER_SNAPSHOT_PATHS as int)
    }
}

/// `sorted` is `paths` in stable order by name key.
pub open spec fn sorted_by_name(paths: Seq<Seq<char>>, sorted: Seq<Seq<char>>) -> bool {
    exists|order: Seq<usize>|
        is_stable_order(name_keys(paths), order) && sorted == order.map_values(|i: usize| paths[i as int])
}

/// `r` is the first position below `len` where `p` holds, or none when it
/// holds nowhere.
pub open spec fn first_where(len: int, p: spec_fn(int) -> bool, r: Option<int>) -> bool {
    match r {
        Some(i) => 0 <= i < len && p(i) && forall|j: int| 0 <= j < i ==> !#[trigger] p(j),
        None => forall|j: int| 0 <= j < len ==> !#[trigger] p(j),
    }
}

/// The position of the first path equal to `current`.
pub open spec fn path_match(paths: Seq<Seq<char>>, current: Seq<char>) -> spec_fn(int) -> bool {
    |i: int| same_path(paths[i], current)
}

/// The position of the first path with the file name of `current`, compared
/// in lowercase.
pub open spec fn name_match(paths: Seq<Seq<char>>, name: Seq<char>) -> spec_fn(int) -> bool {
    |i: int| file_name_of(paths[i]) is Some && name_key(paths[i]) == lowercase_of(name)
}

/// The current image of a folder for `current`: the first path equal to it,
/// else the first path with its file name regardless of case, else none.
pub open spec fn current_match(paths: Seq<Seq<char>>, current: Seq<char>, r: Option<int>) -> bool {
    if exists|i: int| 0 <= i < paths.len() && #[trigger] path_match(paths, current)(i) {
        first_where(paths.len() as int, path_match(paths, current), r)
    } else {
        match file_name_of(current) {
            Some(name) => first_where(paths.len() as int, name_match(paths, name), r),
            None => r is None,
        }
    }
}

/// The paths of a folder with their sort keys and whether each has a file name.
#[derive(Debug, PartialEq, Eq)]
struct FolderSnapshot {
    paths: Vec<String>,
    keys: Vec<Vec<char>>,
    named: Vec<bool>,
}

spec fn snapshot_wf(s: FolderSnapshot) -> bool {
    &&& s.keys@.len() == s.paths@.len()
    &&& s.named@.len() == s.paths@.len()
    &&& forall|i: int| 0 <= i < s.paths@.len() ==> (#[trigger] s.keys@[i])@ == name_key(s.paths@[i]@)
    &&& forall|i: int| 0 <= i < s.paths@.len() ==> #[trigger] s.named@[i] == (file_name_of(s.paths@[i]@) is Some)
}

/// The paths of `paths` that a snapshot keeps, in their order.
fn keep_paths(paths: &Vec<String>, only_supported: bool) -> (kept: Vec<String>)
    ensures
        texts(kept@) == kept_paths(texts(paths@), only_supported),
{
    let ghost input = texts(paths@);
    let ghost pred = |p: Seq<char>| is_supported(p);
    let mut kept: Vec<String> = Vec::new();
    let mut i: usize = 0;
    while i < paths.len()
        invariant
            input == texts(paths@),
            pred == (|p: Seq<char>| is_supported(p)),
            i <= paths@.len(),
            kept@.len() < MAX_IMAGE_FOLDER_SNAPSHOT_PATHS,
            only_supported ==> texts(kept@) == input.take(i as int).filter(pred),
            !only_supported ==> texts(kept@) == input.take(i as int),
        decreases paths@.len() - i,
    {
        let ghost before = texts(kept@);
        proof {
            assert(input.take(i + 1) == input.take(i as int).push(input[i as int]));
            reveal(Seq::filter);
            assert(input.take(i + 1).drop_last() == input.take(i as int));
        }
        let keep = !only_supported || is_supported_image_path(paths[i].as_str());
        if keep {
            let path = paths[i].clone();
            kept.push(path);
            proof {
                assert(texts(kept@) == before.push(input[i as int]));
            }
            if kept.len() == MAX_IMAGE_FOLDER_SNAPSHOT_PATHS {
                proof {
                    lemma_cap_reached(input, i as int, only_supported, texts(kept@));
                }
                return kept;
            }
        }
        i = i + 1;
    }
    proof {
        assert(input.take(paths@.len() as int) == input);
    }
    kept
}

proof fn lemma_cap_reached(input: Seq<Seq<char>>, i: int, only_supported: bool, kept: Seq<Seq<char>>)
    requires
        0 <= i < input.len(),
        kept.len() == MAX_IMAGE_FOLDER_SNAPSHOT_PATHS,
        only_supported ==> kept == input.take(i + 1).filter(|p: Seq<char>| is_supported(p)),
        !only_supported ==> kept == input.take(i + 1),
    ensures
        kept == kept_paths(input, only_supported),
{
    let pred = |p: Seq<char>| is_supported(p);
    let head = input.take(i + 1);
    let tail = input.skip(i + 1);
    assert(input == head + tail);
    if only_supported {
        Seq::filter_distributes_over_add(head, tail, pred);
        let all = input.filter(pred);
        assert(all == head.filter(pred) + tail.filter(pred));
        assert(all.take(MAX_IMAGE_FOLDER_SNAPSHOT_PATHS as int) == kept);
    } else {
        assert(input.take(MAX_IMAGE_FOLDER_SNAPSHOT_PATHS as int) == kept);
    }
}

/// The sort key of `path` and whether it has a file name.
fn entry_key(path: &str) -> (entry: (Vec<char>, bool))
    ensures
        entry.0@ == name_key(path@),
        entry.1 == (file_name_of(path@) is Some),
{
    match path_file_name(path) {
        Some(name) => (chars_of(to_lowercase(name.as_str()).as_str()), true),
        None => (chars_of(to_lowercase(path).as_str()), false),
    }
}

fn snapshot_of(paths: Vec<String>) -> (snapshot: FolderSnapshot)
    ensures
        snapshot_wf(snapshot),
        snapshot.paths@ == paths@,
{
    let mut keys: Vec<Vec<char>> = Vec::new();
    let mut named: Vec<bool> = Vec::new();
    let mut i: usize = 0;
    while i < paths.len()
        invariant
            i <= paths@.len(),
            keys@.len() == i,
            named@.len() == i,
            forall|k: int| 0 <= k < i ==> (#[trigger] keys@[k])@ == name_key(paths@[k]@),
            forall|k: int| 0 <= k < i ==> #[trigger] named@[k] == (file_name_of(paths@[k]@) is Some),
        decreases paths@.len() - i,
    {
        let (key, has_name) = entry_key(paths[i].as_str());
        keys.push(key);
        named.push(has_name);
        i = i + 1;
    }
    FolderSnapshot { paths, keys, named }
}

/// `kept` in stable order by name key.
fn sort_by_name(kept: &Vec<String>) -> (sorted: Vec<String>)
    ensures
        sorted_by_name(texts(kept@), texts(sorted@)),
{
    let keyed = snapshot_of(kept.clone());
    let order = stable_order_by_key(&keyed.keys);
    let ghost input = texts(kept@);
    proof {
        assert(key_texts(keyed.keys@) == name_keys(input));
    }
    let mut sorted: Vec<String> = Vec::new();
    let mut k: usize = 0;
    while k < order.len()
        invariant
            input == texts(kept@),
            keyed.paths@ == kept@,
            order@.len() == kept@.len(),
            forall|m: int| 0 <= m < order@.len() ==> order@[m] < kept@.len(),
            k <= order@.len(),
            texts(sorted@) == order@.take(k as int).map_values(|i: usize| input[i as int]),
        decreases order@.len() - k,
    {
        let path = kept[order[k]].clone();
        let ghost before = texts(sorted@);
        sorted.push(path);
        proof {
            assert(texts(sorted@) == before.push(input[order@[k as int] as int]));
            assert(order@.take(k + 1) == order@.take(k as int).push(order@[k as int]));
            assert(order@.take(k + 1).map_values(|i: usize| input[i as int]) == order@.take(k as int).map_values(
                |i: usize| input[i as int],
            ).push(input[order@[k as int] as int]));
        }
        k = k + 1;
    }
    proof {
        assert(order@.take(order@.len() as int) == order@);
        assert(is_stable_order(name_keys(input), order@));
    }
    sorted
}

/// The supported image paths of `paths`, at most the first 20 000, in
/// stable order by file name regardless of case.
pub fn sorted_supported_image_paths(paths: Vec<String>) -> (sorted: Vec<String>)
    ensures
        sorted_by_name(kept_paths(texts(paths@), true), texts(sorted@)),
{
    let kept = keep_paths(&paths, true);
    sort_by_name(&kept)
}

/// The first position whose path equals `current`.
fn find_same_path(paths: &Vec<String>, current: &str) -> (found: Option<usize>)
    ensures
        first_where(paths@.len() as int, path_match(texts(paths@), current@), index_view(found)),
{
    let ghost p = path_match(texts(paths@), current@);
    let mut i: usize = 0;
    while i < paths.len()
        invariant
            p == path_match(texts(paths@), current@),
            i <= paths@.len(),
            forall|j: int| 0 <= j < i ==> !#[trigger] p(j),
        decreases paths@.len() - i,
    {
        if paths_equal(paths[i].as_str(), current) {
            return Some(i);
        }
        i = i + 1;
    }
    None
}

/// The first position whose path has a file name with the key `key`.
fn find_name_key(snapshot: &FolderSnapshot, key: &Vec<char>, Ghost(name): Ghost<Seq<char>>) -> (found: Option<usize>)
    requires
        snapshot_wf(*snapshot),
        key@ == lowercase_of(name),
    ensures
        first_where(snapshot.paths@.len() as int, name_match(texts(snapshot.paths@), name), index_view(found)),
{
    let ghost p = name_match(texts(snapshot.paths@), name);
    let mut i: usize = 0;
    while i < snapshot.paths.len()
        invariant
            snapshot_wf(*snapshot),
            key@ == lowercase_of(name),
            p == name_match(texts(snapshot.paths@), name),
            i <= snapshot.paths@.len(),
            forall|j: int| 0 <= j < i ==> !#[trigger] p(j),
        decreases snapshot.paths@.len() - i,
    {
        if snapshot.named[i] && chars_equal(&snapshot.keys[i], key) {
            return Some(i);
        }
        i = i + 1;
    }
    None
}

fn current_image_index(snapshot: &FolderSnapshot, current: &str) -> (index: Option<usize>)
    requires
        snapshot_wf(*snapshot),
    ensures
        current_match(texts(snapshot.paths@), current@, index_view(index)),
        index matches Some(i) ==> i < snapshot.paths@.len(),
{
    let ghost paths = texts(snapshot.paths@);
    match find_same_path(&snapshot.paths, current) {
        Some(i) => {
            assert(path_match(paths, current@)(i as int));
            Some(i)
        },
        None => {
            match path_file_name(current) {
                Some(name) => {
                    let key = chars_of(to_lowercase(name.as_str()).as_str());
                    find_name_key(snapshot, &key, Ghost(name@))
                },
                None => None,
            }
        },
    }
}

/// The view of a folder: its sorted paths and the position of the current image.
pub struct FolderView {
    pub paths: Seq<Seq<char>>,
    pub current: Option<int>,
}

/// A snapshot of the images in a folder, sorted by file name regardless of
/// case, and the position of the current image in it. Clones share the
/// snapshot.
#[derive(Debug, PartialEq, Eq)]
pub struct ImageFolder {
    snapshot: Arc<FolderSnapshot>,
    current_index: Option<usize>,
}

impl View for ImageFolder {
    type V = FolderView;

    closed spec fn view(&self) -> FolderView {
        FolderView { paths: texts(self.snapshot.paths@), current: index_view(self.current_index) }
    }
}

impl ImageFolder {
    #[verifier::type_invariant]
    closed spec fn wf(self) -> bool {
        &&& snapshot_wf(*self.snapshot)
        &&& self.current_index matches Some(i) ==> i < self.snapshot.paths@.len()
    }

    /// A folder with no images.
    pub fn empty() -> (folder: Self)
        ensures
            folder@.paths.len() == 0,
            folder@.current is None,
    {
        let snapshot = FolderSnapshot { paths: Vec::new(), keys: Vec::new(), named: Vec::new() };
        Self { snapshot: Arc::new(snapshot), current_index: None }
    }

    fn from_kept(current_path: &str, kept: Vec<String>) -> (folder: Self)
        ensures
            sorted_by_name(texts(kept@), folder@.paths),
            current_match(folder@.paths, current_path@, folder@.current),
    {
        let sorted = sort_by_name(&kept);
        let snapshot = snapshot_of(sorted);
        let current_index = current_image_index(&snapshot, current_path);
        Self { snapshot: Arc::new(snapshot), current_index }
    }

    /// The supported image paths of `paths` (at most the first 20 000) sorted
    /// by file name, with the current image found by `current_path`.
    pub fn from_paths(current_path: &str, paths: Vec<String>) -> (folder: Self)
        ensures
            sorted_by_name(kept_paths(texts(paths@), true), folder@.paths),
            current_match(folder@.paths, current_path@, folder@.current),
    {
        let kept = keep_paths(&paths, true);
        Self::from_kept(current_path, kept)
    }

    /// As `from_paths`, for paths already known to name supported images.
    pub fn from_supported_paths(current_path: &str, paths: Vec<String>) -> (folder: Self)
        ensures
            sorted_by_name(kept_paths(texts(paths@), false), folder@.paths),
            current_match(folder@.paths, current_path@, folder@.current),
    {
        let kept = keep_paths(&paths, false);
        Self::from_kept(current_path, kept)
    }

    /// Makes `current_path` the current image when the folder holds it, and
    /// says whether it did; the paths stay as they are.
    pub fn retarget_current_path(&mut self, current_path: &str) -> (found: bool)
        ensures
            final(self)@.paths == old(self)@.paths,
            found <==> !current_match(old(self)@.paths, current_path@, None),
            found ==> current_match(final(self)@.paths, current_path@, final(self)@.current),
            !found ==> final(self)@.current == old(self)@.current,
            !found ==> *final(self) == *old(self),
    {
        proof {
            use_type_invariant(&*self);
        }
        match current_image_index(&self.snapshot, current_path) {
            Some(index) => {
                self.current_index = Some(index);
                true
            },
            None => false,
        }
    }

    /// This folder with `current_path` as its current image, sharing the
    /// snapshot; none when the folder does not hold it.
    pub fn retargeted_current_path(&self, current_path: &str) -> (folder: Option<Self>)
        ensures
            folder is Some <==> !current_match(self@.paths, current_path@, None),
            folder matches Some(f) ==> f@.paths == self@.paths && current_match(f@.paths, current_path@, f@.current),
    {
        proof {
            use_type_invariant(self);
        }
        match current_image_index(&self.snapshot, current_path) {
            Some(index) => Some(Self { snapshot: share(&self.snapshot), current_index: Some(index) }),
            None => None,
        }
    }

    pub fn paths(&self) -> (paths: &[String])
        ensures
            texts(paths@) == self@.paths,
    {
        self.snapshot.paths.as_slice()
    }

    pub fn current_index(&self) -> (index: Option<usize>)
        ensures
            index_view(index) == self@.current,
            index matches Some(i) ==> i < self@.paths.len(),
    {
        proof {
            use_type_invariant(self);
        }
        self.current_index
    }

    pub fn len(&self) -> (len: usize)
        ensures
            len == self@.paths.len(),
    {
        self.snapshot.paths.len()
    }

    pub fn is_empty(&self) -> (empty: bool)
        ensures
            empty == (self@.paths.len() == 0),
    {
        self.snapshot.paths.len() == 0
    }

    /// The path `attempt_index + 1` images away from the current one.
    pub fn navigation_path_for_attempt(
        &self,
        direction: ImageNavigationDirection,
        settings: NavigationSettings,
        attempt_index: usize,
    ) -> (path: Option<&str>)
        ensures
            match stepped_index(self@.paths.len() as int, self@.current, direction, settings.wrap_navigation(), attempt_index as int) {
                Some(i) => path matches Some(p) && p@ == self@.paths[i],
                None => path is None,
            },
    {
        proof {
            use_type_invariant(self);
        }
        match navigation_index_for_attempt(
            self.snapshot.paths.len(),
            self.current_index,
            direction,
            settings.wrap_navigation(),
            attempt_index,
        ) {
            Some(index) => Some(self.snapshot.paths[index].as_str()),
            None => None,
        }
    }

    /// The path next to the current one, with the given settings.
    pub fn navigation_path_with_settings(&self, direction: ImageNavigationDirection, settings: NavigationSettings) -> (path: Option<&str>)
        ensures
            match stepped_index(self@.paths.len() as int, self@.current, direction, settings.wrap_navigation(), 0) {
                Some(i) => path matches Some(p) && p@ == self@.paths[i],
                None => path is None,
            },
    {
        self.navigation_path_for_attempt(direction, settings, 0)
    }

    /// The path next to the current one, wrapping around the ends.
    pub fn navigation_path(&self, direction: ImageNavigationDirection) -> (path: Option<&str>)
        ensures
            match stepped_index(self@.paths.len() as int, self@.current, direction, true, 0) {
                Some(i) => path matches Some(p) && p@ == self@.paths[i],
                None => path is None,
            },
    {
        let settings = NavigationSettings::defaults();
        self.navigation_path_for_attempt(direction, settings, 0)
    }
}

impl Clone for ImageFolder {
    /// A clone shares the snapshot.
    fn clone(&self) -> (folder: Self)
        ensures
            folder@ == self@,
    {
        proof {
            use_type_invariant(self);
        }
        Self { snapshot: share(&self.snapshot), current_index: self.current_index }
    }
}

} // verus!

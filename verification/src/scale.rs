//! Scale matching: choosing, among the sibling files of a nominal icon,
//! the variant whose `scale-` token fits the display scale best.

use vstd::prelude::*;
use crate::number::{decimal, parse_scale, push_decimal, read_scale};
use crate::path::{file_name, file_stem, find_name_start, find_stem, slice_chars};
use crate::text::{contains, contains_chars, same_text, to_chars};
use crate::IconMatcher;

verus! {

/// What capture group `group` holds after the leftmost match of the regular
/// expression `pattern` in `haystack`: nothing where the pattern is not a
/// regular expression, where it matches nowhere, or where the group took no
/// part in the match.
pub uninterp spec fn regex_group(pattern: Seq<char>, haystack: Seq<char>, group: nat) -> Option<
    Seq<char>,
>;

/// Compiles `pattern` with `regex::Regex::new`, searches `haystack` with
/// `Regex::captures` and copies out the text of group `group` with
/// `Captures::get` and `Match::as_str`. The contract only gives that text
/// its name: it depends on the three arguments alone.
#[verifier::external_body]
fn capture_group(pattern: &str, haystack: &str, group: usize) -> (r: Option<String>)
    ensures
        match r {
            Some(text) => regex_group(pattern@, haystack@, group as nat) == Some(text@),
            None => regex_group(pattern@, haystack@, group as nat) is None,
        },
{
    let re = regex::Regex::new(pattern).ok()?;
    let found = re.captures(haystack)?;
    found.get(group).map(|m| m.as_str().to_string())
}

/// The token that marks a scaled variant.
pub open spec fn scale_marker() -> Seq<char> {
    "scale-"@
}

/// The expression that finds the scale of a variant: everything from the
/// first `scale-` up to the last digit behind it on the same line.
pub open spec fn scale_pattern() -> Seq<char> {
    "scale-(.*[0-9])"@
}

/// What stands behind the scale token of `stem`, as the pattern captures it.
pub open spec fn scale_suffix(stem: Seq<char>) -> Option<Seq<char>> {
    regex_group(scale_pattern(), stem, 1)
}

/// The scale that a captured suffix writes, if it writes one.
pub open spec fn suffix_scale(suffix: Option<Seq<char>>) -> Option<i16> {
    match suffix {
        Some(text) => parse_scale(text),
        None => None,
    }
}

/// The scale of a file stem: none where the pattern captures nothing or
/// what it captures is no 16-bit number.
pub open spec fn stem_scale(stem: Seq<char>) -> Option<i16> {
    suffix_scale(scale_suffix(stem))
}

/// Reads the scale out of what the pattern captured.
pub fn read_suffix(suffix: &Option<String>) -> (r: Option<i16>)
    ensures
        r == suffix_scale(
            match *suffix {
                Some(text) => Some(text@),
                None => None,
            },
        ),
{
    match suffix {
        Some(text) => {
            let chars = to_chars(text.as_str());
            read_scale(&chars)
        },
        None => None,
    }
}

/// Reads the scale of a file stem.
pub fn read_stem_scale(stem: &str) -> (r: Option<i16>)
    ensures
        r == stem_scale(stem@),
{
    let suffix = capture_group("scale-(.*[0-9])", stem, 1);
    read_suffix(&suffix)
}

/// The running best below any scale yet seen.
pub open spec fn no_scale() -> int {
    -1
}

/// The highest of the scales in `values`, and -1 where none reaches that.
pub open spec fn highest(values: Seq<Option<i16>>) -> int
    decreases values.len(),
{
    if values.len() == 0 {
        no_scale()
    } else {
        let before = highest(values.drop_last());
        match values.last() {
            Some(v) => if v >= before {
                v as int
            } else {
                before
            },
            None => before,
        }
    }
}

/// The best scale among `values` for the display scale `target`: the target
/// itself where a variant has it, else the highest scale there is.
pub open spec fn best_scale(values: Seq<Option<i16>>, target: i16) -> int {
    if values.contains(Some(target)) {
        target as int
    } else {
        highest(values)
    }
}

/// Scans the scales of the variants in order and keeps a running best: a
/// scale equal to `target` wins at once, any other is taken if it is no
/// less than the best so far. Entries without a scale are passed over.
pub fn select_best_scale(values: &Vec<Option<i16>>, target: i16) -> (r: i16)
    ensures
        r == best_scale(values@, target),
{
    let mut best: i16 = -1;
    let mut i: usize = 0;
    while i < values.len()
        invariant
            i <= values@.len(),
            best == highest(values@.take(i as int)),
            !values@.take(i as int).contains(Some(target)),
        decreases values@.len() - i,
    {
        let ghost seen = values@.take(i as int);
        let ghost next = values@.take(i + 1);
        assert(next.drop_last() =~= seen);
        assert(next.last() == values@[i as int]);
        match values[i] {
            Some(v) => {
                if v == target {
                    assert(values@[i as int] == Some(target));
                    return v;
                }
                if v >= best {
                    best = v;
                }
            },
            None => {},
        }
        assert(!next.contains(Some(target))) by {
            if next.contains(Some(target)) {
                let j = choose|j: int| 0 <= j < next.len() && next[j] == Some(target);
                if j < i {
                    assert(seen[j] == Some(target));
                }
            }
        }
        i += 1;
    }
    assert(values@.take(i as int) =~= values@);
    best
}

/// The highest scale is no less than -1 and than every scale in `values`,
/// and it is -1 or one of them.
pub proof fn highest_is_maximum(values: Seq<Option<i16>>)
    ensures
        highest(values) >= no_scale(),
        forall|i: int|
            0 <= i < values.len() ==> (#[trigger] values[i] matches Some(v) ==> v <= highest(
                values,
            )),
        highest(values) == no_scale() || exists|i: int|
            0 <= i < values.len() && #[trigger] values[i] == Some(highest(values) as i16),
    decreases values.len(),
{
    if values.len() > 0 {
        let shorter = values.drop_last();
        highest_is_maximum(shorter);
        assert forall|i: int| 0 <= i < values.len() implies (#[trigger] values[i] matches Some(v)
            ==> v <= highest(values)) by {
            if i < shorter.len() {
                assert(values[i] == shorter[i]);
            }
        }
        if highest(values) != no_scale() {
            if highest(values) == highest(shorter) {
                let j = choose|j: int|
                    0 <= j < shorter.len() && #[trigger] shorter[j] == Some(
                        highest(shorter) as i16,
                    );
                assert(values[j] == shorter[j]);
            } else {
                assert(values[values.len() - 1] == Some(highest(values) as i16));
            }
        }
    }
}

/// An exact match wins: where one of the variants has the display scale,
/// that scale is chosen, whatever the order and however high the others.
pub proof fn exact_scale_wins(values: Seq<Option<i16>>, target: i16, at: int)
    requires
        0 <= at < values.len(),
        values[at] == Some(target),
    ensures
        best_scale(values, target) == target,
{
}

/// Without an exact match the choice does not depend on the order of the
/// scan: it is the highest scale among the variants, whether or not a lower
/// one would have reached the display scale.
pub proof fn fallback_is_highest(values: Seq<Option<i16>>, target: i16)
    requires
        !values.contains(Some(target)),
    ensures
        best_scale(values, target) == highest(values),
        best_scale(values, target) >= no_scale(),
        forall|i: int|
            0 <= i < values.len() ==> (#[trigger] values[i] matches Some(v) ==> v <= best_scale(
                values,
                target,
            )),
{
    highest_is_maximum(values);
}

/// The texts of a run of strings.
pub open spec fn texts(files: Seq<String>) -> Seq<Seq<char>> {
    Seq::new(files.len(), |i: int| files[i]@)
}

/// A scaled variant: a file whose stem holds the scale token.
pub open spec fn is_scaled(file: Seq<char>) -> bool {
    contains(file_stem(file), scale_marker())
}

/// The scale of a file: that of its stem where it is a scaled variant.
pub open spec fn file_scale(file: Seq<char>) -> Option<i16> {
    if is_scaled(file) {
        stem_scale(file_stem(file))
    } else {
        None
    }
}

/// The scales of a run of files, one entry for each file.
pub open spec fn scales(files: Seq<Seq<char>>) -> Seq<Option<i16>> {
    Seq::new(files.len(), |i: int| file_scale(files[i]))
}

/// The token of the scale `best`: `scale-` and the number in decimal.
pub open spec fn scale_token(best: int) -> Seq<char> {
    scale_marker() + decimal(best)
}

/// A scaled variant of another scale than `best`: its stem lacks the token.
pub open spec fn is_dropped(file: Seq<char>, best: int) -> bool {
    is_scaled(file) && !contains(file_stem(file), scale_token(best))
}

/// Some file of the run is dropped for the scale `best`.
pub open spec fn any_dropped(files: Seq<Seq<char>>, best: int) -> bool {
    exists|i: int| 0 <= i < files.len() && is_dropped(#[trigger] files[i], best)
}

/// The files that stay for the scale `best`, in their order: the variants
/// of that scale and the files without a scale token.
pub open spec fn survivors(files: Seq<Seq<char>>, best: int) -> Seq<Seq<char>>
    decreases files.len(),
{
    if files.len() == 0 {
        Seq::empty()
    } else if is_dropped(files.last(), best) {
        survivors(files.drop_last(), best)
    } else {
        survivors(files.drop_last(), best).push(files.last())
    }
}

/// The family reduced to its best scale for the display scale `target`:
/// nothing where no file would be dropped.
pub open spec fn reduced(files: Seq<Seq<char>>, target: i16) -> Option<Seq<Seq<char>>> {
    let best = best_scale(scales(files), target);
    if any_dropped(files, best) {
        Some(survivors(files, best))
    } else {
        None
    }
}

/// Whether the stem of the file name of `path` holds `text`.
pub fn file_stem_contains(path: &str, text: &str) -> (r: bool)
    ensures
        r == contains(file_stem(path@), text@),
{
    let chars = to_chars(path);
    let (from, to) = find_stem(&chars);
    let stem = slice_chars(&chars, from, to);
    let needle = to_chars(text);
    contains_chars(&stem, &needle)
}

/// The scale of the file at `path`.
pub fn read_file_scale(path: &str) -> (r: Option<i16>)
    ensures
        r == file_scale(path@),
{
    if file_stem_contains(path, "scale-") {
        let chars = to_chars(path);
        let (from, to) = find_stem(&chars);
        let stem = path.substring_char(from, to);
        read_stem_scale(stem)
    } else {
        None
    }
}

/// Whether the file at `path` is a scaled variant whose stem lacks `token`.
fn lacks_token(path: &str, token: &Vec<char>) -> (r: bool)
    ensures
        r == (is_scaled(path@) && !contains(file_stem(path@), token@)),
{
    let chars = to_chars(path);
    let (from, to) = find_stem(&chars);
    let stem = slice_chars(&chars, from, to);
    let marker = to_chars("scale-");
    contains_chars(&stem, &marker) && !contains_chars(&stem, token)
}

/// Reduces a family of sibling files to the variants of the best scale for
/// the display scale `scale`, leaving the files without a scale token in
/// place. Returns nothing where no file would be removed.
pub fn reduce_to_best_scale(matching_files: &Vec<String>, scale: i16) -> (r: Option<Vec<String>>)
    ensures
        match r {
            Some(kept) => reduced(texts(matching_files@), scale) == Some(texts(kept@)),
            None => reduced(texts(matching_files@), scale) is None,
        },
{
    let ghost files = texts(matching_files@);
    let n: usize = matching_files.len();
    let mut values: Vec<Option<i16>> = Vec::new();
    let mut i: usize = 0;
    while i < n
        invariant
            i <= n,
            n == matching_files@.len(),
            files == texts(matching_files@),
            values@ == scales(files).take(i as int),
        decreases n - i,
    {
        let value = read_file_scale(matching_files[i].as_str());
        values.push(value);
        i += 1;
        assert(values@ =~= scales(files).take(i as int));
    }
    assert(scales(files).take(n as int) =~= scales(files));
    let best: i16 = select_best_scale(&values, scale);
    let mut token: Vec<char> = to_chars("scale-");
    push_decimal(best, &mut token);
    let mut kept: Vec<String> = Vec::new();
    let mut dropped: bool = false;
    let mut k: usize = 0;
    while k < n
        invariant
            k <= n,
            n == matching_files@.len(),
            files == texts(matching_files@),
            token@ == scale_token(best as int),
            texts(kept@) == survivors(files.take(k as int), best as int),
            dropped == any_dropped(files.take(k as int), best as int),
        decreases n - k,
    {
        let ghost seen = files.take(k as int);
        let ghost next = files.take(k + 1);
        assert(next.drop_last() =~= seen);
        assert(next.last() == matching_files@[k as int]@);
        let ghost before = texts(kept@);
        if lacks_token(matching_files[k].as_str(), &token) {
            dropped = true;
            assert(is_dropped(next[k as int], best as int));
        } else {
            kept.push(matching_files[k].clone());
            assert(texts(kept@) =~= before.push(next.last()));
            assert(any_dropped(next, best as int) == any_dropped(seen, best as int)) by {
                if any_dropped(seen, best as int) {
                    let j = choose|j: int|
                        0 <= j < seen.len() && is_dropped(#[trigger] seen[j], best as int);
                    assert(next[j] == seen[j]);
                }
                if any_dropped(next, best as int) {
                    let j = choose|j: int|
                        0 <= j < next.len() && is_dropped(#[trigger] next[j], best as int);
                    assert(j < k);
                    assert(seen[j] == next[j]);
                }
            }
        }
        k += 1;
    }
    assert(files.take(n as int) =~= files);
    if dropped {
        Some(kept)
    } else {
        None
    }
}

/// One entry of a directory listing: its path, and whether it is a
/// regular file.
#[derive(Debug)]
pub struct DirEntry {
    pub path: String,
    pub is_file: bool,
}

/// An entry belongs to the family of `stem`: it is a file, and the stem of
/// its name holds `stem`.
pub open spec fn in_family(entry: DirEntry, stem: Seq<char>) -> bool {
    entry.is_file && contains(file_stem(entry.path@), stem)
}

/// The candidate family of `stem` in a listing: the paths of the entries
/// that belong to it, in listing order.
pub open spec fn family(listing: Seq<DirEntry>, stem: Seq<char>) -> Seq<Seq<char>>
    decreases listing.len(),
{
    if listing.len() == 0 {
        Seq::empty()
    } else if in_family(listing.last(), stem) {
        family(listing.drop_last(), stem).push(listing.last().path@)
    } else {
        family(listing.drop_last(), stem)
    }
}

/// The family after scale matching: reduced where that removes something,
/// whole where it does not.
pub open spec fn matched_family(members: Seq<Seq<char>>, target: i16) -> Seq<Seq<char>> {
    match reduced(members, target) {
        Some(kept) => kept,
        None => members,
    }
}

/// The listing shows the nominal icon itself, and not as a file: the
/// nominal path names a directory.
pub open spec fn is_directory_entry(icon_path: Seq<char>, listing: Seq<DirEntry>) -> bool {
    exists|i: int|
        0 <= i < listing.len() && !(#[trigger] listing[i]).is_file && listing[i].path@ == icon_path
}

/// The asset chosen for the nominal icon `icon_path` among the entries of
/// its directory: the first of its family after scale matching. There is
/// none where the nominal path names no file or names a directory, or the
/// family is empty.
pub open spec fn matched_icon(icon_path: Seq<char>, listing: Seq<DirEntry>, target: i16) -> Option<
    Seq<char>,
> {
    let chosen = matched_family(family(listing, file_stem(icon_path)), target);
    if file_name(icon_path).len() == 0 || is_directory_entry(icon_path, listing) || chosen.len()
        == 0 {
        None
    } else {
        Some(chosen[0])
    }
}

/// Whether the listing shows the nominal icon itself as an entry that is no file.
pub fn shows_directory(icon_path: &str, listing: &Vec<DirEntry>) -> (r: bool)
    ensures
        r == is_directory_entry(icon_path@, listing@),
{
    let mut i: usize = 0;
    while i < listing.len()
        invariant
            i <= listing@.len(),
            forall|j: int|
                0 <= j < i ==> !(!(#[trigger] listing@[j]).is_file && listing@[j].path@
                    == icon_path@),
        decreases listing@.len() - i,
    {
        if !listing[i].is_file && same_text(listing[i].path.as_str(), icon_path) {
            return true;
        }
        i += 1;
    }
    false
}

/// Picks, among the entries of the directory of the nominal icon
/// `icon_path`, the asset that fits the display scale of `icon_matcher`.
pub fn match_icon_path(icon_path: &str, listing: &Vec<DirEntry>, icon_matcher: &IconMatcher) -> (r:
    Option<String>)
    ensures
        match r {
            Some(chosen) => matched_icon(icon_path@, listing@, icon_matcher.display_scale) == Some(
                chosen@,
            ),
            None => matched_icon(icon_path@, listing@, icon_matcher.display_scale) is None,
        },
{
    let chars = to_chars(icon_path);
    let (from, to) = find_stem(&chars);
    let stem = slice_chars(&chars, from, to);
    let mut members: Vec<String> = Vec::new();
    let mut i: usize = 0;
    while i < listing.len()
        invariant
            i <= listing@.len(),
            stem@ == file_stem(icon_path@),
            texts(members@) == family(listing@.take(i as int), stem@),
        decreases listing@.len() - i,
    {
        let ghost before = texts(members@);
        assert(listing@.take(i + 1).drop_last() =~= listing@.take(i as int));
        let entry = &listing[i];
        if entry.is_file {
            let name = to_chars(entry.path.as_str());
            let (a, b) = find_stem(&name);
            let entry_stem = slice_chars(&name, a, b);
            if contains_chars(&entry_stem, &stem) {
                members.push(entry.path.clone());
                assert(texts(members@) =~= before.push(entry.path@));
            }
        }
        i += 1;
    }
    assert(listing@.take(i as int) =~= listing@);
    if find_name_start(&chars) == chars.len() {
        assert(file_name(icon_path@).len() == 0);
        return None;
    }
    if shows_directory(icon_path, listing) {
        return None;
    }
    let chosen: Vec<String> = match reduce_to_best_scale(&members, icon_matcher.display_scale) {
        Some(kept) => kept,
        None => members,
    };
    if chosen.len() == 0 {
        None
    } else {
        Some(chosen[0].clone())
    }
}

/// Every file that stays was in the family, and none of them is a variant
/// of another scale than `best`; every file of the family that is no such
/// variant stays.
pub proof fn survivors_fit(files: Seq<Seq<char>>, best: int)
    ensures
        forall|i: int|
            0 <= i < survivors(files, best).len() ==> {
                &&& files.contains(#[trigger] survivors(files, best)[i])
                &&& !is_dropped(survivors(files, best)[i], best)
            },
        forall|i: int|
            0 <= i < files.len() && !is_dropped(#[trigger] files[i], best) ==> survivors(
                files,
                best,
            ).contains(files[i]),
        !any_dropped(files, best) ==> survivors(files, best) == files,
    decreases files.len(),
{
    if files.len() > 0 {
        let shorter = files.drop_last();
        survivors_fit(shorter, best);
        let kept = survivors(files, best);
        let before = survivors(shorter, best);
        assert forall|i: int| 0 <= i < kept.len() implies {
            &&& files.contains(#[trigger] kept[i])
            &&& !is_dropped(kept[i], best)
        } by {
            if i < before.len() {
                let f = before[i];
                assert(kept[i] == f);
                let j = choose|j: int| 0 <= j < shorter.len() && shorter[j] == f;
                assert(files[j] == f);
            } else {
                assert(kept[i] == files[files.len() - 1]);
            }
        }
        assert forall|i: int| 0 <= i < files.len() && !is_dropped(
            #[trigger] files[i],
            best,
        ) implies kept.contains(files[i]) by {
            if i < shorter.len() {
                assert(files[i] == shorter[i]);
                let j = choose|j: int| 0 <= j < before.len() && before[j] == shorter[i];
                assert(kept[j] == before[j]);
            } else {
                assert(kept[kept.len() - 1] == files[i]);
            }
        }
        if !any_dropped(files, best) {
            assert(!is_dropped(files[files.len() - 1], best));
            assert(!any_dropped(shorter, best)) by {
                if any_dropped(shorter, best) {
                    let j = choose|j: int|
                        0 <= j < shorter.len() && is_dropped(#[trigger] shorter[j], best);
                    assert(files[j] == shorter[j]);
                }
            }
            assert(kept =~= files);
        }
    } else {
        assert(survivors(files, best) =~= files);
    }
}

/// Exactness: where a variant of the family has the display scale and
/// carries its token, that scale is chosen and that variant stays; every
/// scaled variant that stays carries the token of that very scale, so that
/// a variant of a higher scale never takes its place.
pub proof fn exact_scale_is_selected(files: Seq<Seq<char>>, target: i16, at: int)
    requires
        0 <= at < files.len(),
        file_scale(files[at]) == Some(target),
        contains(file_stem(files[at]), scale_token(target as int)),
    ensures
        best_scale(scales(files), target) == target,
        matched_family(files, target).contains(files[at]),
        forall|i: int|
            0 <= i < matched_family(files, target).len() && is_scaled(
                #[trigger] matched_family(files, target)[i],
            ) ==> contains(file_stem(matched_family(files, target)[i]), scale_token(target as int)),
{
    assert(scales(files)[at] == Some(target));
    let best = target as int;
    survivors_fit(files, best);
    let chosen = matched_family(files, target);
    assert(!is_dropped(files[at], best));
    assert(chosen.contains(files[at]));
    assert forall|i: int| 0 <= i < chosen.len() && is_scaled(#[trigger] chosen[i]) implies contains(
        file_stem(chosen[i]),
        scale_token(best),
    ) by {
        if any_dropped(files, best) {
            assert(!is_dropped(survivors(files, best)[i], best));
        } else {
            assert(!is_dropped(files[i], best));
        }
    }
}

/// A family without a scale token passes through: nothing is reduced, and
/// the family after scale matching is the family itself.
pub proof fn unscaled_family_is_kept(files: Seq<Seq<char>>, target: i16)
    requires
        forall|i: int| 0 <= i < files.len() ==> !is_scaled(#[trigger] files[i]),
    ensures
        reduced(files, target) is None,
        matched_family(files, target) == files,
{
}

/// Fallback: where no variant has the display scale but one reaches it,
/// the highest scale of the family is chosen, and it is no less than the
/// display scale. After scale matching the scaled variants of the family
/// are exactly those that carry the token of that scale, and the family is
/// reduced as soon as one variant lacks it.
pub proof fn fallback_keeps_the_highest(files: Seq<Seq<char>>, target: i16, at: int)
    requires
        !scales(files).contains(Some(target)),
        0 <= at < files.len(),
        file_scale(files[at]) matches Some(v) && v >= target,
    ensures
        best_scale(scales(files), target) == highest(scales(files)),
        best_scale(scales(files), target) >= target,
        forall|i: int|
            0 <= i < matched_family(files, target).len() ==> {
                &&& files.contains(#[trigger] matched_family(files, target)[i])
                &&& is_scaled(matched_family(files, target)[i]) ==> contains(
                    file_stem(matched_family(files, target)[i]),
                    scale_token(highest(scales(files))),
                )
            },
        forall|i: int|
            0 <= i < files.len() && contains(
                file_stem(#[trigger] files[i]),
                scale_token(highest(scales(files))),
            ) ==> matched_family(files, target).contains(files[i]),
        any_dropped(files, highest(scales(files))) ==> reduced(files, target) == Some(
            survivors(files, highest(scales(files))),
        ),
{
    let best = highest(scales(files));
    highest_is_maximum(scales(files));
    assert(scales(files)[at] == file_scale(files[at]));
    survivors_fit(files, best);
    let chosen = matched_family(files, target);
    assert forall|i: int| 0 <= i < chosen.len() implies {
        &&& files.contains(#[trigger] chosen[i])
        &&& is_scaled(chosen[i]) ==> contains(file_stem(chosen[i]), scale_token(best))
    } by {
        if any_dropped(files, best) {
            assert(!is_dropped(survivors(files, best)[i], best));
        } else {
            assert(!is_dropped(files[i], best));
        }
    }
    assert forall|i: int|
        0 <= i < files.len() && contains(
            file_stem(#[trigger] files[i]),
            scale_token(best),
        ) implies chosen.contains(files[i]) by {
        assert(!is_dropped(files[i], best));
    }
}

/// The first file that is not dropped is the first that stays.
pub proof fn first_survivor(files: Seq<Seq<char>>, best: int, at: int)
    requires
        0 <= at < files.len(),
        !is_dropped(files[at], best),
        forall|j: int| 0 <= j < at ==> is_dropped(#[trigger] files[j], best),
    ensures
        survivors(files, best).len() > 0,
        survivors(files, best)[0] == files[at],
    decreases files.len(),
{
    let shorter = files.drop_last();
    if at == files.len() - 1 {
        assert forall|j: int| 0 <= j < shorter.len() implies is_dropped(
            #[trigger] shorter[j],
            best,
        ) by {
            assert(shorter[j] == files[j]);
        }
        none_survive(shorter, best);
    } else {
        assert(shorter[at] == files[at]);
        assert forall|j: int| 0 <= j < at implies is_dropped(#[trigger] shorter[j], best) by {
            assert(shorter[j] == files[j]);
        }
        first_survivor(shorter, best, at);
    }
}

/// Where every file is dropped, none stays.
pub proof fn none_survive(files: Seq<Seq<char>>, best: int)
    requires
        forall|j: int| 0 <= j < files.len() ==> is_dropped(#[trigger] files[j], best),
    ensures
        survivors(files, best).len() == 0,
    decreases files.len(),
{
    if files.len() > 0 {
        let shorter = files.drop_last();
        assert forall|j: int| 0 <= j < shorter.len() implies is_dropped(
            #[trigger] shorter[j],
            best,
        ) by {
            assert(shorter[j] == files[j]);
        }
        none_survive(shorter, best);
        assert(is_dropped(files[files.len() - 1], best));
    }
}

/// Where entry `at` of a listing belongs to the family and every member
/// listed before it is dropped for `best`, the entry stands in the family
/// behind dropped members only.
pub proof fn family_member(listing: Seq<DirEntry>, stem: Seq<char>, best: int, at: int) -> (k: int)
    requires
        0 <= at < listing.len(),
        in_family(listing[at], stem),
        forall|j: int|
            0 <= j < at && in_family(#[trigger] listing[j], stem) ==> is_dropped(
                listing[j].path@,
                best,
            ),
    ensures
        0 <= k < family(listing, stem).len(),
        family(listing, stem)[k] == listing[at].path@,
        forall|j: int| 0 <= j < k ==> is_dropped(#[trigger] family(listing, stem)[j], best),
    decreases listing.len(),
{
    let shorter = listing.drop_last();
    if at == listing.len() - 1 {
        let before = family(shorter, stem);
        assert forall|j: int| 0 <= j < before.len() implies is_dropped(
            #[trigger] before[j],
            best,
        ) by {
            family_comes_from_listing(shorter, stem, j);
            let i = choose|i: int|
                0 <= i < shorter.len() && in_family(#[trigger] shorter[i], stem) && shorter[i].path@
                    == before[j];
            assert(shorter[i] == listing[i]);
        }
        before.len() as int
    } else {
        assert(shorter[at] == listing[at]);
        assert forall|j: int|
            0 <= j < at && in_family(#[trigger] shorter[j], stem) implies is_dropped(
            shorter[j].path@,
            best,
        ) by {
            assert(shorter[j] == listing[j]);
        }
        family_member(shorter, stem, best, at)
    }
}

/// Every member of a family is the path of an entry of the listing that
/// belongs to it.
pub proof fn family_comes_from_listing(listing: Seq<DirEntry>, stem: Seq<char>, k: int)
    requires
        0 <= k < family(listing, stem).len(),
    ensures
        exists|i: int|
            0 <= i < listing.len() && in_family(#[trigger] listing[i], stem) && listing[i].path@
                == family(listing, stem)[k],
    decreases listing.len(),
{
    let shorter = listing.drop_last();
    if k < family(shorter, stem).len() {
        family_comes_from_listing(shorter, stem, k);
        let i = choose|i: int|
            0 <= i < shorter.len() && in_family(#[trigger] shorter[i], stem) && shorter[i].path@
                == family(shorter, stem)[k];
        assert(listing[i] == shorter[i]);
    } else {
        assert(in_family(listing[listing.len() - 1], stem));
    }
}

/// The variant of the exact scale is the asset: where an entry of the
/// listing belongs to the family of the nominal icon, has the display scale
/// and carries its token, and every member of the family listed before it
/// is a variant without that token, that entry is chosen. With the files
/// `Logo.scale-100.png` and `Logo.scale-200.png` listed for `Logo.png` at
/// scale 100, this is the first of them.
pub proof fn exact_variant_is_matched(
    icon_path: Seq<char>,
    listing: Seq<DirEntry>,
    target: i16,
    at: int,
)
    requires
        file_name(icon_path).len() > 0,
        !is_directory_entry(icon_path, listing),
        0 <= at < listing.len(),
        in_family(listing[at], file_stem(icon_path)),
        file_scale(listing[at].path@) == Some(target),
        contains(file_stem(listing[at].path@), scale_token(target as int)),
        forall|j: int|
            0 <= j < at && in_family(#[trigger] listing[j], file_stem(icon_path)) ==> is_dropped(
                listing[j].path@,
                target as int,
            ),
    ensures
        matched_icon(icon_path, listing, target) == Some(listing[at].path@),
{
    let stem = file_stem(icon_path);
    let members = family(listing, stem);
    let best = target as int;
    let k = family_member(listing, stem, best, at);
    assert(scales(members)[k] == Some(target));
    assert(best_scale(scales(members), target) == target);
    assert(!is_dropped(members[k], best));
    if any_dropped(members, best) {
        first_survivor(members, best, k);
    } else {
        if k > 0 {
            assert(is_dropped(members[0], best));
        }
    }
}

} // verus!

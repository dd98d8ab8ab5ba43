use icon_resolver::scale::{
    match_icon_path, read_file_scale, read_stem_scale, read_suffix, reduce_to_best_scale,
    select_best_scale, DirEntry,
};
use icon_resolver::IconMatcher;

fn files(names: &[&str]) -> Vec<String> {
    names.iter().map(|n| format!("C:\\pkg\\Assets\\{}", n)).collect()
}

fn listing(names: &[&str]) -> Vec<DirEntry> {
    files(names).into_iter().map(|path| DirEntry { path, is_file: true }).collect()
}

fn permutations(items: &[i16]) -> Vec<Vec<i16>> {
    if items.len() <= 1 {
        return vec![items.to_vec()];
    }
    let mut all = Vec::new();
    for i in 0..items.len() {
        let mut rest = items.to_vec();
        let head = rest.remove(i);
        for mut tail in permutations(&rest) {
            tail.insert(0, head);
            all.push(tail);
        }
    }
    all
}

#[test]
fn default_matcher_has_scale_100() {
    assert_eq!(IconMatcher::default().display_scale, 100);
}

#[test]
fn stem_scale_is_the_number_behind_the_token() {
    assert_eq!(read_stem_scale("Logo.scale-100"), Some(100));
    assert_eq!(read_stem_scale("Logo.scale-200"), Some(200));
    assert_eq!(read_stem_scale("Square44x44Logo.scale-125"), Some(125));
    assert_eq!(read_stem_scale("Logo.scale-100_contrast-black"), Some(100));
    assert_eq!(read_stem_scale("scale-400"), Some(400));
}

#[test]
fn stem_scale_is_absent_where_the_suffix_is_no_number() {
    assert_eq!(read_stem_scale("Logo"), None);
    assert_eq!(read_stem_scale("Logo.scale-"), None);
    assert_eq!(read_stem_scale("Logo.scale-abc"), None);
    assert_eq!(read_stem_scale("Logo.scale-100_targetsize-16"), None);
    assert_eq!(read_stem_scale("Logo.scale-99999"), None);
    assert_eq!(read_stem_scale("Logo.Scale-100"), None);
}

#[test]
fn suffix_is_parsed_as_a_number() {
    assert_eq!(read_suffix(&Some("150".to_string())), Some(150));
    assert_eq!(read_suffix(&Some("x150".to_string())), None);
    assert_eq!(read_suffix(&None), None);
}

#[test]
fn file_scale_needs_the_token_in_the_stem() {
    assert_eq!(read_file_scale("C:\\a\\Logo.scale-150.png"), Some(150));
    assert_eq!(read_file_scale("C:\\a\\Logo.png"), None);
    assert_eq!(read_file_scale("C:\\scale-150\\Logo.png"), None);
    assert_eq!(read_file_scale("C:\\a\\Logo.scale-150"), None);
}

#[test]
fn exact_scale_wins_in_every_order() {
    for order in permutations(&[100, 150, 200, 400]) {
        let values: Vec<Option<i16>> = order.iter().map(|v| Some(*v)).collect();
        for target in [100i16, 150, 200, 400] {
            assert_eq!(select_best_scale(&values, target), target);
        }
    }
}

#[test]
fn without_exact_scale_the_highest_wins_in_every_order() {
    for order in permutations(&[100, 150, 200]) {
        let values: Vec<Option<i16>> = order.iter().map(|v| Some(*v)).collect();
        assert_eq!(select_best_scale(&values, 125), 200);
        assert_eq!(select_best_scale(&values, 50), 200);
        assert_eq!(select_best_scale(&values, 400), 200);
    }
}

#[test]
fn scale_match_fallback_in_listing_order() {
    let values = vec![Some(100), Some(150), Some(200)];
    assert_eq!(select_best_scale(&values, 125), 200);
}

#[test]
fn best_scale_passes_over_entries_without_scale() {
    assert_eq!(select_best_scale(&vec![], 100), -1);
    assert_eq!(select_best_scale(&vec![None, None], 100), -1);
    assert_eq!(select_best_scale(&vec![None, Some(150), None], 100), 150);
    assert_eq!(select_best_scale(&vec![Some(-5)], 100), -1);
    assert_eq!(select_best_scale(&vec![Some(-5)], -5), -5);
    assert_eq!(select_best_scale(&vec![Some(0), Some(-1)], 100), 0);
}

#[test]
fn scale_match_exactness() {
    let family = files(&["Logo.scale-200.png", "Logo.scale-100.png", "Logo.scale-400.png"]);
    let kept = reduce_to_best_scale(&family, 100);
    assert_eq!(kept, Some(files(&["Logo.scale-100.png"])));
}

#[test]
fn reduction_keeps_files_without_scale_token() {
    let family = files(&["Logo.png", "Logo.scale-100.png", "Logo.scale-200.png", "LogoWide.png"]);
    let kept = reduce_to_best_scale(&family, 200);
    assert_eq!(kept, Some(files(&["Logo.png", "Logo.scale-200.png", "LogoWide.png"])));
}

#[test]
fn reduction_falls_back_to_the_highest_scale() {
    let family = files(&["Logo.scale-100.png", "Logo.scale-150.png", "Logo.scale-200.png"]);
    assert_eq!(reduce_to_best_scale(&family, 125), Some(files(&["Logo.scale-200.png"])));
    let reversed = files(&["Logo.scale-200.png", "Logo.scale-150.png", "Logo.scale-100.png"]);
    assert_eq!(reduce_to_best_scale(&reversed, 125), Some(files(&["Logo.scale-200.png"])));
}

#[test]
fn no_scale_token_family_is_not_reduced() {
    let family = files(&["Logo.png", "LogoWide.png", "Logo.targetsize-16.png"]);
    assert_eq!(reduce_to_best_scale(&family, 100), None);
    assert_eq!(reduce_to_best_scale(&Vec::new(), 100), None);
}

#[test]
fn reduction_that_removes_nothing_gives_nothing() {
    let family = files(&["Logo.png", "Logo.scale-100.png"]);
    assert_eq!(reduce_to_best_scale(&family, 100), None);
    let same = files(&["Logo.scale-100.png", "Logo.scale-100_contrast-black.png"]);
    assert_eq!(reduce_to_best_scale(&same, 100), None);
}

#[test]
fn token_of_the_best_scale_is_looked_for_as_text() {
    let family = files(&["Logo.scale-100.png", "Logo.scale-1000.png", "Logo.scale-200.png"]);
    let kept = reduce_to_best_scale(&family, 100);
    assert_eq!(kept, Some(files(&["Logo.scale-100.png", "Logo.scale-1000.png"])));
}

#[test]
fn unparsable_variants_are_dropped_beside_a_parsed_one() {
    let family = files(&["Logo.scale-abc.png", "Logo.scale-150.png"]);
    assert_eq!(reduce_to_best_scale(&family, 100), Some(files(&["Logo.scale-150.png"])));
}

#[test]
fn family_of_unparsable_variants_is_emptied() {
    let family = files(&["Logo.scale-abc.png", "Logo.png"]);
    assert_eq!(reduce_to_best_scale(&family, 100), Some(files(&["Logo.png"])));
    let only = files(&["Logo.scale-abc.png"]);
    assert_eq!(reduce_to_best_scale(&only, 100), Some(Vec::new()));
}

#[test]
fn equal_paths_are_all_removed() {
    let family = files(&["Logo.scale-200.png", "Logo.scale-100.png", "Logo.scale-200.png"]);
    assert_eq!(reduce_to_best_scale(&family, 100), Some(files(&["Logo.scale-100.png"])));
}

#[test]
fn packaged_logo_is_matched_at_scale_100() {
    let entries = listing(&["Logo.scale-100.png", "Logo.scale-200.png"]);
    let matcher = IconMatcher { display_scale: 100 };
    let chosen = match_icon_path("C:\\pkg\\Assets\\Logo.png", &entries, &matcher);
    assert_eq!(chosen, Some("C:\\pkg\\Assets\\Logo.scale-100.png".to_string()));
}

#[test]
fn packaged_logo_is_matched_at_scale_200() {
    let entries = listing(&["Logo.scale-100.png", "Logo.scale-200.png", "Other.scale-200.png"]);
    let matcher = IconMatcher { display_scale: 200 };
    let chosen = match_icon_path("C:\\pkg\\Assets\\Logo.png", &entries, &matcher);
    assert_eq!(chosen, Some("C:\\pkg\\Assets\\Logo.scale-200.png".to_string()));
}

#[test]
fn match_takes_the_first_of_the_family_in_listing_order() {
    let entries = listing(&["Store.png", "WideLogo.png", "Logo.png", "Logo.scale-100.png"]);
    let matcher = IconMatcher::default();
    let chosen = match_icon_path("C:\\pkg\\Assets\\Logo.png", &entries, &matcher);
    assert_eq!(chosen, Some("C:\\pkg\\Assets\\WideLogo.png".to_string()));
}

#[test]
fn match_passes_over_entries_that_are_no_files() {
    let mut entries = listing(&["Logo.scale-100.png", "Logo.scale-200.png"]);
    entries[0].is_file = false;
    let matcher = IconMatcher { display_scale: 100 };
    let chosen = match_icon_path("C:\\pkg\\Assets\\Logo.png", &entries, &matcher);
    assert_eq!(chosen, Some("C:\\pkg\\Assets\\Logo.scale-200.png".to_string()));
}

#[test]
fn match_is_absent_without_family() {
    let matcher = IconMatcher::default();
    let entries = listing(&["Store.png", "Tile.scale-100.png"]);
    assert_eq!(match_icon_path("C:\\pkg\\Assets\\Logo.png", &entries, &matcher), None);
    assert_eq!(match_icon_path("C:\\pkg\\Assets\\Logo.png", &Vec::new(), &matcher), None);
}

#[test]
fn match_is_absent_where_the_nominal_path_names_no_file() {
    let matcher = IconMatcher::default();
    let entries = listing(&["Logo.scale-100.png"]);
    assert_eq!(match_icon_path("C:\\pkg\\Assets\\", &entries, &matcher), None);
    assert_eq!(match_icon_path("", &entries, &matcher), None);
}

#[test]
fn match_is_absent_where_only_unparsable_variants_exist() {
    let matcher = IconMatcher::default();
    let entries = listing(&["Logo.scale-abc.png"]);
    assert_eq!(match_icon_path("C:\\pkg\\Assets\\Logo.png", &entries, &matcher), None);
}

#[test]
fn match_is_absent_where_the_nominal_path_is_a_directory() {
    let matcher = IconMatcher::default();
    let mut entries = listing(&["Logo.scale-100.png", "Logo", "Logo.png"]);
    entries[1].is_file = false;
    assert_eq!(match_icon_path("C:\\pkg\\Assets\\Logo", &entries, &matcher), None);
    entries[1].is_file = true;
    assert_eq!(
        match_icon_path("C:\\pkg\\Assets\\Logo", &entries, &matcher),
        Some("C:\\pkg\\Assets\\Logo.scale-100.png".to_string())
    );
}

#[test]
fn directory_of_another_name_does_not_hinder_the_match() {
    let matcher = IconMatcher::default();
    let mut entries = listing(&["Logo.dir", "Logo.scale-100.png"]);
    entries[0].is_file = false;
    assert_eq!(
        match_icon_path("C:\\pkg\\Assets\\Logo.png", &entries, &matcher),
        Some("C:\\pkg\\Assets\\Logo.scale-100.png".to_string())
    );
}

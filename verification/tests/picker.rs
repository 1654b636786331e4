use thumbpick::args::{parse_args, Config};
use thumbpick::grid::Grid;
use thumbpick::input::{InputState, Key, KeyOutcome, Mode, NavAction, Direction};
use thumbpick::pipeline::chunk_paths;
use thumbpick::scan::{has_image_extension, keep_entry, scan_filter, ScanEntry};
use thumbpick::thumb::{collect_decoded, fit_dimensions, resolve_attempts, Thumbnail};

fn entry(path: &str, names: &[&str], is_file: bool) -> ScanEntry {
    ScanEntry {
        path: path.to_string(),
        names: names.iter().map(|n| n.to_string()).collect(),
        is_file,
    }
}

fn thumbnail(path: &str, width: u32, height: u32) -> Thumbnail {
    Thumbnail { path: path.to_string(), width, height }
}

// --- Scanner ---

#[test]
fn extension_allow_list() {
    assert!(has_image_extension("a.jpg"));
    assert!(has_image_extension("a.jpeg"));
    assert!(has_image_extension("a.png"));
    assert!(has_image_extension("a.gif"));
    assert!(has_image_extension("a.webp"));
    assert!(has_image_extension("a.bmp"));
    assert!(!has_image_extension("a.txt"));
    assert!(!has_image_extension("a.tar.gz"));
    assert!(!has_image_extension("nodot"));
    assert!(!has_image_extension("a."));
}

#[test]
fn extension_case_insensitive() {
    assert!(has_image_extension("photo.JPG"));
    assert!(has_image_extension("photo.JpEg"));
    assert!(has_image_extension("photo.PNG"));
    assert!(has_image_extension("photo.WEBP"));
    assert!(!has_image_extension("photo.TXT"));
}

#[test]
fn extension_needs_a_stem() {
    // A leading dot alone opens no extension.
    assert!(!has_image_extension(".jpg"));
    assert!(has_image_extension("x.jpg"));
    assert!(has_image_extension("..jpg"));
}

#[test]
fn scan_keeps_only_image_files() {
    // A directory with three jpg files and one txt file: three entries.
    let entries = vec![
        entry("d", &["d"], false),
        entry("d/a.jpg", &["d", "a.jpg"], true),
        entry("d/b.jpg", &["d", "b.jpg"], true),
        entry("d/c.jpg", &["d", "c.jpg"], true),
        entry("d/notes.txt", &["d", "notes.txt"], true),
    ];
    let kept = scan_filter(&entries);
    assert_eq!(kept, vec!["d/a.jpg", "d/b.jpg", "d/c.jpg"]);
}

#[test]
fn scan_excludes_vcs_subtree() {
    let entries = vec![
        entry("r/.git", &["r", ".git"], false),
        entry("r/.git/img.png", &["r", ".git", "img.png"], true),
        entry("r/.git/objects/pic.jpg", &["r", ".git", "objects", "pic.jpg"], true),
        entry("r/pic.jpg", &["r", "pic.jpg"], true),
    ];
    let kept = scan_filter(&entries);
    assert_eq!(kept, vec!["r/pic.jpg"]);
}

#[test]
fn scan_skips_directories_and_odd_names() {
    // A directory whose own name ends like an image is still no file.
    assert!(!keep_entry(&entry("d/x.jpg", &["d", "x.jpg"], false)));
    // A file literally named like the metadata directory is skipped.
    assert!(!keep_entry(&entry(".git", &[".git"], true)));
    // A dot file with no real extension is skipped.
    assert!(!keep_entry(&entry("d/.gitignore", &["d", ".gitignore"], true)));
    assert!(keep_entry(&entry("d/ok.bmp", &["d", "ok.bmp"], true)));
}

// --- Worker pool ---

#[test]
fn fit_keeps_small_images() {
    assert_eq!(fit_dimensions(200, 200), (200, 200));
    assert_eq!(fit_dimensions(100, 50), (100, 50));
    assert_eq!(fit_dimensions(1, 1), (1, 1));
}

#[test]
fn fit_scales_down_to_bound() {
    assert_eq!(fit_dimensions(400, 200), (200, 100));
    assert_eq!(fit_dimensions(500, 1000), (100, 200));
    // round(200 * 200 / 300) = round(133.33) = 133
    assert_eq!(fit_dimensions(300, 200), (200, 133));
    let (w, h) = fit_dimensions(4096, 17);
    assert!(w <= 200 && h <= 200);
    assert_eq!(w, 200);
    // round(17 * 200 / 4096) = round(0.83) = 1
    assert_eq!(h, 1);
}

#[test]
fn decode_fallback_order() {
    let direct = Some(thumbnail("a.gif", 120, 80));
    let fallback = Some(thumbnail("a.gif", 100, 60));
    let r = resolve_attempts(direct, fallback).unwrap();
    assert_eq!(r.width, 120);
    let r2 = resolve_attempts(None, Some(thumbnail("b.gif", 100, 60))).unwrap();
    assert_eq!(r2.width, 100);
    assert!(resolve_attempts(None, None).is_none());
}

#[test]
fn failed_items_are_dropped_not_fatal() {
    let results = vec![
        Some(thumbnail("a.jpg", 10, 10)),
        None,
        Some(thumbnail("b.jpg", 20, 20)),
        None,
    ];
    let out = collect_decoded(results);
    let paths: Vec<String> = out.iter().map(|t| t.path.clone()).collect();
    assert_eq!(paths, vec!["a.jpg", "b.jpg"]);
}

#[test]
fn all_failed_gives_empty_batch() {
    let out = collect_decoded(vec![None, None, None]);
    assert!(out.is_empty());
}

// --- Batching ---

#[test]
fn chunks_are_bounded_and_ordered() {
    let paths: Vec<String> = (0..250).map(|i| format!("p{}", i)).collect();
    let chunks = chunk_paths(&paths);
    assert_eq!(chunks.len(), 3);
    assert_eq!(chunks[0].len(), 100);
    assert_eq!(chunks[1].len(), 100);
    assert_eq!(chunks[2].len(), 50);
    let rejoined: Vec<String> = chunks.into_iter().flatten().collect();
    assert_eq!(rejoined, paths);
}

#[test]
fn chunking_edge_sizes() {
    let none: Vec<String> = Vec::new();
    assert!(chunk_paths(&none).is_empty());
    let one = vec!["a".to_string()];
    let chunks = chunk_paths(&one);
    assert_eq!(chunks.len(), 1);
    assert_eq!(chunks[0], vec!["a".to_string()]);
    let exact: Vec<String> = (0..100).map(|i| i.to_string()).collect();
    let chunks = chunk_paths(&exact);
    assert_eq!(chunks.len(), 1);
    assert_eq!(chunks[0].len(), 100);
}

// --- Filter engine ---

#[test]
fn empty_query_matches_everything() {
    assert!(thumbpick::filter::matches("", "/a/cat1.jpg"));
    assert!(thumbpick::filter::matches("", ""));
}

#[test]
fn query_is_case_insensitive_substring() {
    assert!(thumbpick::filter::matches("cat", "/a/cat1.jpg"));
    assert!(!thumbpick::filter::matches("cat", "/a/dog.jpg"));
    assert!(thumbpick::filter::matches("CAT", "/a/cat1.jpg"));
    assert!(thumbpick::filter::matches("cat", "/A/CAT1.JPG"));
    assert!(thumbpick::filter::matches("a/c", "/a/cat1.jpg"));
    assert!(!thumbpick::filter::matches("catx", "/a/cat1.jpg"));
}

#[test]
fn grid_filters_and_refilters() {
    let mut grid = Grid::new();
    let batch = vec![thumbnail("/a/cat1.jpg", 10, 10), thumbnail("/a/dog.jpg", 10, 10)];
    grid.apply_batch(batch, "");
    assert_eq!(grid.visible_paths(), vec!["/a/cat1.jpg", "/a/dog.jpg"]);

    grid.refilter("cat");
    assert_eq!(grid.visible_paths(), vec!["/a/cat1.jpg"]);

    // Re-running with the unchanged query yields the same visibility set.
    grid.refilter("cat");
    assert_eq!(grid.visible_paths(), vec!["/a/cat1.jpg"]);

    grid.refilter("");
    assert_eq!(grid.visible_paths(), vec!["/a/cat1.jpg", "/a/dog.jpg"]);
}

#[test]
fn late_entries_obey_current_query() {
    let mut grid = Grid::new();
    grid.apply_batch(vec![thumbnail("/a/cat1.jpg", 10, 10)], "dog");
    assert!(grid.visible_paths().is_empty());
    grid.apply_batch(vec![thumbnail("/b/dog2.png", 10, 10)], "dog");
    assert_eq!(grid.visible_paths(), vec!["/b/dog2.png"]);
}

// --- Input state machine ---

fn press(state: &mut InputState, key: Key) -> KeyOutcome {
    state.handle_key(key, false)
}

#[test]
fn enter_commits_only_with_selection() {
    let mut s = InputState::new(false);
    let out = s.handle_key(Key::Enter, true);
    assert!(out.consumed && out.commit);
    let out = s.handle_key(Key::Enter, false);
    assert!(out.consumed && !out.commit);
}

#[test]
fn plain_scheme_edits_query() {
    let mut s = InputState::new(false);
    assert!(!s.label_visible());
    for c in ['c', 'a', 't'] {
        let out = press(&mut s, Key::Char(c));
        assert!(out.consumed && out.refilter);
    }
    assert_eq!(s.status_text(), "Search: cat");
    assert!(s.label_visible());

    let out = press(&mut s, Key::Backspace);
    assert!(out.consumed && out.refilter);
    assert_eq!(s.status_text(), "Search: ca");

    let out = press(&mut s, Key::Escape);
    assert!(out.consumed && out.refilter);
    assert_eq!(s.status_text(), "Search: ");
    assert!(!s.label_visible());
}

#[test]
fn plain_scheme_accepts_punctuation_set() {
    let mut s = InputState::new(false);
    for c in ['a', '-', '_', '.'] {
        assert!(press(&mut s, Key::Char(c)).consumed);
    }
    assert_eq!(s.status_text(), "Search: a-_.");
    // A space or slash is no edit and passes through.
    assert!(!press(&mut s, Key::Char(' ')).consumed);
    assert!(!press(&mut s, Key::Char('/')).consumed);
    assert!(!press(&mut s, Key::Other).consumed);
    assert_eq!(s.status_text(), "Search: a-_.");
}

#[test]
fn backspace_on_empty_plain_query_still_consumed() {
    let mut s = InputState::new(false);
    let out = press(&mut s, Key::Backspace);
    assert!(out.consumed && out.refilter);
    assert!(!s.label_visible());
}

#[test]
fn modal_slash_opens_search_and_backspace_leaves_it() {
    let mut s = InputState::new(true);
    assert!(!s.label_visible());
    let out = press(&mut s, Key::Char('/'));
    assert!(out.consumed);
    assert_eq!(s.mode, Mode::Searching);
    assert!(s.label_visible());
    assert_eq!(s.status_text(), "Search: ");

    let out = press(&mut s, Key::Backspace);
    assert!(out.consumed && out.refilter && out.restore_focus);
    assert_eq!(s.mode, Mode::Normal);
    assert!(!s.label_visible());
}

#[test]
fn modal_escape_clears_and_leaves_search() {
    let mut s = InputState::new(true);
    press(&mut s, Key::Char('/'));
    for c in ['c', 'a', 't'] {
        press(&mut s, Key::Char(c));
    }
    assert_eq!(s.status_text(), "Search: cat");
    let out = press(&mut s, Key::Escape);
    assert!(out.consumed && out.refilter);
    assert_eq!(s.mode, Mode::Normal);
    assert_eq!(s.status_text(), "Search: ");
    assert!(!s.label_visible());
}

#[test]
fn modal_backspace_edits_before_leaving() {
    let mut s = InputState::new(true);
    press(&mut s, Key::Char('/'));
    press(&mut s, Key::Char('x'));
    let out = press(&mut s, Key::Backspace);
    assert!(out.consumed && out.refilter && !out.restore_focus);
    assert_eq!(s.mode, Mode::Searching);
    // Now empty: the label still shows the bare prompt while searching.
    assert!(s.label_visible());
    assert_eq!(s.status_text(), "Search: ");
}

#[test]
fn modal_navigation_keys() {
    let mut s = InputState::new(true);
    let out = s.handle_key(Key::Char('h'), false);
    assert!(out.consumed);
    assert_eq!(out.nav, Some(NavAction::SelectFirst));

    let out = s.handle_key(Key::Char('h'), true);
    assert_eq!(out.nav, Some(NavAction::Move(Direction::Left)));
    let out = s.handle_key(Key::Char('j'), true);
    assert_eq!(out.nav, Some(NavAction::Move(Direction::Down)));
    let out = s.handle_key(Key::Char('k'), true);
    assert_eq!(out.nav, Some(NavAction::Move(Direction::Up)));
    let out = s.handle_key(Key::Char('l'), true);
    assert_eq!(out.nav, Some(NavAction::Move(Direction::Right)));

    // Other keys pass through in Normal mode.
    let out = s.handle_key(Key::Char('x'), true);
    assert!(!out.consumed && out.nav.is_none());
    assert_eq!(s.mode, Mode::Normal);
}

#[test]
fn modal_search_collects_characters() {
    let mut s = InputState::new(true);
    press(&mut s, Key::Char('/'));
    for c in ['i', 'm', 'g', '.', 'p'] {
        let out = press(&mut s, Key::Char(c));
        assert!(out.consumed && out.refilter);
    }
    assert_eq!(s.status_text(), "Search: img.p");
    // Enter still commits from inside the search.
    let out = s.handle_key(Key::Enter, true);
    assert!(out.commit);
}

// --- Arguments ---

fn strings(args: &[&str]) -> Vec<String> {
    args.iter().map(|a| a.to_string()).collect()
}

#[test]
fn directory_argument_is_required() {
    assert!(parse_args(&strings(&[])).is_none());
    assert!(parse_args(&strings(&["--vi"])).is_none());
    assert!(parse_args(&strings(&["--vi-mode"])).is_none());
    assert!(parse_args(&strings(&[""])).is_none());
}

#[test]
fn directory_and_flags_parse() {
    let c: Config = parse_args(&strings(&["pics"])).unwrap();
    assert_eq!(c.dir, "pics");
    assert!(!c.vi_mode);

    let c = parse_args(&strings(&["--vi", "pics"])).unwrap();
    assert_eq!(c.dir, "pics");
    assert!(c.vi_mode);

    let c = parse_args(&strings(&["pics", "--vi-mode"])).unwrap();
    assert_eq!(c.dir, "pics");
    assert!(c.vi_mode);
}

#[test]
fn last_plain_argument_wins() {
    let c = parse_args(&strings(&["a", "b"])).unwrap();
    assert_eq!(c.dir, "b");
    // Unknown options are ignored and never taken as the directory.
    let c = parse_args(&strings(&["--verbose", "d"])).unwrap();
    assert_eq!(c.dir, "d");
    assert!(!c.vi_mode);
    // An empty trailing argument overrides and forces the usage error.
    assert!(parse_args(&strings(&["a", ""])).is_none());
}

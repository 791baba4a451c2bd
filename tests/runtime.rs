use gitui::config::ShowUntrackedFilesConfig;
use gitui::jobs::UpdateTicker;
use gitui::lfs::{is_among_tracked_lfs_files, lfs_files_from_output};
use gitui::options::{Options, OptionsData};
use gitui::popups::AppOption;

#[test]
fn lfs_listing_is_parsed() {
    let out = "\n\n3f7a2b1c9d * assets/logo.png\nd41d8cd98f - media/intro.mp4\n";
    let files = lfs_files_from_output(out);
    // the empty line after the last newline is kept, as an empty name
    assert_eq!(files, vec!["assets/logo.png".to_string(), "media/intro.mp4".to_string(), String::new()]);
    assert!(is_among_tracked_lfs_files(&files, "assets/"));
    assert!(is_among_tracked_lfs_files(&files, "media/intro.mp4"));
    assert!(!is_among_tracked_lfs_files(&files, "src"));
    assert!(lfs_files_from_output("").is_empty());
}

#[test]
fn ticks_build_up_to_a_refresh() {
    let mut t = UpdateTicker::new();
    let mut refreshes = 0;
    for _ in 0..42 {
        if t.on_tick() {
            refreshes += 1;
        }
    }
    // 42 ticks of 120 ms are 5040 ms: one refresh, 40 ms left over
    assert_eq!(refreshes, 1);
    assert_eq!(t.elapsed, 40);
}

#[test]
fn options_popup_switches() {
    let mut o = Options::new(OptionsData::default());
    o.switch_option(AppOption::StatusShowUntracked, true);
    assert!(o.status_show_untracked() == Some(ShowUntrackedFilesConfig::Normal));
    o.switch_option(AppOption::StatusShowUntracked, true);
    o.switch_option(AppOption::StatusShowUntracked, true);
    assert!(o.status_show_untracked() == Some(ShowUntrackedFilesConfig::No));
    o.switch_option(AppOption::StatusShowUntracked, false);
    assert!(o.status_show_untracked() == Some(ShowUntrackedFilesConfig::All));
    o.switch_option(AppOption::StatusShowUntracked, false);
    o.switch_option(AppOption::StatusShowUntracked, false);
    assert!(o.status_show_untracked() == None);
    o.switch_option(AppOption::DiffContextLines, false);
    assert_eq!(o.diff_options().context, 2);
    o.switch_option(AppOption::DiffInterhunkLines, true);
    assert_eq!(o.diff_options().interhunk_lines, 1);
}

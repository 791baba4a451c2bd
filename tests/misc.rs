use gitui::copy_popups::CopyPopupComponent;
use gitui::jobs::{AsyncDynJob, AsyncFetchJob, AsyncGitNotification, AsyncJobExternCmd, AsyncJobList, AsyncStopJob, JobState, WorkerAction};
use gitui::popups::{Focus, GitCmdOption, PushComponentModifier, SearchOptionsPopupComponent, TabType};
use gitui::queue::{create_local_queue, CopyClipboardOpen};
use gitui::commit::CommitId;
use gitui::utils::{get_author_width, number_of_digits};

#[test]
fn compare_view_focus_toggles() {
    assert!(Focus::MainLog.get_next() == Focus::CompareLog);
    assert!(Focus::CompareLog.get_next() == Focus::MainLog);
}

#[test]
fn option_cycles() {
    let mut o = GitCmdOption::GitPush;
    o.next();
    assert!(o == GitCmdOption::GitFetch);
    o.prev();
    o.prev();
    assert!(o == GitCmdOption::GitCheckout);
    assert!(TabType::Misc.next() == TabType::GitCmds);
    assert!(PushComponentModifier::ForceDelete.force() && PushComponentModifier::ForceDelete.delete());
    assert!(!PushComponentModifier::Plain.force());
}

#[test]
fn search_options_titles() {
    let mut p = SearchOptionsPopupComponent::new();
    assert_eq!(p.title, "Search for... (Author Message SHA )");
    p.sha_only();
    assert_eq!(p.title, "Search for... (SHA )");
    p.toggle_selected();
    p.update_title();
    assert_eq!(p.title, "Search for... (Author SHA )");
    p.move_selection(false);
    assert_eq!(p.selected_idx, 2);
    p.toggle_selected();
    p.author = false;
    p.close();
    assert_eq!(p.title, "Search for...");
}

#[test]
fn fetch_job_runs_once() {
    let mut j = AsyncFetchJob::new("/repo".to_string(), None);
    assert!(j.pending_request().is_some());
    assert!(j.complete(Err("network".to_string())) == AsyncGitNotification::Fetch);
    assert!(j.pending_request().is_none());
    j.complete(Ok(()));
    assert!(matches!(j.state, Some(JobState::Response(Err(_)))));
}

#[test]
fn job_worker_decisions() {
    let l = AsyncJobList::new();
    assert!(AsyncStopJob {}.should_stop());
    assert!(!AsyncJobExternCmd::new("ls".to_string()).should_stop());
    assert!(l.after_job(true, true, true, false) == WorkerAction::Continue);
    assert!(l.after_job(true, true, true, true) == WorkerAction::Exit);
    assert!(l.after_job(true, false, true, false) == WorkerAction::Exit);
}

#[test]
fn small_helpers() {
    assert_eq!(number_of_digits(0), 0);
    assert_eq!(number_of_digits(9), 1);
    assert_eq!(number_of_digits(200), 3);
    assert_eq!(get_author_width(10), 3);
    assert_eq!(get_author_width(49), 10);
    assert_eq!(get_author_width(500), 20);
    assert!(create_local_queue().is_empty());
    let mut p = CopyPopupComponent::new();
    p.open(CopyClipboardOpen::from_commit(CommitId::new([1; 20])));
    assert!(p.visible);
    assert_eq!(p.copy_request.unwrap().commit_ids.len(), 1);
}

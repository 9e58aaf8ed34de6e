use pixiv_dl::error::{check_status, DownloadError};
use pixiv_dl::outcome::{
    save_action, settle_animated, settle_artworks, settle_pages, transfer_outcome, SaveAction,
    SaveOutcome,
};

fn transport(msg: &str) -> DownloadError {
    DownloadError::Transport(msg.to_string())
}

#[test]
fn existing_file_is_skipped() {
    assert_eq!(save_action(true), SaveAction::Skip);
    assert_eq!(save_action(false), SaveAction::Fetch);
}

#[test]
fn rerun_with_every_file_present_fetches_nothing() {
    let exists = vec![true; 5];
    let actions: Vec<SaveAction> = exists.iter().map(|e| save_action(*e)).collect();
    assert!(actions.iter().all(|a| *a == SaveAction::Skip));
    let outcomes: Vec<SaveOutcome> = actions.iter().map(|_| SaveOutcome::Skipped).collect();
    let s = settle_pages(&outcomes);
    assert!(s.result.is_ok());
    assert!(s.logged.is_empty());
}

#[test]
fn one_failed_page_is_logged_and_swallowed() {
    let outcomes = vec![
        SaveOutcome::Saved,
        transfer_outcome(Err(transport("reset"))),
        transfer_outcome(Ok(())),
        SaveOutcome::Skipped,
    ];
    let s = settle_pages(&outcomes);
    assert!(s.result.is_ok());
    assert_eq!(s.logged, vec![1]);
}

#[test]
fn transfer_outcome_keeps_error() {
    assert!(matches!(transfer_outcome(Ok(())), SaveOutcome::Saved));
    match transfer_outcome(Err(DownloadError::Filesystem("disk full".to_string()))) {
        SaveOutcome::Failed(DownloadError::Filesystem(m)) => assert_eq!(m, "disk full"),
        other => panic!("unexpected {other:?}"),
    }
}

#[test]
fn outcome_into_result() {
    assert!(SaveOutcome::Saved.into_result().is_ok());
    assert!(SaveOutcome::Skipped.into_result().is_ok());
    assert!(matches!(
        SaveOutcome::Failed(transport("x")).into_result(),
        Err(DownloadError::Transport(_))
    ));
}

#[test]
fn animated_fails_when_archive_fails() {
    let r = settle_animated(Ok(()), Err(transport("archive meta")));
    match r {
        Err(DownloadError::Transport(m)) => assert_eq!(m, "archive meta"),
        other => panic!("unexpected {other:?}"),
    }
}

#[test]
fn animated_reports_thumbnail_failure_first() {
    let r = settle_animated(Err(transport("thumb")), Err(transport("archive")));
    match r {
        Err(DownloadError::Transport(m)) => assert_eq!(m, "thumb"),
        other => panic!("unexpected {other:?}"),
    }
    assert!(settle_animated(Ok(()), Ok(())).is_ok());
}

#[test]
fn author_succeeds_despite_failed_artworks() {
    let results = vec![
        Ok(()),
        Err(DownloadError::UnsupportedArtworkType(1)),
        Ok(()),
        Err(transport("gone")),
    ];
    let s = settle_artworks(&results);
    assert!(s.result.is_ok());
    assert_eq!(s.logged, vec![1, 3]);
}

#[test]
fn status_outside_2xx_fails_with_id() {
    assert!(check_status("5", 200).is_ok());
    assert!(check_status("5", 299).is_ok());
    for code in [199u16, 300, 404, 500] {
        match check_status("5", code) {
            Err(DownloadError::HttpStatus { id, status }) => {
                assert_eq!(id, "5");
                assert_eq!(status, code);
            }
            other => panic!("unexpected {other:?}"),
        }
    }
}

use launcher_core::app_data::AppCaps;
use launcher_core::coordinator::download_phase;
use launcher_core::coordinator::launch_phase;
use launcher_core::coordinator::partition_outcomes;
use launcher_core::errors::AppDataError;
use launcher_core::errors::AppProcessError;
use launcher_core::general::unwrap_all_option;

fn trio() -> Vec<AppCaps> {
    vec![
        // One downloadable tool, absent on disk.
        AppCaps {
            enabled: true,
            path: Some("packages/alpha".to_string()),
            executable_name: Some("alpha.exe".to_string()),
            download_source: Some("https://example.com/alpha.zip".to_string()),
        },
        // One installed tool with no download source.
        AppCaps {
            enabled: true,
            path: Some("packages/beta".to_string()),
            executable_name: Some("beta.exe".to_string()),
            download_source: None,
        },
        // One disabled tool.
        AppCaps {
            enabled: false,
            path: Some("packages/gamma".to_string()),
            executable_name: Some("gamma.exe".to_string()),
            download_source: Some("https://example.com/gamma.zip".to_string()),
        },
    ]
}

#[test]
fn one_failed_download_leaves_the_other_tools_untouched() {
    let apps = trio();

    // Phase one: only the first tool qualifies for a download.
    let plans = download_phase(&apps, &vec![false, true, false]);
    assert_eq!(plans.len(), 3);
    let request = plans[0].as_ref().expect("the downloadable tool gets a plan").clone();
    assert!(matches!(plans[1], Err(AppDataError::DownloadDisabled)));
    assert!(matches!(plans[2], Err(AppDataError::DownloadDisabled)));

    // The transfer for the first tool fails; its outcome says so.
    let settled = request.complete(false);
    assert!(matches!(settled, Err(AppDataError::DownloadFailed)));

    // Phase two still proceeds for the other two from their own presence
    // snapshots; the first tool's failure decides only the first entry.
    let decisions = launch_phase(&apps, &vec![false, true, true]);
    assert_eq!(decisions.len(), 3);
    assert!(matches!(decisions[0], Err(AppProcessError::AppNotFound)));
    let beta = decisions[1].as_ref().expect("the installed tool launches");
    assert_eq!(beta.executable, "packages/beta/beta.exe");
    assert!(beta.args.is_empty());
    assert!(matches!(decisions[2], Err(AppProcessError::AppNotFound)));

    // Every outcome is collected: one handle to wait on, two reports.
    let (commands, failures) = partition_outcomes(decisions);
    assert_eq!(commands.len(), 1);
    assert_eq!(commands[0].executable, "packages/beta/beta.exe");
    assert_eq!(failures.len(), 2);
}

#[test]
fn download_phase_gates_every_descriptor_separately() {
    let apps = trio();
    // With every install directory absent, the disabled tool still gets no
    // download and the sourceless tool still gets no download.
    let plans = download_phase(&apps, &vec![false, false, false]);
    assert!(plans[0].is_ok());
    assert!(matches!(plans[1], Err(AppDataError::DownloadDisabled)));
    assert!(matches!(plans[2], Err(AppDataError::DownloadDisabled)));
}

#[test]
fn launch_phase_requires_enablement_and_presence() {
    let apps = trio();
    let decisions = launch_phase(&apps, &vec![true, false, true]);
    assert!(decisions[0].is_ok());
    assert!(matches!(decisions[1], Err(AppProcessError::AppNotFound)));
    assert!(matches!(decisions[2], Err(AppProcessError::AppNotFound)));
}

#[test]
fn partition_keeps_every_outcome_in_order() {
    let outcomes: Vec<Result<i32, &str>> = vec![Ok(1), Err("a"), Ok(2), Err("b"), Ok(3)];
    let (oks, errs) = partition_outcomes(outcomes);
    assert_eq!(oks, vec![1, 2, 3]);
    assert_eq!(errs, vec!["a", "b"]);
}

#[test]
fn partition_of_nothing_is_nothing() {
    let outcomes: Vec<Result<i32, &str>> = Vec::new();
    let (oks, errs) = partition_outcomes(outcomes);
    assert!(oks.is_empty());
    assert!(errs.is_empty());
}

#[test]
fn unwrap_all_option_unwraps_every_entry() {
    let r = unwrap_all_option(vec![Some(1), Some(2), Some(3)]);
    assert_eq!(r, Some(vec![1, 2, 3]));
}

#[test]
fn unwrap_all_option_fails_on_any_absent_entry() {
    assert_eq!(unwrap_all_option(vec![Some(1), None, Some(3)]), None);
    assert_eq!(unwrap_all_option::<i32>(vec![None]), None);
}

#[test]
fn unwrap_all_option_of_nothing_is_an_empty_list() {
    let r = unwrap_all_option::<i32>(Vec::new());
    assert_eq!(r, Some(Vec::new()));
}

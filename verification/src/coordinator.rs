//! The lifecycle coordinator's two-phase planning.
//!
//! Phase one plans a conditional download for every descriptor; phase two
//! decides a launch for every descriptor. Each phase yields one outcome per
//! tool, so no tool's failure hides another's; the host runs the planned
//! transfers and processes concurrently and collects every outcome before
//! the next phase, because presence on disk depends on the downloads'
//! side effects.
//!
//! Launch decisions take their own presence snapshot as input and never
//! look at a download outcome, so a failed download leaves every other
//! tool's launch untouched.

use vstd::prelude::*;

use crate::app_data::AppCaps;
use crate::app_data::AppModel;
use crate::app_data::Application;
use crate::app_data::CommandModel;
use crate::app_data::DownloadRequest;
use crate::app_data::LaunchCommand;
use crate::app_data::is_archive_file_name;
use crate::app_data::spec_can_download;
use crate::app_data::spec_executable_path;
use crate::errors::AppDataError;
use crate::errors::AppProcessError;

verus! {

/// What a download plan for a tool with model `m` and presence answer
/// `path_present` must be: refused with `DownloadDisabled` exactly when the
/// condition fails, refused with `PathNotFound` when it holds but no
/// install directory is configured, and otherwise a request naming the
/// configured source and a fresh archive inside the install directory.
pub open spec fn is_download_plan(
    r: Result<DownloadRequest, AppDataError>,
    m: AppModel,
    path_present: bool,
) -> bool {
    &&& !spec_can_download(m, path_present) ==> r == Err::<DownloadRequest, AppDataError>(
        AppDataError::DownloadDisabled,
    )
    &&& spec_can_download(m, path_present) && m.path is None ==> r == Err::<
        DownloadRequest,
        AppDataError,
    >(AppDataError::PathNotFound)
    &&& spec_can_download(m, path_present) && m.path is Some ==> (r matches Ok(req) && req@.url
        == m.download_source.unwrap() && req@.directory == m.path.unwrap() && is_archive_file_name(
        req@.archive_name,
    ))
    &&& r matches Err(e) ==> e != AppDataError::DownloadFailed
}

/// Plan phase one: one download plan per descriptor, each from that
/// descriptor's fields and its own presence answer alone.
pub fn download_phase(apps: &Vec<AppCaps>, path_present: &Vec<bool>) -> (r: Vec<
    Result<DownloadRequest, AppDataError>,
>)
    requires
        apps@.len() == path_present@.len(),
    ensures
        r@.len() == apps@.len(),
        forall|i: int|
            0 <= i < apps@.len() ==> #[trigger] is_download_plan(
                r@[i],
                apps@[i]@,
                path_present@[i],
            ),
{
    let mut r: Vec<Result<DownloadRequest, AppDataError>> = Vec::new();
    let mut i: usize = 0;
    while i < apps.len()
        invariant
            i <= apps@.len(),
            apps@.len() == path_present@.len(),
            r@.len() == i,
            forall|j: int|
                0 <= j < i ==> #[trigger] is_download_plan(r@[j], apps@[j]@, path_present@[j]),
        decreases apps@.len() - i,
    {
        let plan = apps[i].prepare_download_given(path_present[i]);
        r.push(plan);
        i += 1;
    }
    r
}

/// What the launch decision for a tool with model `m` and presence answer
/// `executable_present` is: `AppNotFound` when the tool is disabled, its
/// executable is not present, or no executable location can be derived;
/// otherwise the derived executable with no arguments.
pub open spec fn spec_spawn_decision(m: AppModel, executable_present: bool) -> Result<
    CommandModel,
    AppProcessError,
> {
    if !m.enabled || !executable_present {
        Err(AppProcessError::AppNotFound)
    } else if spec_executable_path(m) is Err {
        Err(AppProcessError::AppNotFound)
    } else {
        Ok(CommandModel { executable: spec_executable_path(m).unwrap(), args: Seq::empty() })
    }
}

/// The abstract contents of a launch outcome.
pub open spec fn launch_result_view(r: Result<LaunchCommand, AppProcessError>) -> Result<
    CommandModel,
    AppProcessError,
> {
    match r {
        Ok(c) => Ok(c@),
        Err(e) => Err(e),
    }
}

/// Decide one tool's launch from its fields and its presence answer:
/// exactly `spec_spawn_decision`.
pub fn spawn_decision(app: &AppCaps, executable_present: bool) -> (r: Result<
    LaunchCommand,
    AppProcessError,
>)
    ensures
        launch_result_view(r) == spec_spawn_decision(app@, executable_present),
{
    if !app.get_enabled() || !executable_present {
        return Err(AppProcessError::AppNotFound);
    }
    match app.get_executable_path() {
        Ok(p) => {
            let cmd = LaunchCommand { executable: p, args: Vec::new() };
            proof {
                assert(cmd@.args =~= Seq::<Seq<char>>::empty());
                assert(cmd@ =~= spec_spawn_decision(app@, executable_present).unwrap());
            }
            Ok(cmd)
        },
        Err(_) => Err(AppProcessError::AppNotFound),
    }
}

/// Plan phase two: one launch decision per descriptor, each from that
/// descriptor's fields and its own presence answer alone — in particular,
/// independent of any download outcome.
pub fn launch_phase(apps: &Vec<AppCaps>, executable_present: &Vec<bool>) -> (r: Vec<
    Result<LaunchCommand, AppProcessError>,
>)
    requires
        apps@.len() == executable_present@.len(),
    ensures
        r@.len() == apps@.len(),
        forall|i: int|
            0 <= i < apps@.len() ==> #[trigger] launch_result_view(r@[i]) == spec_spawn_decision(
                apps@[i]@,
                executable_present@[i],
            ),
{
    let mut r: Vec<Result<LaunchCommand, AppProcessError>> = Vec::new();
    let mut i: usize = 0;
    while i < apps.len()
        invariant
            i <= apps@.len(),
            apps@.len() == executable_present@.len(),
            r@.len() == i,
            forall|j: int|
                0 <= j < i ==> #[trigger] launch_result_view(r@[j]) == spec_spawn_decision(
                    apps@[j]@,
                    executable_present@[j],
                ),
        decreases apps@.len() - i,
    {
        let decision = spawn_decision(&apps[i], executable_present[i]);
        r.push(decision);
        i += 1;
    }
    r
}

/// The successes among a list of outcomes, in order.
pub open spec fn oks_of<T, E>(s: Seq<Result<T, E>>) -> Seq<T>
    decreases s.len(),
{
    if s.len() == 0 {
        Seq::empty()
    } else if s.last() is Ok {
        oks_of(s.drop_last()).push(s.last()->Ok_0)
    } else {
        oks_of(s.drop_last())
    }
}

/// The failures among a list of outcomes, in order.
pub open spec fn errs_of<T, E>(s: Seq<Result<T, E>>) -> Seq<E>
    decreases s.len(),
{
    if s.len() == 0 {
        Seq::empty()
    } else if s.last() is Err {
        errs_of(s.drop_last()).push(s.last()->Err_0)
    } else {
        errs_of(s.drop_last())
    }
}

/// Split a phase's per-tool outcomes into the successes to go on with and
/// the failures to report. Nothing is dropped: every success is kept, in
/// order, and every failure is kept, in order.
pub fn partition_outcomes<T, E>(results: Vec<Result<T, E>>) -> (r: (Vec<T>, Vec<E>))
    ensures
        r.0@ == oks_of(results@),
        r.1@ == errs_of(results@),
{
    let ghost orig: Seq<Result<T, E>> = results@;
    let mut rest = results;
    let mut oks: Vec<T> = Vec::new();
    let mut errs: Vec<E> = Vec::new();
    let ghost mut taken: int = 0;
    while rest.len() > 0
        invariant
            0 <= taken,
            taken + rest@.len() == orig.len(),
            orig =~= orig.take(taken) + rest@,
            oks@ == oks_of(orig.take(taken)),
            errs@ == errs_of(orig.take(taken)),
        decreases rest@.len(),
    {
        let outcome = rest.remove(0);
        proof {
            assert(orig[taken] == outcome);
            assert(orig.take(taken + 1).drop_last() =~= orig.take(taken));
            assert(orig.take(taken + 1).last() == orig[taken]);
        }
        match outcome {
            Ok(value) => oks.push(value),
            Err(reason) => errs.push(reason),
        }
        proof {
            taken = taken + 1;
            assert(orig =~= orig.take(taken) + rest@);
        }
    }
    proof {
        assert(orig.take(taken) =~= orig);
    }
    (oks, errs)
}

} // verus!

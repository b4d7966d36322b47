//! The replay watcher and its render trigger.
//!
//! The host subscribes to creation events under the renderer's watched
//! directory and, for each one, samples whether the designated key is held
//! at that instant. The policy here turns one event plus one key sample
//! into at most one renderer invocation; the host starts the renderer and
//! keeps watching without waiting for it. Events are handled one by one in
//! delivery order, with no de-duplication: each event re-checks the key on
//! its own.

use vstd::prelude::*;

use crate::app_data::opt_view;
use crate::app_data::spec_executable_path;
use crate::app_data::Application;
use crate::data::DanserData;
use crate::errors::AppProcessError;
use crate::pathing::file_name_of;
use crate::pathing::spec_file_name;

verus! {

/// The kind of a filesystem event. Only creations trigger renders; every
/// other kind is ignored.
#[derive(Clone, Copy, PartialEq, Eq, Structural, Debug)]
pub enum WatchEventKind {
    Create,
    Other,
}

/// An ephemeral filesystem event: the kind and the full path of the entry
/// it concerns. Consumed by the trigger policy and discarded.
#[derive(Clone)]
pub struct WatchEvent {
    pub kind: WatchEventKind,
    pub path: String,
}

/// Everything the watcher needs for its lifetime, borrowed from the
/// renderer's descriptor once at start: the renderer executable, the
/// settings profile to render with, and the directory to watch.
#[derive(Clone, Debug)]
pub struct WatchPlan {
    pub executable: String,
    pub settings_name: String,
    pub replays_dir: String,
}

/// Decide whether the replay watcher can start for this renderer
/// descriptor, and with what. In order:
///
/// - a disabled renderer is refused with `AppNotFound`, like any other
///   disabled tool;
/// - a descriptor missing its install directory, executable name, settings
///   profile or replay directory cannot run a watcher at all — there is
///   nothing to launch or nowhere to watch, so the subsystem is simply not
///   applicable, reported as `AppNotFound`;
/// - an absent executable (the host's presence snapshot) is a launch
///   failure, reported like a failed spawn.
pub fn plan_replay_watcher(app: &DanserData, executable_present: bool) -> (r: Result<
    WatchPlan,
    AppProcessError,
>)
    ensures
        !app@.enabled ==> r == Err::<WatchPlan, AppProcessError>(AppProcessError::AppNotFound),
        app@.enabled && (app@.path is None || app@.executable_name is None || opt_view(
            app.settings_name,
        ) is None || opt_view(app.osu_replays_path) is None) ==> r == Err::<
            WatchPlan,
            AppProcessError,
        >(AppProcessError::AppNotFound),
        app@.enabled && app@.path is Some && app@.executable_name is Some && opt_view(
            app.settings_name,
        ) is Some && opt_view(app.osu_replays_path) is Some && !executable_present ==> (r matches
            Err(e) && e matches AppProcessError::AppLaunchError(m)
            && m@ == "Danser executable not found"@),
        app@.enabled && app@.path is Some && app@.executable_name is Some && opt_view(
            app.settings_name,
        ) is Some && opt_view(app.osu_replays_path) is Some && executable_present ==> (r matches
            Ok(plan) && Ok::<Seq<char>, crate::errors::AppDataError>(plan.executable@)
            == spec_executable_path(app@) && plan.settings_name@ == opt_view(
            app.settings_name,
        ).unwrap() && plan.replays_dir@ == opt_view(app.osu_replays_path).unwrap()),
{
    if !app.get_enabled() {
        return Err(AppProcessError::AppNotFound);
    }
    let executable = match app.get_executable_path() {
        Ok(p) => p,
        Err(_) => {
            return Err(AppProcessError::AppNotFound);
        },
    };
    let settings_name = match &app.settings_name {
        Some(s) => s.clone(),
        None => {
            return Err(AppProcessError::AppNotFound);
        },
    };
    let replays_dir = match app.get_replays_path() {
        Some(p) => p,
        None => {
            return Err(AppProcessError::AppNotFound);
        },
    };
    if !executable_present {
        return Err(
            AppProcessError::AppLaunchError(String::from_str("Danser executable not found")),
        );
    }
    Ok(WatchPlan { executable, settings_name, replays_dir })
}

/// An ephemeral renderer invocation: executable, output name derived from
/// the triggering file, settings profile, source replay path. Built fresh
/// for one qualifying event and never reused.
#[derive(Clone)]
pub struct RenderInvocation {
    pub executable: String,
    pub out_name: String,
    pub settings_name: String,
    pub replay_path: String,
}

/// The render command line: output name, settings profile and replay path
/// as flags, then the flag asking for immediate headless execution.
pub open spec fn spec_invocation_args(
    out_name: Seq<char>,
    settings_name: Seq<char>,
    replay_path: Seq<char>,
) -> Seq<Seq<char>> {
    seq![
        "--out="@ + out_name,
        "--settings="@ + settings_name,
        "--replay="@ + replay_path,
        "--quickstart"@,
    ]
}

impl RenderInvocation {
    /// The argument list to start the renderer with.
    pub fn command_line_args(&self) -> (r: Vec<String>)
        ensures
            r@.map_values(|s: String| s@) == spec_invocation_args(
                self.out_name@,
                self.settings_name@,
                self.replay_path@,
            ),
    {
        let mut args: Vec<String> = Vec::new();
        args.push(String::from_str("--out=").concat(self.out_name.as_str()));
        args.push(String::from_str("--settings=").concat(self.settings_name.as_str()));
        args.push(String::from_str("--replay=").concat(self.replay_path.as_str()));
        args.push(String::from_str("--quickstart"));
        proof {
            assert(args@.map_values(|s: String| s@) =~= spec_invocation_args(
                self.out_name@,
                self.settings_name@,
                self.replay_path@,
            ));
        }
        args
    }
}

/// The trigger policy: one filesystem event plus one key sample yield
/// exactly one renderer invocation when the event is a creation, the key
/// was held at that instant, and the created entry has a file name — and
/// none otherwise.
pub fn render_decision(plan: &WatchPlan, event: &WatchEvent, key_held: bool) -> (r: Option<
    RenderInvocation,
>)
    ensures
        (r is Some) <==> (event.kind == WatchEventKind::Create && key_held && spec_file_name(
            event.path@,
        ) is Some),
        r matches Some(inv) ==> inv.executable@ == plan.executable@ && inv.settings_name@
            == plan.settings_name@ && inv.replay_path@ == event.path@ && Some(inv.out_name@)
            == spec_file_name(event.path@),
{
    if !(event.kind == WatchEventKind::Create) {
        return None;
    }
    if !key_held {
        return None;
    }
    match file_name_of(event.path.as_str()) {
        Some(name) => Some(
            RenderInvocation {
                executable: plan.executable.clone(),
                out_name: name,
                settings_name: plan.settings_name.clone(),
                replay_path: event.path.clone(),
            },
        ),
        None => None,
    }
}

/// Interpret one sample of the host's asynchronous key-state query, as the
/// platform reports it: a key code outside 0..=255 is invalid; otherwise
/// the sign bit of the raw state word says whether the key is held right
/// now.
pub fn interpret_key_state(key: i32, raw: i16) -> (r: Result<bool, String>)
    ensures
        (key < 0 || key > 255) ==> (r matches Err(m) && m@ == "Invalid key code"@),
        0 <= key <= 255 ==> r == Ok::<bool, String>(raw < 0),
{
    if key < 0 || key > 255 {
        return Err(String::from_str("Invalid key code"));
    }
    if raw == 0 {
        return Ok(false);
    }
    Ok(raw < 0)
}

/// The watcher's reading of one key sample: held exactly when the query
/// succeeded and reported the key down. A failed query counts as "not
/// held", so a transient input failure never stops the watcher.
pub fn key_held_from_sample(sample: &Result<bool, String>) -> (r: bool)
    ensures
        r <==> (*sample matches Ok(b) && b),
{
    match sample {
        Ok(b) => *b,
        Err(_) => false,
    }
}

} // verus!

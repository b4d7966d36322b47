//! The application capability interface.
//!
//! Every managed tool, whatever it is, is described by the same four
//! capability fields: an enablement flag, an install directory, an
//! executable name, and an optional public download source. Everything else
//! — presence checks, the download condition, download planning, and the launch
//! decision — is derived from those four fields by one shared
//! implementation, written once as default methods of [`Application`].
//!
//! Network, filesystem and process work is the host's; the derived
//! operations hand it plans ([`DownloadRequest`], [`LaunchCommand`]) whose
//! contents are pinned down here.

use vstd::prelude::*;

use crate::errors::AppDataError;
use crate::errors::AppProcessError;
use crate::file_probe::path_exists;
use crate::pathing::is_blank;
use crate::pathing::is_separator;
use crate::pathing::join_path;
use crate::pathing::spec_join;
use crate::pathing::str_is_blank;

verus! {

/// The abstract capability record of one managed tool.
#[verifier::ext_equal]
pub struct AppModel {
    pub enabled: bool,
    pub path: Option<Seq<char>>,
    pub executable_name: Option<Seq<char>>,
    pub download_source: Option<Seq<char>>,
}

/// The view of an optional owned string.
pub open spec fn opt_view(o: Option<String>) -> Option<Seq<char>> {
    match o {
        Some(s) => Some(s@),
        None => None,
    }
}

/// A plain snapshot of the four capability fields of one tool, taken so
/// that a uniform list of tools can be handled together.
#[derive(Clone)]
pub struct AppCaps {
    pub enabled: bool,
    pub path: Option<String>,
    pub executable_name: Option<String>,
    pub download_source: Option<String>,
}

impl View for AppCaps {
    type V = AppModel;

    open spec fn view(&self) -> AppModel {
        AppModel {
            enabled: self.enabled,
            path: opt_view(self.path),
            executable_name: opt_view(self.executable_name),
            download_source: opt_view(self.download_source),
        }
    }
}

/// The derived executable location: install directory and executable name
/// joined, or the reason one of them is missing. Existence on disk is not
/// part of this.
pub open spec fn spec_executable_path(m: AppModel) -> Result<Seq<char>, AppDataError> {
    if m.path is None {
        Err(AppDataError::PathNotFound)
    } else if m.executable_name is None {
        Err(AppDataError::ExecutableNameNotFound)
    } else {
        Ok(spec_join(m.path.unwrap(), m.executable_name.unwrap()))
    }
}

/// The download condition: a tool may be downloaded exactly when it is enabled,
/// a download source is configured, and its install directory is not
/// already present. A download never overwrites an existing install and
/// never runs for a disabled tool.
pub open spec fn spec_can_download(m: AppModel, path_present: bool) -> bool {
    m.enabled && m.download_source is Some && !path_present
}

/// The shape of a freshly named archive file: a 36-character random
/// identifier followed by the zip suffix, with no path separator anywhere
/// — the archive lands directly inside the install directory, so
/// unpacking beside it unpacks into that directory.
pub open spec fn is_archive_file_name(name: Seq<char>) -> bool {
    &&& name.len() == 40
    &&& name.subrange(36, 40) == ".zip"@
    &&& forall|i: int| 0 <= i < name.len() ==> !is_separator(#[trigger] name[i])
}

/// The abstract contents of a download plan.
#[verifier::ext_equal]
pub struct RequestModel {
    pub url: Seq<char>,
    pub directory: Seq<char>,
    pub archive_name: Seq<char>,
}

/// A planned download: the source to fetch and the archive file inside the
/// install directory to fetch it into. The host performs the transfer.
#[derive(Clone)]
pub struct DownloadRequest {
    pub url: String,
    pub directory: String,
    pub archive_name: String,
}

impl View for DownloadRequest {
    type V = RequestModel;

    open spec fn view(&self) -> RequestModel {
        RequestModel { url: self.url@, directory: self.directory@, archive_name: self.archive_name@ }
    }
}

impl DownloadRequest {
    /// The full path of the archive file the transfer should write.
    pub fn destination(&self) -> (r: String)
        ensures
            r@ == spec_join(self@.directory, self@.archive_name),
    {
        join_path(self.directory.as_str(), self.archive_name.as_str())
    }

    /// Settle the plan once the host reports whether the transfer worked:
    /// the archive's path on success, and any transport failure collapsed
    /// to `DownloadFailed`.
    pub fn complete(&self, fetched: bool) -> (r: Result<String, AppDataError>)
        ensures
            fetched ==> (r matches Ok(p) && p@ == spec_join(self@.directory, self@.archive_name)),
            !fetched ==> r == Err::<String, AppDataError>(AppDataError::DownloadFailed),
    {
        if fetched {
            Ok(self.destination())
        } else {
            Err(AppDataError::DownloadFailed)
        }
    }
}

/// The abstract contents of a launch command.
#[verifier::ext_equal]
pub struct CommandModel {
    pub executable: Seq<char>,
    pub args: Seq<Seq<char>>,
}

/// A command the host should start: an executable and its arguments.
pub struct LaunchCommand {
    pub executable: String,
    pub args: Vec<String>,
}

impl View for LaunchCommand {
    type V = CommandModel;

    open spec fn view(&self) -> CommandModel {
        CommandModel {
            executable: self.executable@,
            args: self.args@.map_values(|s: String| s@),
        }
    }
}

/// Relies on uuid::Uuid::new_v4 and its display form: a fresh random
/// identifier, always rendered as 36 characters, all of them hex digits or
/// hyphens — in particular, never a path separator, so a name built from
/// it stays a single path component. Fresh values from one call to the
/// next are what makes concurrently planned archive names collide only
/// with negligible probability; nothing more is promised of the text.
#[verifier::external_body]
fn random_identifier() -> (r: String)
    ensures
        r@.len() == 36,
        forall|i: int| 0 <= i < r@.len() ==> !is_separator(#[trigger] r@[i]),
{
    uuid::Uuid::new_v4().to_string()
}

/// The shared capability contract of every managed tool.
///
/// A concrete tool supplies only the four accessors; every derived
/// operation below has one default implementation, never overridden, so the
/// derived logic has a single source of truth.
pub trait Application: View<V = AppModel> {
    /// Is the tool enabled? A disabled tool is never downloaded or
    /// launched, whatever its other fields hold.
    fn get_enabled(&self) -> (r: bool)
        ensures
            r == self@.enabled,
    ;

    /// The configured install directory, if any.
    fn get_path(&self) -> (r: Option<String>)
        ensures
            opt_view(r) == self@.path,
    ;

    /// The configured executable name, relative to the install directory,
    /// if any.
    fn get_executable_name(&self) -> (r: Option<String>)
        ensures
            opt_view(r) == self@.executable_name,
    ;

    /// The configured public download source, if any.
    fn get_public_download_url(&self) -> (r: Option<String>)
        ensures
            opt_view(r) == self@.download_source,
    ;

    /// Point-in-time check: is the configured install directory present on
    /// disk? A missing or blank path counts as absent. The disk's answer is
    /// a snapshot, so only the field-determined direction is promised.
    fn path_exists(&self) -> (r: bool)
        ensures
            r ==> self@.path is Some && !is_blank(self@.path.unwrap()),
    {
        match self.get_path() {
            None => false,
            Some(p) => {
                if str_is_blank(p.as_str()) {
                    false
                } else {
                    path_exists(p.as_str())
                }
            },
        }
    }

    /// The derived executable location, exactly as `spec_executable_path`
    /// gives it. Does not touch the disk.
    fn get_executable_path(&self) -> (r: Result<String, AppDataError>)
        ensures
            r matches Ok(p) ==> spec_executable_path(self@) == Ok::<Seq<char>, AppDataError>(p@),
            r matches Err(e) ==> spec_executable_path(self@) == Err::<Seq<char>, AppDataError>(e),
    {
        let path = match self.get_path() {
            Some(p) => p,
            None => {
                return Err(AppDataError::PathNotFound);
            },
        };
        let executable_name = match self.get_executable_name() {
            Some(n) => n,
            None => {
                return Err(AppDataError::ExecutableNameNotFound);
            },
        };
        Ok(join_path(path.as_str(), executable_name.as_str()))
    }

    /// Point-in-time check: does the derived executable exist on disk? Only
    /// the field-determined direction is promised: a positive answer means
    /// both fields are set.
    fn executable_exists(&self) -> (r: bool)
        ensures
            r ==> spec_executable_path(self@) is Ok,
    {
        match self.get_executable_path() {
            Ok(p) => path_exists(p.as_str()),
            Err(_) => false,
        }
    }

    /// The download condition, with the presence answer supplied by the caller:
    /// exactly `spec_can_download`.
    fn can_download_given(&self, path_present: bool) -> (r: bool)
        ensures
            r == spec_can_download(self@, path_present),
    {
        self.get_enabled() && self.get_public_download_url().is_some() && !path_present
    }

    /// The download condition against the disk as it is right now. A
    /// missing or blank install path never counts as present, so on those
    /// inputs the disk decides nothing and the result is pinned.
    fn can_download(&self) -> (r: bool)
        ensures
            !self@.enabled ==> !r,
            self@.download_source is None ==> !r,
            r ==> self@.enabled && self@.download_source is Some,
            self@.path is None ==> r == (self@.enabled && self@.download_source is Some),
            (self@.path matches Some(p) && is_blank(p)) ==> r == (self@.enabled
                && self@.download_source is Some),
    {
        let present = self.path_exists();
        self.can_download_given(present)
    }

    /// Plan a conditional download, with the presence answer supplied by
    /// the caller. Refused outright with `DownloadDisabled` when the tool may
    /// not download — decided first, before anything else happens — and
    /// otherwise the plan names a fresh archive file inside the install
    /// directory for the host to fetch the source into.
    fn prepare_download_given(&self, path_present: bool) -> (r: Result<
        DownloadRequest,
        AppDataError,
    >)
        ensures
            !spec_can_download(self@, path_present) ==> r == Err::<
                DownloadRequest,
                AppDataError,
            >(AppDataError::DownloadDisabled),
            spec_can_download(self@, path_present) && self@.path is None ==> r == Err::<
                DownloadRequest,
                AppDataError,
            >(AppDataError::PathNotFound),
            spec_can_download(self@, path_present) && self@.path is Some ==> (r matches Ok(req)
                && req@.url == self@.download_source.unwrap() && req@.directory
                == self@.path.unwrap() && is_archive_file_name(req@.archive_name)),
            r matches Err(e) ==> e != AppDataError::DownloadFailed,
    {
        if !self.can_download_given(path_present) {
            return Err(AppDataError::DownloadDisabled);
        }
        let path = match self.get_path() {
            Some(p) => p,
            None => {
                return Err(AppDataError::PathNotFound);
            },
        };
        let url = match self.get_public_download_url() {
            Some(u) => u,
            None => {
                return Err(AppDataError::DownloadUrlNotFound);
            },
        };
        let identifier = random_identifier();
        let archive_name = identifier.concat(".zip");
        proof {
            reveal_strlit(".zip");
            assert(archive_name@.subrange(36, 40) =~= ".zip"@);
            assert forall|i: int|
                0 <= i < archive_name@.len() implies !is_separator(#[trigger] archive_name@[i]) by {
                if i < 36 {
                    assert(archive_name@[i] == identifier@[i]);
                } else {
                    assert(archive_name@[i] == ".zip"@[i - 36]);
                }
            }
        }
        Ok(DownloadRequest { url, directory: path, archive_name })
    }

    /// Plan a conditional download against the disk as it is right now.
    /// Everything the fields alone determine is promised — in particular, a
    /// missing or blank install path never counts as present, so those
    /// inputs are pinned; the exact condition over a given presence answer
    /// is stated by `prepare_download_given`.
    fn prepare_download(&self) -> (r: Result<DownloadRequest, AppDataError>)
        ensures
            !self@.enabled ==> r == Err::<DownloadRequest, AppDataError>(
                AppDataError::DownloadDisabled,
            ),
            self@.download_source is None ==> r == Err::<DownloadRequest, AppDataError>(
                AppDataError::DownloadDisabled,
            ),
            self@.enabled && self@.download_source is Some && self@.path is None ==> r == Err::<
                DownloadRequest,
                AppDataError,
            >(AppDataError::PathNotFound),
            self@.enabled && self@.download_source is Some && (self@.path matches Some(p)
                && is_blank(p)) ==> (r matches Ok(req) && req@.url
                == self@.download_source.unwrap() && req@.directory == self@.path.unwrap()
                && is_archive_file_name(req@.archive_name)),
            r matches Ok(req) ==> self@.enabled && self@.download_source is Some && self@.path
                is Some && req@.url == self@.download_source.unwrap() && req@.directory
                == self@.path.unwrap() && is_archive_file_name(req@.archive_name),
            r matches Err(e) ==> e != AppDataError::DownloadFailed,
    {
        let present = self.path_exists();
        self.prepare_download_given(present)
    }

    /// Decide a launch: refused with `AppNotFound` when the tool is
    /// disabled or its executable is not present on disk right now;
    /// otherwise the command the host should start — the bare executable
    /// with no arguments.
    fn try_spawn_process(&self) -> (r: Result<LaunchCommand, AppProcessError>)
        ensures
            !self@.enabled ==> r == Err::<LaunchCommand, AppProcessError>(
                AppProcessError::AppNotFound,
            ),
            r matches Ok(cmd) ==> self@.enabled && spec_executable_path(self@) == Ok::<
                Seq<char>,
                AppDataError,
            >(cmd@.executable) && cmd@.args.len() == 0,
            r matches Err(e) ==> e == AppProcessError::AppNotFound,
    {
        if !self.get_enabled() {
            return Err(AppProcessError::AppNotFound);
        }
        if !self.executable_exists() {
            return Err(AppProcessError::AppNotFound);
        }
        match self.get_executable_path() {
            Ok(p) => Ok(LaunchCommand { executable: p, args: Vec::new() }),
            Err(_) => Err(AppProcessError::AppNotFound),
        }
    }

    /// A plain snapshot of the four capability fields.
    fn capabilities(&self) -> (r: AppCaps)
        ensures
            r@ == self@,
    {
        AppCaps {
            enabled: self.get_enabled(),
            path: self.get_path(),
            executable_name: self.get_executable_name(),
            download_source: self.get_public_download_url(),
        }
    }
}

impl Application for AppCaps {
    fn get_enabled(&self) -> bool {
        self.enabled
    }

    fn get_path(&self) -> (r: Option<String>) {
        match &self.path {
            Some(p) => Some(p.clone()),
            None => None,
        }
    }

    fn get_executable_name(&self) -> (r: Option<String>) {
        match &self.executable_name {
            Some(n) => Some(n.clone()),
            None => None,
        }
    }

    fn get_public_download_url(&self) -> (r: Option<String>) {
        match &self.download_source {
            Some(u) => Some(u.clone()),
            None => None,
        }
    }
}

/// The download condition is exactly the conjunction of its three parts:
/// enabled, a source configured, and the install directory absent. Flipping
/// any one part of it denies a permitted download.
pub proof fn lemma_can_download_characterization(m: AppModel, path_present: bool)
    ensures
        spec_can_download(m, path_present) <==> (m.enabled && m.download_source is Some
            && !path_present),
        spec_can_download(m, path_present) ==> !spec_can_download(
            AppModel { enabled: false, ..m },
            path_present,
        ),
        spec_can_download(m, path_present) ==> !spec_can_download(
            AppModel { download_source: None, ..m },
            path_present,
        ),
        spec_can_download(m, path_present) ==> !spec_can_download(m, !path_present),
{
}

/// With the install directory already present, downloading is denied whatever
/// the other fields hold — a tool that is already installed is never
/// fetched again, even with a valid source configured.
pub proof fn lemma_existing_install_never_redownloaded(m: AppModel)
    ensures
        !spec_can_download(m, true),
{
}

} // verus!

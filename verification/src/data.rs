//! The concrete tool descriptors and the persisted configuration record.
//!
//! One struct per managed tool, each carrying the four capability fields
//! (plus tool-specific extras for the replay renderer) and supplying only
//! the accessors of [`Application`]; all derived behaviour comes from the
//! trait's shared default implementations. `ConfigData` bundles the five
//! and states the documented defaults that a first run writes out.

use vstd::prelude::*;

use crate::app_data::AppCaps;
use crate::app_data::AppModel;
use crate::app_data::Application;
use crate::app_data::opt_view;
use crate::pathing::join_path;
use crate::pathing::spec_join;

verus! {

/// The rhythm-game client.
#[derive(Clone)]
pub struct OsuData {
    pub path: Option<String>,
    pub executable_name: Option<String>,
    pub enabled: bool,
}

impl View for OsuData {
    type V = AppModel;

    open spec fn view(&self) -> AppModel {
        AppModel {
            enabled: self.enabled,
            path: opt_view(self.path),
            executable_name: opt_view(self.executable_name),
            download_source: None,
        }
    }
}

impl Application for OsuData {
    fn get_enabled(&self) -> bool {
        self.enabled
    }

    fn get_path(&self) -> (r: Option<String>) {
        match &self.path {
            Some(p) => Some(p.clone()),
            None => None,
        }
    }

    fn get_executable_name(&self) -> (r: Option<String>) {
        match &self.executable_name {
            Some(n) => Some(n.clone()),
            None => None,
        }
    }

    fn get_public_download_url(&self) -> (r: Option<String>) {
        None
    }
}

/// The replay viewer.
#[derive(Clone)]
pub struct RewindData {
    pub path: Option<String>,
    pub executable_name: Option<String>,
    pub enabled: bool,
}

impl View for RewindData {
    type V = AppModel;

    open spec fn view(&self) -> AppModel {
        AppModel {
            enabled: self.enabled,
            path: opt_view(self.path),
            executable_name: opt_view(self.executable_name),
            download_source: None,
        }
    }
}

impl Application for RewindData {
    fn get_enabled(&self) -> bool {
        self.enabled
    }

    fn get_path(&self) -> (r: Option<String>) {
        match &self.path {
            Some(p) => Some(p.clone()),
            None => None,
        }
    }

    fn get_executable_name(&self) -> (r: Option<String>) {
        match &self.executable_name {
            Some(n) => Some(n.clone()),
            None => None,
        }
    }

    fn get_public_download_url(&self) -> (r: Option<String>) {
        None
    }
}

/// The replay renderer. Besides the capability fields it carries the
/// settings profile to render with and the directory new replays appear in.
#[derive(Clone)]
pub struct DanserData {
    pub path: Option<String>,
    pub executable_name: Option<String>,
    pub settings_name: Option<String>,
    pub osu_replays_path: Option<String>,
    pub download: bool,
    pub source: Option<String>,
    pub enabled: bool,
}

impl View for DanserData {
    type V = AppModel;

    open spec fn view(&self) -> AppModel {
        AppModel {
            enabled: self.enabled,
            path: opt_view(self.path),
            executable_name: opt_view(self.executable_name),
            download_source: opt_view(self.source),
        }
    }
}

impl Application for DanserData {
    fn get_enabled(&self) -> bool {
        self.enabled
    }

    fn get_path(&self) -> (r: Option<String>) {
        match &self.path {
            Some(p) => Some(p.clone()),
            None => None,
        }
    }

    fn get_executable_name(&self) -> (r: Option<String>) {
        match &self.executable_name {
            Some(n) => Some(n.clone()),
            None => None,
        }
    }

    fn get_public_download_url(&self) -> (r: Option<String>) {
        match &self.source {
            Some(u) => Some(u.clone()),
            None => None,
        }
    }
}

impl DanserData {
    /// The directory new replay files appear in, if configured.
    pub fn get_replays_path(&self) -> (r: Option<String>)
        ensures
            opt_view(r) == opt_view(self.osu_replays_path),
    {
        match &self.osu_replays_path {
            Some(p) => Some(p.clone()),
            None => None,
        }
    }
}

/// The tablet driver.
#[derive(Clone)]
pub struct OpenTabletDriverData {
    pub path: Option<String>,
    pub executable_name: Option<String>,
    pub source: Option<String>,
    pub download: bool,
    pub enabled: bool,
}

impl View for OpenTabletDriverData {
    type V = AppModel;

    open spec fn view(&self) -> AppModel {
        AppModel {
            enabled: self.enabled,
            path: opt_view(self.path),
            executable_name: opt_view(self.executable_name),
            download_source: opt_view(self.source),
        }
    }
}

impl Application for OpenTabletDriverData {
    fn get_enabled(&self) -> bool {
        self.enabled
    }

    fn get_path(&self) -> (r: Option<String>) {
        match &self.path {
            Some(p) => Some(p.clone()),
            None => None,
        }
    }

    fn get_executable_name(&self) -> (r: Option<String>) {
        match &self.executable_name {
            Some(n) => Some(n.clone()),
            None => None,
        }
    }

    fn get_public_download_url(&self) -> (r: Option<String>) {
        match &self.source {
            Some(u) => Some(u.clone()),
            None => None,
        }
    }
}

/// The trainer utility.
#[derive(Clone)]
pub struct OsuTrainerData {
    pub path: Option<String>,
    pub executable_name: Option<String>,
    pub download: bool,
    pub source: Option<String>,
    pub enabled: bool,
}

impl View for OsuTrainerData {
    type V = AppModel;

    open spec fn view(&self) -> AppModel {
        AppModel {
            enabled: self.enabled,
            path: opt_view(self.path),
            executable_name: opt_view(self.executable_name),
            download_source: opt_view(self.source),
        }
    }
}

impl Application for OsuTrainerData {
    fn get_enabled(&self) -> bool {
        self.enabled
    }

    fn get_path(&self) -> (r: Option<String>) {
        match &self.path {
            Some(p) => Some(p.clone()),
            None => None,
        }
    }

    fn get_executable_name(&self) -> (r: Option<String>) {
        match &self.executable_name {
            Some(n) => Some(n.clone()),
            None => None,
        }
    }

    fn get_public_download_url(&self) -> (r: Option<String>) {
        match &self.source {
            Some(u) => Some(u.clone()),
            None => None,
        }
    }
}

/// The full persisted configuration: one descriptor per managed tool.
#[derive(Clone)]
pub struct ConfigData {
    pub osu: OsuData,
    pub rewind: RewindData,
    pub danser: DanserData,
    pub open_tablet_driver: OpenTabletDriverData,
    pub osu_trainer: OsuTrainerData,
}

/// The documented defaults a first run writes out, relative to the host's
/// application-data directory: the game enabled under its usual install
/// location, everything else disabled, and the three downloadable tools
/// pointed at their published release archives under `./packages`.
pub open spec fn is_default_config(c: ConfigData, app_data: Seq<char>) -> bool {
    &&& c.osu.enabled == true
    &&& opt_view(c.osu.path) == Some(spec_join(app_data, "osu!"@))
    &&& opt_view(c.osu.executable_name) == Some("osu!.exe"@)
    &&& c.rewind.enabled == false
    &&& opt_view(c.rewind.path) == Some(spec_join(spec_join(app_data, "Programs"@), "Rewind"@))
    &&& opt_view(c.rewind.executable_name) == Some("Rewind.exe"@)
    &&& c.danser.enabled == false
    &&& c.danser.download == false
    &&& opt_view(c.danser.path) == Some(spec_join(spec_join("."@, "packages"@), "danser"@))
    &&& opt_view(c.danser.executable_name) == Some("danser-cli.exe"@)
    &&& opt_view(c.danser.settings_name) == Some("default"@)
    &&& opt_view(c.danser.osu_replays_path) == Some(
        spec_join(spec_join(app_data, "osu!"@), "Replays"@),
    )
    &&& opt_view(c.danser.source) == Some(
        "https://github.com/Wieku/danser-go/releases/download/0.9.1/danser-0.9.1-win.zip"@,
    )
    &&& c.open_tablet_driver.enabled == false
    &&& c.open_tablet_driver.download == false
    &&& opt_view(c.open_tablet_driver.path) == Some(
        spec_join(spec_join("."@, "packages"@), "opentabletdriver"@),
    )
    &&& opt_view(c.open_tablet_driver.executable_name) == Some("OpenTabletDriver.Daemon.exe"@)
    &&& opt_view(c.open_tablet_driver.source) == Some(
        "https://github.com/OpenTabletDriver/OpenTabletDriver/releases/download/v0.6.3.0/OpenTabletDriver.win-x64.zip"@,
    )
    &&& c.osu_trainer.enabled == false
    &&& c.osu_trainer.download == false
    &&& opt_view(c.osu_trainer.path) == Some(spec_join(spec_join("."@, "packages"@), "trainer"@))
    &&& opt_view(c.osu_trainer.executable_name) == Some("osu-trainer-v1.7.0/osu-trainer.exe"@)
    &&& opt_view(c.osu_trainer.source) == Some(
        "https://github.com/FunOrange/osu-trainer/releases/download/1.7.0/osu-trainer-v1.7.0.zip"@,
    )
}

impl ConfigData {
    /// Build the default configuration. The caller supplies the host's
    /// application-data directory, since reading it from the environment is
    /// the host's business.
    pub fn new(app_data_location: &str) -> (r: ConfigData)
        ensures
            is_default_config(r, app_data_location@),
    {
        let osu_path = join_path(app_data_location, "osu!");
        let programs = join_path(app_data_location, "Programs");
        let rewind_path = join_path(programs.as_str(), "Rewind");
        let replays_path = join_path(osu_path.as_str(), "Replays");
        let packages = join_path(".", "packages");
        let danser_path = join_path(packages.as_str(), "danser");
        let open_tablet_driver_path = join_path(packages.as_str(), "opentabletdriver");
        let osu_trainer_path = join_path(packages.as_str(), "trainer");

        ConfigData {
            osu: OsuData {
                enabled: true,
                path: Some(osu_path),
                executable_name: Some(String::from_str("osu!.exe")),
            },
            rewind: RewindData {
                enabled: false,
                path: Some(rewind_path),
                executable_name: Some(String::from_str("Rewind.exe")),
            },
            danser: DanserData {
                enabled: false,
                path: Some(danser_path),
                executable_name: Some(String::from_str("danser-cli.exe")),
                settings_name: Some(String::from_str("default")),
                osu_replays_path: Some(replays_path),
                source: Some(
                    String::from_str(
                        "https://github.com/Wieku/danser-go/releases/download/0.9.1/danser-0.9.1-win.zip",
                    ),
                ),
                download: false,
            },
            open_tablet_driver: OpenTabletDriverData {
                enabled: false,
                path: Some(open_tablet_driver_path),
                executable_name: Some(String::from_str("OpenTabletDriver.Daemon.exe")),
                source: Some(
                    String::from_str(
                        "https://github.com/OpenTabletDriver/OpenTabletDriver/releases/download/v0.6.3.0/OpenTabletDriver.win-x64.zip",
                    ),
                ),
                download: false,
            },
            osu_trainer: OsuTrainerData {
                enabled: false,
                path: Some(osu_trainer_path),
                executable_name: Some(String::from_str("osu-trainer-v1.7.0/osu-trainer.exe")),
                source: Some(
                    String::from_str(
                        "https://github.com/FunOrange/osu-trainer/releases/download/1.7.0/osu-trainer-v1.7.0.zip",
                    ),
                ),
                download: false,
            },
        }
    }

    /// The five descriptors' capability snapshots, in the fixed order the
    /// coordinator handles them: game, viewer, renderer, driver, trainer.
    pub fn capability_list(&self) -> (r: Vec<AppCaps>)
        ensures
            r@.len() == 5,
            r@[0]@ == self.osu@,
            r@[1]@ == self.rewind@,
            r@[2]@ == self.danser@,
            r@[3]@ == self.open_tablet_driver@,
            r@[4]@ == self.osu_trainer@,
    {
        let mut list: Vec<AppCaps> = Vec::new();
        list.push(self.osu.capabilities());
        list.push(self.rewind.capabilities());
        list.push(self.danser.capabilities());
        list.push(self.open_tablet_driver.capabilities());
        list.push(self.osu_trainer.capabilities());
        list
    }
}

} // verus!

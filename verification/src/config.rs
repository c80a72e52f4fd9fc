//! Process-lifetime configuration.
//!
//! The manager reads the resolver workaround parameters and the
//! feature-enable flags from here; everything else is consumed by the
//! surrounding program. Reading and writing the configuration file is
//! the surrounding program's job: this module only defines the record
//! and its default values.

use vstd::prelude::*;

verus! {

/// Where log lines go when file logging is enabled.
#[derive(Debug, Clone)]
pub struct FileLog {
    pub enabled: bool,
    pub path: String,
}

/// Log level and file-logging settings.
#[derive(Debug, Clone)]
pub struct Log {
    pub level: String,
    pub file: FileLog,
}

/// A server/channel list used as an allow or deny list.
#[derive(Debug, Clone)]
pub struct List {
    pub enabled: bool,
    pub servers: Vec<u64>,
    pub channels: Vec<u64>,
}

/// A feature toggle with its allow and deny lists.
#[derive(Debug, Clone)]
pub struct Feature {
    pub enabled: bool,
    pub blacklist: List,
    pub whitelist: List,
}

/// Resolver workaround parameters, forwarded verbatim into resolver calls.
#[derive(Debug, Clone)]
pub struct MusicPlayerWorkarounds {
    pub ytdl_use_pot: bool,
    pub ytdl_pot_server_port: u16,
    pub ytdl_use_cookies: bool,
    pub ytdl_cookies_path: String,
}

/// The music-player feature: toggle, lists, and resolver workarounds.
#[derive(Debug, Clone)]
pub struct MusicPlayer {
    pub enabled: bool,
    pub blacklist: List,
    pub whitelist: List,
    pub workarounds: MusicPlayerWorkarounds,
}

/// All feature sections.
#[derive(Debug, Clone)]
pub struct Features {
    pub music_player: MusicPlayer,
}

/// Users allowed to run privileged commands.
#[derive(Debug, Clone)]
pub struct Privileged {
    pub allowed_users: Vec<u64>,
}

/// General settings.
#[derive(Debug, Clone)]
pub struct General {
    pub prefix: String,
}

/// The whole configuration record.
#[derive(Debug, Clone)]
pub struct Config {
    pub log: Log,
    pub privileged: Privileged,
    pub features: Features,
    pub general: General,
}

impl Config {
    /// The default configuration, written out when no file exists yet.
    pub fn new() -> (c: Config)
        ensures
            c.log.level@ == "info"@,
            !c.log.file.enabled,
            c.log.file.path@ == "destiny-%Y%m%d-%H%M%S.log"@,
            c.privileged.allowed_users@ == Seq::<u64>::empty(),
            !c.features.music_player.enabled,
            !c.features.music_player.blacklist.enabled,
            c.features.music_player.blacklist.servers@ == Seq::<u64>::empty(),
            c.features.music_player.blacklist.channels@ == Seq::<u64>::empty(),
            !c.features.music_player.whitelist.enabled,
            c.features.music_player.whitelist.servers@ == Seq::<u64>::empty(),
            c.features.music_player.whitelist.channels@ == Seq::<u64>::empty(),
            !c.features.music_player.workarounds.ytdl_use_pot,
            c.features.music_player.workarounds.ytdl_pot_server_port == 58553,
            !c.features.music_player.workarounds.ytdl_use_cookies,
            c.features.music_player.workarounds.ytdl_cookies_path@ == "cookies.txt"@,
            c.general.prefix@ == "~"@,
    {
        Config {
            log: Log {
                level: "info".to_owned(),
                file: FileLog {
                    enabled: false,
                    path: "destiny-%Y%m%d-%H%M%S.log".to_owned(),
                },
            },
            privileged: Privileged { allowed_users: Vec::new() },
            features: Features {
                music_player: MusicPlayer {
                    enabled: false,
                    blacklist: List {
                        enabled: false,
                        servers: Vec::new(),
                        channels: Vec::new(),
                    },
                    whitelist: List {
                        enabled: false,
                        servers: Vec::new(),
                        channels: Vec::new(),
                    },
                    workarounds: MusicPlayerWorkarounds {
                        ytdl_use_pot: false,
                        ytdl_pot_server_port: 58553,
                        ytdl_use_cookies: false,
                        ytdl_cookies_path: "cookies.txt".to_owned(),
                    },
                },
            },
            general: General { prefix: "~".to_owned() },
        }
    }
}

} // verus!

//! Request classification, resolver arguments, configuration defaults,
//! and error messages.

use destiny::config::{Config, MusicPlayerWorkarounds};
use destiny::query::{is_direct_url, resolver_args};
use destiny::PlayerError;

#[test]
fn direct_urls_are_recognized() {
    assert!(is_direct_url("https://example/track1"));
    assert!(is_direct_url("http://host/a"));
    assert!(is_direct_url("http"));
}

#[test]
fn search_queries_are_recognized() {
    // A space makes it a search, even with a scheme in front.
    assert!(!is_direct_url("http://host/a b"));
    assert!(!is_direct_url("some nice song"));
    assert!(!is_direct_url("song"));
    assert!(!is_direct_url("htt"));
    assert!(!is_direct_url(""));
}

#[test]
fn resolver_args_are_empty_without_workarounds() {
    let w = MusicPlayerWorkarounds {
        ytdl_use_pot: false,
        ytdl_pot_server_port: 58553,
        ytdl_use_cookies: false,
        ytdl_cookies_path: "cookies.txt".to_string(),
    };
    assert!(resolver_args(&w).is_empty());
}

#[test]
fn resolver_args_fill_in_the_port() {
    let w = MusicPlayerWorkarounds {
        ytdl_use_pot: true,
        ytdl_pot_server_port: 58553,
        ytdl_use_cookies: false,
        ytdl_cookies_path: "cookies.txt".to_string(),
    };
    let args = resolver_args(&w);
    assert_eq!(
        args,
        vec![
            "--extractor-args".to_string(),
            "youtube:getpot_bgutil_baseurl=http://127.0.0.1:58553".to_string(),
        ]
    );
}

#[test]
fn resolver_args_fill_in_the_cookie_path() {
    let w = MusicPlayerWorkarounds {
        ytdl_use_pot: false,
        ytdl_pot_server_port: 58553,
        ytdl_use_cookies: true,
        ytdl_cookies_path: "jar/cookies.txt".to_string(),
    };
    let args = resolver_args(&w);
    assert_eq!(
        args,
        vec!["--cookies".to_string(), "jar/cookies.txt".to_string()]
    );
}

#[test]
fn resolver_args_combine_both_workarounds() {
    let w = MusicPlayerWorkarounds {
        ytdl_use_pot: true,
        ytdl_pot_server_port: 80,
        ytdl_use_cookies: true,
        ytdl_cookies_path: "cookies.txt".to_string(),
    };
    let args = resolver_args(&w);
    assert_eq!(
        args,
        vec![
            "--extractor-args".to_string(),
            "youtube:getpot_bgutil_baseurl=http://127.0.0.1:80".to_string(),
            "--cookies".to_string(),
            "cookies.txt".to_string(),
        ]
    );
}

#[test]
fn config_defaults_match_the_shipped_file() {
    let c = Config::new();
    assert_eq!(c.log.level, "info");
    assert!(!c.log.file.enabled);
    assert_eq!(c.log.file.path, "destiny-%Y%m%d-%H%M%S.log");
    assert!(c.privileged.allowed_users.is_empty());
    assert!(!c.features.music_player.enabled);
    assert!(!c.features.music_player.blacklist.enabled);
    assert!(c.features.music_player.blacklist.servers.is_empty());
    assert!(c.features.music_player.blacklist.channels.is_empty());
    assert!(!c.features.music_player.whitelist.enabled);
    assert!(!c.features.music_player.workarounds.ytdl_use_pot);
    assert_eq!(c.features.music_player.workarounds.ytdl_pot_server_port, 58553);
    assert!(!c.features.music_player.workarounds.ytdl_use_cookies);
    assert_eq!(c.features.music_player.workarounds.ytdl_cookies_path, "cookies.txt");
    assert_eq!(c.general.prefix, "~");
}

#[test]
fn error_messages_name_the_condition() {
    assert_eq!(
        PlayerError::NotInVoiceChannel.message(),
        "User not in a voice channel."
    );
    assert_eq!(
        PlayerError::ConnectionFailed.message(),
        "Failed to join voice channel."
    );
    assert_eq!(
        PlayerError::EmptyQueue.message(),
        "No tracks are currently in queue."
    );
    assert_eq!(
        PlayerError::InvalidState.message(),
        "Playback is already in that state."
    );
    assert_eq!(
        PlayerError::InvalidVolume.message(),
        "Volume must be between 0 and 100."
    );
    assert_eq!(PlayerError::ResolutionFailed.message(), "Failed to get track.");
    assert_eq!(
        PlayerError::MetadataUnavailable.message(),
        "Failed to get metadata."
    );
}

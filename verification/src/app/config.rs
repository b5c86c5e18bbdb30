//! Settings and the saved sign-in token.
use vstd::prelude::*;
use vstd::string::{StrSliceExecFns, StringExecFns};
use crate::utils::helpers::{Quality, lowercase, quality_named};
use crate::utils::text::{push_str, str_equal};
use crate::player::cache::{join_path, path_joined};

verus! {

#[derive(Debug, Clone)]
pub struct PlayerConfig {
    pub volume: u8,
    pub default_quality: String,
    pub crossfade_ms: u32,
}

impl Default for PlayerConfig {
    fn default() -> (c: Self)
        ensures
            c.volume == 80,
            c.default_quality@ == "flac"@,
            c.crossfade_ms == 0,
    {
        PlayerConfig { volume: 80, default_quality: String::from_str("flac"), crossfade_ms: 0 }
    }
}

#[derive(Debug, Clone)]
pub struct UiConfig {
    pub theme: String,
    pub show_cover_art: bool,
    pub cover_art_protocol: String,
    pub vim_keybindings: bool,
    pub language: String,
}

impl Default for UiConfig {
    fn default() -> (c: Self)
        ensures
            c.theme@ == "dark"@,
            c.show_cover_art,
            c.cover_art_protocol@ == "sixel"@,
            c.vim_keybindings,
            c.language@ == "ru"@,
    {
        UiConfig {
            theme: String::from_str("dark"),
            show_cover_art: true,
            cover_art_protocol: String::from_str("sixel"),
            vim_keybindings: true,
            language: String::from_str("ru"),
        }
    }
}

/// The token is kept by default in the settings file, `config.toml` in the
/// application's configuration directory.
pub open spec fn default_token_path() -> Seq<char> {
    "config.toml"@
}

#[derive(Debug, Clone)]
pub struct AuthConfig {
    pub auto_login: bool,
    pub token_path: String,
}

impl Default for AuthConfig {
    fn default() -> (c: Self)
        ensures
            c.auto_login,
            c.token_path@ == default_token_path(),
    {
        AuthConfig { auto_login: true, token_path: String::from_str("config.toml") }
    }
}

#[derive(Debug, Clone)]
pub struct MpvConfig {
    pub extra_args: Vec<String>,
}

impl Default for MpvConfig {
    fn default() -> (c: Self)
        ensures
            c.extra_args@.len() == 3,
            c.extra_args@[0]@ == "--no-video"@,
            c.extra_args@[1]@ == "--msg-level=all=warn"@,
            c.extra_args@[2]@ == "--force-seekable=yes"@,
    {
        let mut extra_args: Vec<String> = Vec::new();
        extra_args.push(String::from_str("--no-video"));
        extra_args.push(String::from_str("--msg-level=all=warn"));
        extra_args.push(String::from_str("--force-seekable=yes"));
        MpvConfig { extra_args }
    }
}

#[derive(Debug, Clone)]
pub struct Config {
    pub player: PlayerConfig,
    pub ui: UiConfig,
    pub auth: AuthConfig,
    pub mpv: MpvConfig,
}

impl Default for Config {
    fn default() -> (c: Self)
        ensures
            c.player.volume == 80,
            c.player.default_quality@ == "flac"@,
            c.player.crossfade_ms == 0,
            c.ui.theme@ == "dark"@,
            c.ui.show_cover_art,
            c.ui.cover_art_protocol@ == "sixel"@,
            c.ui.vim_keybindings,
            c.ui.language@ == "ru"@,
            c.auth.auto_login,
            c.auth.token_path@ == default_token_path(),
            c.mpv.extra_args@.len() == 3,
            c.mpv.extra_args@[0]@ == "--no-video"@,
            c.mpv.extra_args@[1]@ == "--msg-level=all=warn"@,
            c.mpv.extra_args@[2]@ == "--force-seekable=yes"@,
    {
        Config {
            player: PlayerConfig::default(),
            ui: UiConfig::default(),
            auth: AuthConfig::default(),
            mpv: MpvConfig::default(),
        }
    }
}

/// Whether a path is written relative to the home directory ("~/...").
pub open spec fn home_relative(p: Seq<char>) -> bool {
    p.len() >= 2 && p[0] == '~' && p[1] == '/'
}

/// The application's configuration directory under the user's one.
pub open spec fn app_config_dir(config_dir: Seq<char>) -> Seq<char> {
    path_joined(config_dir, "yplayer"@)
}

/// The settings file: `yplayer/config.toml` in the user's configuration
/// directory.
pub open spec fn config_file(config_dir: Seq<char>) -> Seq<char> {
    path_joined(app_config_dir(config_dir), "config.toml"@)
}

/// Where a token path points: the default, "config.toml", is the settings
/// file in the application's configuration directory; "~/..." is under the
/// home directory; any other path is used as it is written. A directory
/// that is not known leaves the path as it is written.
pub open spec fn resolved_token_path(
    p: Seq<char>,
    home: Option<Seq<char>>,
    config_dir: Option<Seq<char>>,
) -> Seq<char> {
    if p == default_token_path() {
        match config_dir {
            Some(c) => config_file(c),
            None => p,
        }
    } else if home_relative(p) {
        match home {
            Some(h) => h + p.skip(1),
            None => p,
        }
    } else {
        p
    }
}

pub open spec fn opt_str_view(o: Option<String>) -> Option<Seq<char>> {
    match o {
        Some(s) => Some(s@),
        None => None,
    }
}

/// The settings file under the user's configuration directory.
pub fn config_file_path(config_dir: &str) -> (r: String)
    ensures
        r@ == config_file(config_dir@),
{
    let dir = join_path(config_dir, "yplayer");
    join_path(dir.as_str(), "config.toml")
}

/// With the default settings the token is kept in the settings file.
pub proof fn law_default_token_in_config_file(home: Option<Seq<char>>, config_dir: Seq<char>)
    ensures
        resolved_token_path(default_token_path(), home, Some(config_dir)) == config_file(config_dir),
{
    reveal_strlit("config.toml");
}

impl Config {
    /// Where the token is kept; `home` is the user's home directory and
    /// `config_dir` the user's configuration directory, where known.
    pub fn token_path(&self, home: Option<String>, config_dir: Option<String>) -> (r: String)
        ensures
            r@ == resolved_token_path(self.auth.token_path@, opt_str_view(home), opt_str_view(config_dir)),
    {
        let p = self.auth.token_path.as_str();
        let n = p.unicode_len();
        proof {
            reveal_strlit("config.toml");
        }
        if str_equal(p, "config.toml") {
            match config_dir {
                Some(c) => config_file_path(c.as_str()),
                None => String::from_str(p),
            }
        } else if n >= 2 && p.get_char(0) == '~' && p.get_char(1) == '/' {
            match home {
                Some(h) => {
                    let mut out = h;
                    push_str(&mut out, p.substring_char(1, n));
                    out
                },
                None => String::from_str(p),
            }
        } else {
            String::from_str(p)
        }
    }

    /// The quality named in the settings.
    pub fn default_quality(&self) -> (q: Quality)
        ensures
            q == quality_named(lowercase(self.player.default_quality@)),
    {
        Quality::from_str(self.player.default_quality.as_str())
    }
}

#[derive(Debug, Clone)]
pub struct TokenData {
    pub access_token: String,
    pub refresh_token: Option<String>,
    pub expires_at: Option<i64>,
    pub device_code: Option<String>,
    pub user_code: Option<String>,
    pub verification_url: Option<String>,
}

/// A token is treated as expired from a minute before its expiry time;
/// one without an expiry time never expires.
pub open spec fn expired_at(expires_at: Option<i64>, now: int) -> bool {
    match expires_at {
        Some(e) => now >= e - 60,
        None => false,
    }
}

/// Subtracting the minute of margin from the expiry time stays in range.
pub open spec fn expiry_in_range(expires_at: Option<i64>) -> bool {
    match expires_at {
        Some(e) => e >= i64::MIN + 60,
        None => true,
    }
}

/// Whole seconds since the Unix epoch by the system clock, from
/// `UNIX_EPOCH.elapsed()` of std; `None` when that call fails, which it does
/// when the clock is before the epoch. The value is the time, so nothing is
/// stated of it.
#[verifier::external_body]
fn seconds_since_epoch() -> (r: Option<u64>) {
    match std::time::UNIX_EPOCH.elapsed() {
        Ok(d) => Some(d.as_secs()),
        Err(_) => None,
    }
}

impl TokenData {
    /// Whether the token is expired at Unix time `now`.
    pub fn is_expired_at(&self, now: i64) -> (r: bool)
        requires
            expiry_in_range(self.expires_at),
        ensures
            r == expired_at(self.expires_at, now as int),
    {
        match self.expires_at {
            Some(expires_at) => now >= expires_at - 60,
            None => false,
        }
    }

    /// Whether the token is expired now: the expiry test at the current
    /// time. A token without an expiry time never expires; a clock before
    /// the Unix epoch, or too far ahead to be an `i64`, counts as past every
    /// expiry, so a new token is asked for rather than a stale one kept.
    pub fn is_expired(&self) -> (r: bool)
        requires
            expiry_in_range(self.expires_at),
        ensures
            exists|now: int| now >= 0 && r == #[trigger] expired_at(self.expires_at, now),
            self.expires_at is None ==> !r,
            self.expires_at matches Some(e) && e <= 60 ==> r,
    {
        match seconds_since_epoch() {
            Some(s) => if s <= 0x7fff_ffff_ffff_ffffu64 {
                let r = self.is_expired_at(s as i64);
                assert(r == expired_at(self.expires_at, s as int));
                r
            } else {
                let r = self.expires_at.is_some();
                assert(r == expired_at(self.expires_at, s as int));
                r
            },
            None => {
                let r = self.expires_at.is_some();
                proof {
                    match self.expires_at {
                        Some(e) => {
                            let w: int = if e - 60 >= 0 { e - 60 } else { 0 };
                            assert(r == expired_at(self.expires_at, w));
                        },
                        None => {
                            assert(r == expired_at(self.expires_at, 0));
                        },
                    }
                }
                r
            },
        }
    }
}

/// The saved token, when there is one and it has not expired now (by
/// `is_expired`); `None` means a new one has to be asked for.
pub fn usable_token(saved: &Option<TokenData>) -> (r: Option<String>)
    requires
        saved matches Some(d) ==> expiry_in_range(d.expires_at),
    ensures
        match saved {
            Some(d) => {
                &&& (r matches Some(t) ==> t@ == d.access_token@)
                &&& exists|now: int| now >= 0 && (r is None) == #[trigger] expired_at(d.expires_at, now)
                &&& (d.expires_at is None ==> r is Some)
                &&& (d.expires_at matches Some(e) && e <= 60 ==> r is None)
            },
            None => r is None,
        },
{
    match saved {
        Some(d) => if d.is_expired() {
            None
        } else {
            Some(d.access_token.clone())
        },
        None => None,
    }
}

/// A token as it is kept after signing in: no refresh token and no expiry.
pub fn new_token_data(access_token: String) -> (t: TokenData)
    ensures
        t.access_token == access_token,
        t.refresh_token is None,
        t.expires_at is None,
        t.device_code is None,
        t.user_code is None,
        t.verification_url is None,
{
    TokenData {
        access_token,
        refresh_token: None,
        expires_at: None,
        device_code: None,
        user_code: None,
        verification_url: None,
    }
}

} // verus!

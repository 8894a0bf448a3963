//! The bridge address and user name, kept in a JSON file under the user's
//! configuration directory.
use vstd::prelude::*;

use crate::error::{ConfigError, CoreError};
use crate::json::{
    json_parse, lemma_member_concat, lemma_member_single, member, member_views, object_text, parse_json, read_required_text, required_text,
    shape_error, write_object, Json,
};
use crate::logger::ILogger;

verus! {

/// A file operation that the store asked for, with what it returned.
pub enum FileCall {
    ReadFile { path: Seq<char>, answer: Result<String, CoreError> },
    WriteFile { path: Seq<char>, content: Seq<char>, result: Result<(), CoreError> },
    CreateDirAll { path: Seq<char>, result: Result<(), CoreError> },
}

/// File access for the configuration store. Each call is recorded, with its
/// arguments and its result, so that the store can state what it asked for
/// and how it used the answers.
pub trait FileHandler {
    /// The operations asked for so far, oldest first. Callers know it only
    /// through the contracts below; an implementation outside verified code
    /// may leave this default.
    closed spec fn calls(&self) -> Seq<FileCall> {
        Seq::empty()
    }

    fn read_file(&mut self, path: &str) -> (r: Result<String, CoreError>)
        ensures
            final(self).calls() == old(self).calls().push(FileCall::ReadFile { path: path@, answer: r }),
    ;

    fn write_file(&mut self, path: &str, content: &str) -> (r: Result<(), CoreError>)
        ensures
            final(self).calls() == old(self).calls().push(
                FileCall::WriteFile { path: path@, content: content@, result: r },
            ),
    ;

    /// Creates a directory and any missing parents; an existing one is fine.
    fn create_dir_all(&mut self, path: &str) -> (r: Result<(), CoreError>)
        ensures
            final(self).calls() == old(self).calls().push(
                FileCall::CreateDirAll { path: path@, result: r },
            ),
    ;
}

/// Where the bridge is and which user to act as.
#[derive(Debug)]
pub struct Config {
    pub bridge_ip: String,
    pub username: String,
}

/// The configuration a JSON value holds: an object with a `bridge_ip` and a
/// `username` string.
pub open spec fn config_of(j: Json) -> Option<Config> {
    match j {
        Json::Object(ms) => {
            let vs = member_views(ms@);
            let ip = required_text(vs, "bridge_ip"@);
            let user = required_text(vs, "username"@);
            if ip is Some && user is Some {
                Some(Config { bridge_ip: ip->0, username: user->0 })
            } else {
                None
            }
        },
        _ => None,
    }
}

/// The members that encode a configuration.
pub open spec fn config_fields(c: Config) -> Seq<(Seq<char>, Json)> {
    seq![("bridge_ip"@, Json::Str(c.bridge_ip)), ("username"@, Json::Str(c.username))]
}

/// Reading back what saving a configuration writes gives the same
/// configuration: any JSON object that holds the members written, in
/// whatever order, reads as a configuration equal in every field.
pub proof fn lemma_config_round_trip(c: Config, j: Json)
    requires
        j matches Json::Object(ms) && forall|k: Seq<char>|
            #[trigger] member(member_views(ms@), k) == member(config_fields(c), k),
    ensures
        config_of(j) == Some(c),
{
    reveal_strlit("bridge_ip");
    reveal_strlit("username");
    assert("bridge_ip"@ != "username"@) by {
        assert("bridge_ip"@[0] != "username"@[0]);
    }
    let fields = config_fields(c);
    let first = seq![("bridge_ip"@, Json::Str(c.bridge_ip))];
    let second = seq![("username"@, Json::Str(c.username))];
    assert(fields =~= first + second);
    lemma_member_concat(first, second, "bridge_ip"@);
    lemma_member_concat(first, second, "username"@);
    lemma_member_single("bridge_ip"@, Json::Str(c.bridge_ip), "bridge_ip"@);
    lemma_member_single("bridge_ip"@, Json::Str(c.bridge_ip), "username"@);
    lemma_member_single("username"@, Json::Str(c.username), "username"@);
}

/// What reading a configuration file yields, given what the parser made of
/// it.
pub open spec fn config_text_result(parsed: Option<Json>, r: Result<Config, CoreError>) -> bool {
    match (match parsed {
        Some(j) => config_of(j),
        None => None,
    }) {
        Some(c) => r == Ok::<Config, CoreError>(c),
        None => r matches Err(CoreError::Serialization(_)),
    }
}

pub open spec fn app_dir(config_dir: Seq<char>) -> Seq<char> {
    config_dir + "/huelightcli"@
}

pub open spec fn config_path(config_dir: Seq<char>) -> Seq<char> {
    app_dir(config_dir) + "/config.json"@
}

pub open spec fn create_failure_line(dir: Seq<char>) -> Seq<char> {
    "Failed to create config directory: "@ + dir
}

pub open spec fn saving_line(path: Seq<char>, content: Seq<char>) -> Seq<char> {
    "Saving config to "@ + path + ": "@ + content
}

/// What saving under the configuration directory `d` does: it creates
/// `d/huelightcli`; if that fails, it logs so, reports the directory as not
/// creatable and writes nothing. Otherwise it writes the configuration's
/// JSON text to `d/huelightcli/config.json`; a write error comes back
/// unchanged, and a successful write is logged with the path and the text.
pub open spec fn saved_to(
    cfg: Config,
    d: Seq<char>,
    calls_before: Seq<FileCall>,
    calls_after: Seq<FileCall>,
    before: Seq<Seq<char>>,
    after: Seq<Seq<char>>,
    r: Result<(), CoreError>,
) -> bool {
    let n = calls_before.len() as int;
    &&& calls_after.len() > n
    &&& calls_after.subrange(0, n) == calls_before
    &&& match calls_after[n] {
        FileCall::CreateDirAll { path, result } => {
            &&& path == app_dir(d)
            &&& match result {
                Err(_) => {
                    &&& calls_after.len() == n + 1
                    &&& r == Err::<(), CoreError>(
                        CoreError::Config(ConfigError::ConfigDirectoryCreateError),
                    )
                    &&& after == before.push(create_failure_line(app_dir(d)))
                },
                Ok(_) => {
                    &&& calls_after.len() == n + 2
                    &&& match calls_after[n + 1] {
                        FileCall::WriteFile { path, content, result } => {
                            &&& path == config_path(d)
                            &&& content == object_text(config_fields(cfg))
                            &&& match result {
                                Err(e) => r == Err::<(), CoreError>(e) && after == before,
                                Ok(_) => r == Ok::<(), CoreError>(()) && after == before.push(
                                    saving_line(config_path(d), object_text(config_fields(cfg))),
                                ),
                            }
                        },
                        _ => false,
                    }
                },
            }
        },
        _ => false,
    }
}

/// What saving does, given what the configuration directory lookup
/// returned: no directory, or one whose path is not UTF-8, is reported
/// before any file operation; otherwise as [`saved_to`].
pub open spec fn save_in_result(
    cfg: Config,
    config_dir: Option<Option<String>>,
    calls_before: Seq<FileCall>,
    calls_after: Seq<FileCall>,
    before: Seq<Seq<char>>,
    after: Seq<Seq<char>>,
    r: Result<(), CoreError>,
) -> bool {
    match config_dir {
        None => r == Err::<(), CoreError>(CoreError::Config(ConfigError::ConfigDirectoryNotFoundError))
            && calls_after == calls_before && after == before,
        Some(None) => r == Err::<(), CoreError>(CoreError::Config(ConfigError::ConfigPathInvalidError))
            && calls_after == calls_before && after == before,
        Some(Some(d)) => saved_to(cfg, d@, calls_before, calls_after, before, after, r),
    }
}

/// What loading from the configuration directory `d` does: it reads
/// `d/huelightcli/config.json` once; a read error comes back unchanged, and
/// the text read is taken as [`Config::from_text`] states.
pub open spec fn loaded_from(
    d: Seq<char>,
    calls_before: Seq<FileCall>,
    calls_after: Seq<FileCall>,
    r: Result<Config, CoreError>,
) -> bool {
    &&& calls_after.len() == calls_before.len() + 1
    &&& calls_after.drop_last() == calls_before
    &&& match calls_after.last() {
        FileCall::ReadFile { path, answer } => {
            &&& path == config_path(d)
            &&& match answer {
                Err(e) => r == Err::<Config, CoreError>(e),
                Ok(text) => config_text_result(json_parse(text@), r),
            }
        },
        _ => false,
    }
}

/// What loading does, given what the configuration directory lookup
/// returned.
pub open spec fn load_in_result(
    config_dir: Option<Option<String>>,
    calls_before: Seq<FileCall>,
    calls_after: Seq<FileCall>,
    r: Result<Config, CoreError>,
) -> bool {
    match config_dir {
        None => r == Err::<Config, CoreError>(CoreError::Config(ConfigError::ConfigDirectoryNotFoundError))
            && calls_after == calls_before,
        Some(None) => r == Err::<Config, CoreError>(CoreError::Config(ConfigError::ConfigPathInvalidError))
            && calls_after == calls_before,
        Some(Some(d)) => loaded_from(d@, calls_before, calls_after, r),
    }
}

/// Saving a configuration and then loading it gives the same configuration
/// back, when the two use the same directory, the file layer hands back
/// for the read what the save wrote, and the JSON parser reads that text as
/// an object holding the members written.
pub proof fn lemma_save_then_load(
    cfg: Config,
    d: Seq<char>,
    calls0: Seq<FileCall>,
    calls1: Seq<FileCall>,
    calls2: Seq<FileCall>,
    log0: Seq<Seq<char>>,
    log1: Seq<Seq<char>>,
    saved: Result<(), CoreError>,
    loaded: Result<Config, CoreError>,
)
    requires
        saved_to(cfg, d, calls0, calls1, log0, log1, saved),
        saved is Ok,
        loaded_from(d, calls1, calls2, loaded),
        calls1.last() matches FileCall::WriteFile { content, .. } && calls2.last() matches FileCall::ReadFile {
            answer: Ok(text),
            ..
        } && text@ == content,
        json_parse(object_text(config_fields(cfg))) matches Some(j) && j matches Json::Object(ms)
            && forall|k: Seq<char>|
            #[trigger] member(member_views(ms@), k) == member(config_fields(cfg), k),
    ensures
        loaded == Ok::<Config, CoreError>(cfg),
{
    let n = calls0.len() as int;
    if let FileCall::CreateDirAll { result, .. } = calls1[n] {
        if result is Err {
            assert(saved is Err);
        }
    }
    assert(calls1.last() == calls1[n + 1]);
    let j = json_parse(object_text(config_fields(cfg)))->0;
    lemma_config_round_trip(cfg, j);
}

/// Relies on `dirs::config_dir`, which depends on the platform and the
/// environment, so nothing is promised of it. `None` when there is no such
/// directory; `Some(None)` when its path is not valid UTF-8.
#[verifier::external_body]
fn user_config_dir() -> (r: Option<Option<String>>) {
    dirs::config_dir().map(|p| p.to_str().map(|s| s.to_owned()))
}

impl Config {
    pub fn new(bridge_ip: String, username: String) -> (r: Self)
        ensures
            r.bridge_ip == bridge_ip,
            r.username == username,
    {
        Config { bridge_ip, username }
    }

    /// Whether this configuration can be used to reach the bridge: both the
    /// address and the user name are filled in.
    pub fn is_usable(&self) -> (r: bool)
        ensures
            r == (self.bridge_ip@.len() > 0 && self.username@.len() > 0),
    {
        self.bridge_ip.unicode_len() > 0 && self.username.unicode_len() > 0
    }

    /// Reads a configuration from JSON.
    pub fn from_json(j: &Json) -> (r: Option<Config>)
        ensures
            r == config_of(*j),
    {
        match j {
            Json::Object(ms) => {
                let ip = read_required_text(ms, "bridge_ip");
                let user = read_required_text(ms, "username");
                match (ip, user) {
                    (Some(bridge_ip), Some(username)) => Some(Config { bridge_ip, username }),
                    _ => None,
                }
            },
            _ => None,
        }
    }

    /// Reads a configuration from the text of its file.
    pub fn from_text(raw: &str) -> (r: Result<Config, CoreError>)
        ensures
            config_text_result(json_parse(raw@), r),
    {
        match parse_json(raw) {
            Ok(j) => match Config::from_json(&j) {
                Some(c) => Ok(c),
                None => Err(
                    CoreError::Serialization(shape_error("the file does not hold a configuration")),
                ),
            },
            Err(e) => Err(CoreError::Serialization(e)),
        }
    }

    /// The text of the configuration file.
    pub fn to_json_text(&self) -> (r: String)
        ensures
            r@ == object_text(config_fields(*self)),
    {
        let mut ms: Vec<(String, Json)> = Vec::new();
        ms.push(("bridge_ip".to_owned(), Json::Str(self.bridge_ip.clone())));
        ms.push(("username".to_owned(), Json::Str(self.username.clone())));
        assert(member_views(ms@) =~= config_fields(*self));
        write_object(&ms)
    }

    /// Saves this configuration under `config_dir`, the user's configuration
    /// directory as [`user_config_dir`] reports it: the directory
    /// `huelightcli` is created in it, then `config.json` written there.
    pub fn save_in<L: ILogger, F: FileHandler>(
        &self,
        config_dir: Option<Option<String>>,
        logger: &mut L,
        file_handler: &mut F,
    ) -> (r: Result<(), CoreError>)
        ensures
            save_in_result(
                *self,
                config_dir,
                old(file_handler).calls(),
                final(file_handler).calls(),
                old(logger).logged(),
                final(logger).logged(),
                r,
            ),
    {
        let dir = match config_dir {
            None => {
                return Err(CoreError::Config(ConfigError::ConfigDirectoryNotFoundError));
            },
            Some(None) => {
                return Err(CoreError::Config(ConfigError::ConfigPathInvalidError));
            },
            Some(Some(d)) => d,
        };
        let ghost calls0 = file_handler.calls();
        let (app, path) = config_paths(dir.as_str());
        let created = file_handler.create_dir_all(app.as_str());
        proof {
            assert(file_handler.calls().subrange(0, calls0.len() as int) =~= calls0);
        }
        if let Err(_) = created {
            let mut line = "Failed to create config directory: ".to_owned();
            line.append(app.as_str());
            logger.log(line.as_str());
            return Err(CoreError::Config(ConfigError::ConfigDirectoryCreateError));
        }
        let json = self.to_json_text();
        let ghost calls1 = file_handler.calls();
        let written = file_handler.write_file(path.as_str(), json.as_str());
        proof {
            assert(file_handler.calls().subrange(0, calls0.len() as int) =~= calls0);
            assert(file_handler.calls()[calls0.len() as int] == calls1[calls0.len() as int]);
        }
        if let Err(e) = written {
            return Err(e);
        }
        let mut line = "Saving config to ".to_owned();
        line.append(path.as_str());
        line.append(": ");
        line.append(json.as_str());
        logger.log(line.as_str());
        Ok(())
    }

    /// Saves this configuration under the user's configuration directory,
    /// as [`Config::save_in`] states for whatever the directory lookup
    /// returned.
    pub fn save<L: ILogger, F: FileHandler>(&self, logger: &mut L, file_handler: &mut F) -> (r: Result<(), CoreError>)
        ensures
            exists|dir: Option<Option<String>>|
                #[trigger] save_in_result(
                    *self,
                    dir,
                    old(file_handler).calls(),
                    final(file_handler).calls(),
                    old(logger).logged(),
                    final(logger).logged(),
                    r,
                ),
    {
        let dir = user_config_dir();
        self.save_in(dir, logger, file_handler)
    }

    /// Loads the configuration saved under `config_dir`, the user's
    /// configuration directory as [`user_config_dir`] reports it.
    pub fn load_in<F: FileHandler>(config_dir: Option<Option<String>>, file_handler: &mut F) -> (r: Result<Config, CoreError>)
        ensures
            load_in_result(config_dir, old(file_handler).calls(), final(file_handler).calls(), r),
    {
        let dir = match config_dir {
            None => {
                return Err(CoreError::Config(ConfigError::ConfigDirectoryNotFoundError));
            },
            Some(None) => {
                return Err(CoreError::Config(ConfigError::ConfigPathInvalidError));
            },
            Some(Some(d)) => d,
        };
        let (_, path) = config_paths(dir.as_str());
        let answer = file_handler.read_file(path.as_str());
        proof {
            assert(file_handler.calls().drop_last() =~= old(file_handler).calls());
        }
        match answer {
            Ok(raw) => Config::from_text(raw.as_str()),
            Err(e) => Err(e),
        }
    }

    /// Loads the configuration saved under the user's configuration
    /// directory, as [`Config::load_in`] states for whatever the directory
    /// lookup returned.
    pub fn load<F: FileHandler>(file_handler: &mut F) -> (r: Result<Config, CoreError>)
        ensures
            exists|dir: Option<Option<String>>|
                #[trigger] load_in_result(dir, old(file_handler).calls(), final(file_handler).calls(), r),
    {
        let dir = user_config_dir();
        Config::load_in(dir, file_handler)
    }
}

/// The directory the store creates under the configuration directory
/// `dir`, and the path of its file.
pub fn config_paths(dir: &str) -> (r: (String, String))
    ensures
        r.0@ == app_dir(dir@),
        r.1@ == config_path(dir@),
{
    let mut app = dir.to_owned();
    app.append("/huelightcli");
    let mut path = app.clone();
    path.append("/config.json");
    (app, path)
}

} // verus!

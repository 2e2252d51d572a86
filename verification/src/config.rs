//! Settings, and where they and the speech models are stored.
//!
//! A path is held as the bytes that the file system sees, so that a home
//! directory whose name is not UTF-8 works too.

use vstd::prelude::*;
use vstd::utf8::encode_utf8;

use directories::ProjectDirs;

verus! {

/// The user's settings.
#[derive(Debug)]
pub struct Config {
    /// Speech recogniser to load.
    pub provider: String,
    /// Whisper ggml model name (resolved against the whisper.cpp model store).
    pub whisper_model: String,
    /// Language hint for whisper ("en", "auto", ...).
    pub language: String,
    /// Whether to run the Ollama enhancement pass.
    pub enhance: bool,
    /// Ollama model used for enhancement.
    pub ollama_model: String,
    /// Ollama base URL.
    pub ollama_url: String,
    /// How long Ollama keeps the model loaded after a request ("30m", "-1", ...).
    pub ollama_keep_alive: String,
    /// Hotkey backend: "auto" | "portal" | "evdev".
    pub hotkey_backend: String,
    /// Hotkey trigger mode: "toggle" | "push_to_talk".
    pub hotkey_mode: String,
    /// evdev key name, e.g. "KEY_PAUSE", "KEY_SCROLLLOCK".
    pub hotkey_key: String,
}

/// Whether these are the settings that the app starts with.
pub open spec fn is_default(cfg: Config) -> bool {
    &&& cfg.provider@ == "whisper"@
    &&& cfg.whisper_model@ == "base.en"@
    &&& cfg.language@ == "en"@
    &&& !cfg.enhance
    &&& cfg.ollama_model@ == "llama3.2:3b"@
    &&& cfg.ollama_url@ == "http://localhost:11434"@
    &&& cfg.ollama_keep_alive@ == "30m"@
    &&& cfg.hotkey_backend@ == "auto"@
    &&& cfg.hotkey_mode@ == "toggle"@
    &&& cfg.hotkey_key@ == "KEY_F12"@
}

impl Default for Config {
    fn default() -> (r: Self)
        ensures
            is_default(r),
    {
        Config {
            provider: "whisper".to_string(),
            whisper_model: "base.en".to_string(),
            language: "en".to_string(),
            enhance: false,
            ollama_model: "llama3.2:3b".to_string(),
            ollama_url: "http://localhost:11434".to_string(),
            ollama_keep_alive: "30m".to_string(),
            hotkey_backend: "auto".to_string(),
            hotkey_mode: "toggle".to_string(),
            hotkey_key: "KEY_F12".to_string(),
        }
    }
}

impl Clone for Config {
    fn clone(&self) -> (r: Self)
        ensures
            r == *self,
    {
        Config {
            provider: self.provider.clone(),
            whisper_model: self.whisper_model.clone(),
            language: self.language.clone(),
            enhance: self.enhance,
            ollama_model: self.ollama_model.clone(),
            ollama_url: self.ollama_url.clone(),
            ollama_keep_alive: self.ollama_keep_alive.clone(),
            hotkey_backend: self.hotkey_backend.clone(),
            hotkey_mode: self.hotkey_mode.clone(),
            hotkey_key: self.hotkey_key.clone(),
        }
    }
}

/// Why a path could not be worked out.
#[derive(Debug, Clone, Copy, PartialEq, Eq, Structural)]
pub enum ConfigError {
    /// The system names no home directory.
    NoProjectDirs,
}

impl ConfigError {
    /// The message for the user.
    pub fn message(&self) -> (r: String)
        ensures
            r@ == "could not resolve XDG project directories"@,
    {
        "could not resolve XDG project directories".to_string()
    }
}

/// The directories of this application.
#[derive(Debug)]
pub struct ProjectPaths {
    /// Where the settings are.
    pub config_dir: Vec<u8>,
    /// Where the models are.
    pub data_dir: Vec<u8>,
}

/// `directories::ProjectDirs::from` with its `config_dir` and `data_dir`. On Linux
/// each is a directory that the environment gives, with the name of the
/// application as its last component. Which directory, and whether there is a home
/// directory at all, depends on the environment and is not stated.
#[verifier::external_body]
fn project_dirs(qualifier: &str, organization: &str, application: &str) -> (r: Option<ProjectPaths>)
    requires
        application@.len() > 0,
        forall|i: int| 0 <= i < application@.len() ==> 'a' <= #[trigger] application@[i] <= 'z',
    ensures
        r matches Some(p) ==> (seq![0x2fu8] + encode_utf8(application@)).is_suffix_of(
            p.config_dir@,
        ),
        r matches Some(p) ==> (seq![0x2fu8] + encode_utf8(application@)).is_suffix_of(p.data_dir@),
{
    ProjectDirs::from(qualifier, organization, application).map(
        |dirs| ProjectPaths {
            config_dir: dirs.config_dir().as_os_str().as_encoded_bytes().to_vec(),
            data_dir: dirs.data_dir().as_os_str().as_encoded_bytes().to_vec(),
        },
    )
}

/// Whether these are directories that the system gives this application: an outcome
/// of the call that asks for them by its qualifier, organization and name.
pub closed spec fn given_by_system(found: Option<ProjectPaths>) -> bool {
    call_ensures(project_dirs, ("dev", "altic", "fluidsiren"), found)
}

/// The directories of this application, or nothing without a home directory.
pub fn dirs() -> (r: Option<ProjectPaths>)
    ensures
        r matches Some(p) ==> encode_utf8("/fluidsiren"@).is_suffix_of(p.config_dir@),
        r matches Some(p) ==> encode_utf8("/fluidsiren"@).is_suffix_of(p.data_dir@),
        given_by_system(r),
{
    proof {
        reveal_strlit("fluidsiren");
        reveal_strlit("/fluidsiren");
        assert(seq![0x2fu8] + encode_utf8("fluidsiren"@) == encode_utf8("/fluidsiren"@)) by {
            ascii_bytes("fluidsiren"@);
            ascii_bytes("/fluidsiren"@);
        }
    }
    project_dirs("dev", "altic", "fluidsiren")
}

/// An ASCII text is encoded character by character.
proof fn ascii_bytes(s: Seq<char>)
    requires
        vstd::utf8::is_ascii_chars(s),
    ensures
        encode_utf8(s) == Seq::new(s.len(), |i: int| s[i] as u8),
{
    vstd::utf8::is_ascii_chars_encode_utf8(s);
}

/// The path `name` inside the directory `dir`: a slash parts them unless `dir` is
/// empty or ends in one, and a `name` that starts with a slash stands alone.
pub open spec fn joined(dir: Seq<u8>, name: Seq<u8>) -> Seq<u8> {
    if name.len() > 0 && name.first() == 0x2f {
        name
    } else if dir.len() == 0 || dir.last() == 0x2f {
        dir + name
    } else {
        dir.push(0x2f) + name
    }
}

/// Appends `name` to the path `dir`.
pub fn join_path(dir: &Vec<u8>, name: &str) -> (r: Vec<u8>)
    ensures
        r@ == joined(dir@, encode_utf8(name@)),
{
    let tail = name.as_bytes();
    let mut out: Vec<u8> = Vec::new();
    if !(tail.len() > 0 && tail[0] == 0x2f) {
        out.extend_from_slice(dir.as_slice());
        if dir.len() > 0 && dir[dir.len() - 1] != 0x2f {
            out.push(0x2f);
        }
    }
    let ghost front = out@;
    out.extend_from_slice(tail);
    assert(out@ == front + tail@);
    out
}

/// What ends in `tail` still does, one name longer, after that name is joined.
proof fn joined_keeps_suffix(dir: Seq<u8>, tail: Seq<u8>, name: Seq<u8>)
    requires
        tail.is_suffix_of(dir),
        tail.len() > 0,
        tail.last() != 0x2f,
        name.len() > 0,
        name.first() != 0x2f,
    ensures
        joined(dir, name) == dir.push(0x2f) + name,
        (tail.push(0x2f) + name).is_suffix_of(joined(dir, name)),
{
    let at = dir.len() - tail.len();
    assert(dir.subrange(at, dir.len() as int) == tail);
    assert(dir.last() == tail.last());
    let all = joined(dir, name);
    assert(all.subrange(at, all.len() as int) =~= tail.push(0x2f) + name);
}

/// The file name of a whisper model.
pub open spec fn model_file(model: Seq<char>) -> Seq<char> {
    "ggml-"@ + model + ".bin"@
}

impl Config {
    /// The settings to run with, and whether to write them to the settings file:
    /// those that the file holds, or the defaults, which make the file, where there
    /// is none.
    pub fn load(stored: Option<Config>) -> (r: (Config, bool))
        ensures
            match stored {
                Some(cfg) => r == (cfg, false),
                None => is_default(r.0) && r.1,
            },
    {
        match stored {
            Some(cfg) => (cfg, false),
            None => (Config::default(), true),
        }
    }

    /// The settings to work with now: those just read from the file, so that a change
    /// made there applies at once, or the shared ones where the file could not be
    /// read.
    pub fn latest(loaded: Option<Config>, shared: &Config) -> (r: Config)
        ensures
            r == (match loaded {
                Some(cfg) => cfg,
                None => *shared,
            }),
    {
        match loaded {
            Some(cfg) => cfg,
            None => shared.clone(),
        }
    }

    /// The settings file in the directories `dirs`.
    pub fn config_path_in(dirs: Option<ProjectPaths>) -> (r: Result<Vec<u8>, ConfigError>)
        ensures
            match dirs {
                Some(d) => r matches Ok(p) && p@ == joined(
                    d.config_dir@,
                    encode_utf8("config.toml"@),
                ),
                None => r == Err::<Vec<u8>, ConfigError>(ConfigError::NoProjectDirs),
            },
    {
        match dirs {
            Some(d) => Ok(join_path(&d.config_dir, "config.toml")),
            None => Err(ConfigError::NoProjectDirs),
        }
    }

    /// The settings file of this user.
    pub fn config_path() -> (r: Result<Vec<u8>, ConfigError>)
        ensures
            r matches Ok(p) ==> encode_utf8("/fluidsiren/config.toml"@).is_suffix_of(p@),
            exists|found: Option<ProjectPaths>| #[trigger]
                call_ensures(dirs, (), found) && (match found {
                    Some(d) => r matches Ok(p) && p@ == joined(
                        d.config_dir@,
                        encode_utf8("config.toml"@),
                    ),
                    None => r == Err::<Vec<u8>, ConfigError>(ConfigError::NoProjectDirs),
                }),
    {
        let found = dirs();
        assert(call_ensures(dirs, (), found));
        proof {
            reveal_strlit("/fluidsiren");
            reveal_strlit("config.toml");
            reveal_strlit("/fluidsiren/config.toml");
            ascii_bytes("/fluidsiren"@);
            ascii_bytes("config.toml"@);
            ascii_bytes("/fluidsiren/config.toml"@);
            if found is Some {
                joined_keeps_suffix(
                    found->0.config_dir@,
                    encode_utf8("/fluidsiren"@),
                    encode_utf8("config.toml"@),
                );
                assert(encode_utf8("/fluidsiren"@).push(0x2f) + encode_utf8("config.toml"@)
                    == encode_utf8("/fluidsiren/config.toml"@));
            }
        }
        Config::config_path_in(found)
    }

    /// The directory of the downloaded models in the directories `dirs`.
    pub fn models_dir_in(dirs: Option<ProjectPaths>) -> (r: Result<Vec<u8>, ConfigError>)
        ensures
            match dirs {
                Some(d) => r matches Ok(p) && p@ == joined(d.data_dir@, encode_utf8("models"@)),
                None => r == Err::<Vec<u8>, ConfigError>(ConfigError::NoProjectDirs),
            },
    {
        match dirs {
            Some(d) => Ok(join_path(&d.data_dir, "models")),
            None => Err(ConfigError::NoProjectDirs),
        }
    }

    /// The directory where this user's downloaded models live. It need not exist
    /// yet.
    pub fn models_dir() -> (r: Result<Vec<u8>, ConfigError>)
        ensures
            r matches Ok(p) ==> encode_utf8("/fluidsiren/models"@).is_suffix_of(p@),
            exists|found: Option<ProjectPaths>| #[trigger]
                call_ensures(dirs, (), found) && (match found {
                    Some(d) => r matches Ok(p) && p@ == joined(d.data_dir@, encode_utf8("models"@)),
                    None => r == Err::<Vec<u8>, ConfigError>(ConfigError::NoProjectDirs),
                }),
    {
        let found = dirs();
        assert(call_ensures(dirs, (), found));
        proof {
            reveal_strlit("/fluidsiren");
            reveal_strlit("models");
            reveal_strlit("/fluidsiren/models");
            ascii_bytes("/fluidsiren"@);
            ascii_bytes("models"@);
            ascii_bytes("/fluidsiren/models"@);
            if found is Some {
                joined_keeps_suffix(
                    found->0.data_dir@,
                    encode_utf8("/fluidsiren"@),
                    encode_utf8("models"@),
                );
                assert(encode_utf8("/fluidsiren"@).push(0x2f) + encode_utf8("models"@)
                    == encode_utf8("/fluidsiren/models"@));
            }
        }
        Config::models_dir_in(found)
    }

    /// The file name of the configured whisper model.
    pub fn model_file_name(&self) -> (r: String)
        ensures
            r@ == model_file(self.whisper_model@),
            r@.len() == self.whisper_model@.len() + 9,
            "ggml-"@.is_prefix_of(r@),
            r@.subrange(5, 5int + self.whisper_model@.len()) == self.whisper_model@,
            ".bin"@.is_suffix_of(r@),
    {
        proof {
            model_files_are_named_after_the_model(self.whisper_model@);
        }
        let mut name = "ggml-".to_string();
        name.append(self.whisper_model.as_str());
        name.append(".bin");
        name
    }

    /// The file of the configured whisper model in the directory `models_dir`.
    pub fn model_path_in(&self, models_dir: Result<Vec<u8>, ConfigError>) -> (r: Result<
        Vec<u8>,
        ConfigError,
    >)
        ensures
            match models_dir {
                Ok(dir) => r matches Ok(p) && p@ == joined(
                    dir@,
                    encode_utf8(model_file(self.whisper_model@)),
                ),
                Err(e) => r == Err::<Vec<u8>, ConfigError>(e),
            },
    {
        match models_dir {
            Ok(dir) => {
                let name = self.model_file_name();
                Ok(join_path(&dir, name.as_str()))
            },
            Err(e) => Err(e),
        }
    }

    /// The file of the configured whisper model of this user.
    pub fn model_path(&self) -> (r: Result<Vec<u8>, ConfigError>)
        ensures
            r matches Ok(p) ==> (encode_utf8("/fluidsiren/models/"@) + encode_utf8(
                model_file(self.whisper_model@),
            )).is_suffix_of(p@),
            exists|found: Result<Vec<u8>, ConfigError>| #[trigger]
                call_ensures(Config::models_dir, (), found) && (match found {
                    Ok(dir) => r matches Ok(p) && p@ == joined(
                        dir@,
                        encode_utf8(model_file(self.whisper_model@)),
                    ),
                    Err(e) => r == Err::<Vec<u8>, ConfigError>(e),
                }),
    {
        let dir = Config::models_dir();
        assert(call_ensures(Config::models_dir, (), dir));
        proof {
            let name = model_file(self.whisper_model@);
            reveal_strlit("/fluidsiren/models");
            reveal_strlit("/fluidsiren/models/");
            reveal_strlit("ggml-");
            ascii_bytes("/fluidsiren/models"@);
            ascii_bytes("/fluidsiren/models/"@);
            assert(encode_utf8(name).len() > 0 && encode_utf8(name).first() == 0x67) by {
                assert(name.first() == 'g');
                first_ascii_byte(name);
            }
            if dir is Ok {
                joined_keeps_suffix(
                    dir->Ok_0@,
                    encode_utf8("/fluidsiren/models"@),
                    encode_utf8(name),
                );
                assert(encode_utf8("/fluidsiren/models"@).push(0x2f) == encode_utf8(
                    "/fluidsiren/models/"@,
                ));
            }
        }
        self.model_path_in(dir)
    }
}

/// A text that starts with an ASCII character is encoded with that byte in front.
proof fn first_ascii_byte(s: Seq<char>)
    requires
        s.len() > 0,
        '\0' <= s.first() <= '\u{7f}',
    ensures
        encode_utf8(s).len() > 0,
        encode_utf8(s).first() == s.first() as u8,
{
    let head = s.take(1);
    assert(head.drop_first() == Seq::<char>::empty());
    ascii_bytes(head);
    assert(encode_utf8(s) == vstd::utf8::encode_scalar(s.first() as u32) + encode_utf8(
        s.drop_first(),
    ));
    assert(encode_utf8(head) == vstd::utf8::encode_scalar(s.first() as u32) + encode_utf8(
        head.drop_first(),
    ));
    assert(encode_utf8(Seq::<char>::empty()) == Seq::<u8>::empty());
}

/// The file name of a model is its name with nothing added but "ggml-" in front and
/// ".bin" behind.
pub proof fn model_files_are_named_after_the_model(model: Seq<char>)
    ensures
        model_file(model).len() == model.len() + 9,
        "ggml-"@.is_prefix_of(model_file(model)),
        model_file(model).subrange(5, 5int + model.len()) == model,
        ".bin"@.is_suffix_of(model_file(model)),
{
    reveal_strlit("ggml-");
    reveal_strlit(".bin");
    let name = model_file(model);
    assert("ggml-"@ =~= name.subrange(0, 5));
    assert(name.subrange(5, 5int + model.len()) =~= model);
    assert(".bin"@ =~= name.subrange(name.len() - 4, name.len() as int));
}

/// Different models have different files.
pub proof fn models_have_files_of_their_own(a: Seq<char>, b: Seq<char>)
    requires
        model_file(a) == model_file(b),
    ensures
        a == b,
{
    model_files_are_named_after_the_model(a);
    model_files_are_named_after_the_model(b);
}

/// A name that is joined to a directory lies in it: the path is the directory, one
/// slash, whether or not the directory already ends in it, and the name.
pub proof fn joined_names_lie_in_the_directory(dir: Seq<u8>, name: Seq<u8>)
    requires
        dir.len() > 0,
        dir.last() != 0x2f,
        name.len() == 0 || name.first() != 0x2f,
    ensures
        joined(dir, name) == dir + seq![0x2fu8] + name,
        joined(dir.push(0x2f), name) == dir + seq![0x2fu8] + name,
        joined(seq![], name) == name,
        joined(seq![0x2fu8], name) == seq![0x2fu8] + name,
{
    assert(dir.push(0x2f) =~= dir + seq![0x2fu8]);
    assert(Seq::<u8>::empty() + name =~= name);
}

/// A path from the root stands alone, whatever directory it is joined to.
pub proof fn paths_from_the_root_stand_alone(dir: Seq<u8>, name: Seq<u8>)
    ensures
        joined(dir, seq![0x2fu8] + name) == seq![0x2fu8] + name,
{
}

} // verus!

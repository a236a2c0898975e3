//! Zenoh configurations: loading them from JSON5 or YAML text, reading and
//! changing their values.
//!
//! A configuration is zenoh's own `Config`, which this crate carries without
//! looking inside. What zenoh computes on configurations is named below: a
//! configuration in zenoh 1.x holds no random value until a session expands
//! it, so each of these results depends on its arguments alone.
use vstd::prelude::*;
use zenoh::Config;

use crate::key_expr::string_outcome_view;
use crate::text::framed;
use vstd::string::{StrSliceExecFns, StringExecFns};

verus! {

#[verifier::external_type_specification]
#[verifier::external_body]
pub struct ExConfig(Config);

// ---------------------------------------------------------------------------
// Names for what zenoh and the parsers compute.
// ---------------------------------------------------------------------------

/// The message with which the JSON5 parser (`json5::Deserializer::from_str`)
/// refuses `text`, or `None` when `text` is well-formed JSON5.
pub uninterp spec fn json5_syntax_error(text: Seq<char>) -> Option<Seq<char>>;

/// What serde's deserialization of a zenoh `Config` gives on the well-formed
/// JSON5 `text`: the configuration, or the deserializer's message.
pub uninterp spec fn json5_config_deserialized(text: Seq<char>) -> Result<Config, Seq<char>>;

/// What serde's deserialization of a zenoh `Config` gives on the YAML
/// `text`: the configuration, or the deserializer's message (YAML syntax
/// errors included).
pub uninterp spec fn yaml_config_deserialized(text: Seq<char>) -> Result<Config, Seq<char>>;

/// Whether zenoh's validation (`validate_rec`) accepts `config`.
pub uninterp spec fn config_is_valid(config: Config) -> bool;

/// zenoh's rendering of `config` (its `Display`).
pub uninterp spec fn config_text(config: Config) -> Seq<char>;

/// What zenoh's `Config::get_json` answers for `key`: the JSON text of the
/// value there, or the error's message.
pub uninterp spec fn config_json(config: Config, key: Seq<char>) -> Result<Seq<char>, Seq<char>>;

/// What `Config::get_json` answers for `key` on zenoh's default
/// configuration.
pub uninterp spec fn default_config_json(key: Seq<char>) -> Result<Seq<char>, Seq<char>>;

/// What zenoh's `Config::insert_json5` makes of `config` when it sets the
/// JSON5 `value` at `key`: the new configuration, or the error's message.
pub uninterp spec fn config_insert_outcome(config: Config, key: Seq<char>, value: Seq<char>) -> Result<Config, Seq<char>>;

/// Why zenoh did not make a configuration out of a text.
pub enum ConfigRejection {
    /// The text is not well-formed JSON5; the field holds the parser's
    /// message.
    Unparsable(String),
    /// The text was read, but the configuration it describes is invalid;
    /// the field holds that configuration, rendered by zenoh.
    Invalid(String),
    /// The text does not describe a configuration; the field holds the
    /// deserializer's message.
    Malformed(String),
}

pub open spec fn starts_with(s: Seq<char>, prefix: Seq<char>) -> bool {
    prefix.len() <= s.len() && s.subrange(0, prefix.len() as int) == prefix
}

/// What is made of a deserialized configuration: the configuration when zenoh
/// validates it, `Invalid configuration: <config>` when it does not, and
/// `malformed_prefix` followed by the deserializer's message when there is no
/// configuration.
pub open spec fn loaded_config_spec(
    deserialized: Result<Config, Seq<char>>,
    malformed_prefix: Seq<char>,
) -> Result<Config, Seq<char>> {
    match deserialized {
        Ok(c) => if config_is_valid(c) {
            Ok(c)
        } else {
            Err("Invalid configuration: "@ + config_text(c))
        },
        Err(m) => Err(malformed_prefix + m),
    }
}

/// The answer of `loadJsonConfig`: the parser's message for text that is not
/// JSON5, else the configuration it describes or `JSON error: ...` /
/// `Invalid configuration: ...`.
pub open spec fn json_config_spec(text: Seq<char>) -> Result<Config, Seq<char>> {
    match json5_syntax_error(text) {
        Some(m) => Err(m),
        None => loaded_config_spec(json5_config_deserialized(text), "JSON error: "@),
    }
}

/// The answer of `loadYamlConfig`.
pub open spec fn yaml_config_spec(text: Seq<char>) -> Result<Config, Seq<char>> {
    loaded_config_spec(yaml_config_deserialized(text), "YAML error: "@)
}

pub open spec fn config_outcome_view(r: Result<Config, String>) -> Result<Config, Seq<char>> {
    match r {
        Ok(c) => Ok(c),
        Err(e) => Err(e@),
    }
}

/// The key `plugins`.
pub open spec fn plugins_key() -> Seq<char> {
    seq!['p', 'l', 'u', 'g', 'i', 'n', 's']
}

/// `key` without the `/`s it starts with: zenoh's configuration skips them.
pub open spec fn trim_leading_slashes(key: Seq<char>) -> Seq<char>
    decreases key.len(),
{
    if key.len() > 0 && key[0] == '/' {
        trim_leading_slashes(key.drop_first())
    } else {
        key
    }
}

/// `key` addresses something inside the plugins configuration
/// (`plugins/<something>`), which zenoh hands to `PluginsConfig::insert`.
pub open spec fn is_plugin_entry_key(key: Seq<char>) -> bool {
    let t = trim_leading_slashes(key);
    &&& t.len() > 8
    &&& t.subrange(0, 7) == plugins_key()
    &&& t[7] == '/'
}

/// The plugins configuration of `config` is a JSON object: its JSON text, as
/// `Config::get_json` gives it, opens with `{`.
pub open spec fn plugins_is_object(config: Config) -> bool {
    config_json(config, plugins_key()) matches Ok(t) && t.len() > 0 && t[0] == '{'
}

/// zenoh's `PluginsConfig::insert` unwraps the plugins value as a JSON
/// object; an insertion inside the plugins of a configuration whose plugins
/// value is not an object is refused before it reaches zenoh.
pub open spec fn insertion_blocked(config: Config, key: Seq<char>) -> bool {
    is_plugin_entry_key(key) && !plugins_is_object(config)
}

/// The message of such a refusal.
pub open spec fn blocked_insertion_message(key: Seq<char>) -> Seq<char> {
    "Unable to insert at '"@ + key + "': the plugins configuration is not an object"@
}

// ---------------------------------------------------------------------------
// Calls into zenoh and the deserializers.
// ---------------------------------------------------------------------------

/// Calls `Config::default()`. In zenoh 1.x the default configuration leaves
/// the id unset (a random one is drawn only when a session starts), so what
/// it reads at every key is fixed.
#[verifier::external_body]
fn config_default() -> (r: Config)
    ensures
        forall|key: Seq<char>| #[trigger] config_json(r, key) == default_config_json(key),
{
    Config::default()
}

/// Parses `text` with `json5::Deserializer::from_str` and hands the
/// deserializer to `Config::from_deserializer`, which deserializes a `Config`
/// and then validates it (`validate_rec`).
#[verifier::external_body]
fn config_from_json5(text: &str) -> (r: Result<Config, ConfigRejection>)
    ensures
        match r {
            Ok(c) => json5_syntax_error(text@) is None && json5_config_deserialized(text@) == Ok::<Config, Seq<char>>(c) && config_is_valid(c),
            Err(ConfigRejection::Unparsable(m)) => json5_syntax_error(text@) == Some(m@),
            Err(ConfigRejection::Malformed(m)) => json5_syntax_error(text@) is None && json5_config_deserialized(text@) == Err::<
                Config,
                Seq<char>,
            >(m@),
            Err(ConfigRejection::Invalid(s)) => json5_syntax_error(text@) is None && (json5_config_deserialized(text@) matches Ok(c)
                && !config_is_valid(c) && s@ == config_text(c)),
        },
{
    let mut deserializer = match json5::Deserializer::from_str(text) {
        Ok(deserializer) => deserializer,
        Err(err) => return Err(ConfigRejection::Unparsable(err.to_string())),
    };
    match Config::from_deserializer(&mut deserializer) {
        Ok(config) => Ok(config),
        Err(Ok(config)) => Err(ConfigRejection::Invalid(config.to_string())),
        Err(Err(err)) => Err(ConfigRejection::Malformed(err.to_string())),
    }
}

/// Hands `serde_yaml::Deserializer::from_str(text)` (which only wraps the
/// text) to `Config::from_deserializer`. YAML is parsed while deserializing,
/// so every error of the text is the deserializer's.
#[verifier::external_body]
fn config_from_yaml(text: &str) -> (r: Result<Config, ConfigRejection>)
    ensures
        match r {
            Ok(c) => yaml_config_deserialized(text@) == Ok::<Config, Seq<char>>(c) && config_is_valid(c),
            Err(ConfigRejection::Unparsable(_)) => false,
            Err(ConfigRejection::Malformed(m)) => yaml_config_deserialized(text@) == Err::<
                Config,
                Seq<char>,
            >(m@),
            Err(ConfigRejection::Invalid(s)) => yaml_config_deserialized(text@) matches Ok(c)
                && !config_is_valid(c) && s@ == config_text(c),
        },
{
    match Config::from_deserializer(serde_yaml::Deserializer::from_str(text)) {
        Ok(config) => Ok(config),
        Err(Ok(config)) => Err(ConfigRejection::Invalid(config.to_string())),
        Err(Err(err)) => Err(ConfigRejection::Malformed(err.to_string())),
    }
}

/// Calls `Config::get_json`, which only reads the configuration.
#[verifier::external_body]
fn config_get_json(config: &Config, key: &str) -> (r: Result<String, String>)
    ensures
        string_outcome_view(r) == config_json(*config, key@),
{
    config.get_json(key).map_err(|err| err.to_string())
}

/// Calls `Config::insert_json5`. On success the configuration becomes
/// `config_insert_outcome`'s; on failure the message is its. A failure
/// leaves the configuration as it was, except inside the plugins
/// configuration, where a new plugin entry may stay behind.
///
/// zenoh's `PluginsConfig::insert` unwraps the plugins value as a JSON
/// object, so an insertion inside it requires that value to be one.
/// zenoh consults a plugin validator here only on the configuration of a
/// running session (`set_plugin_validator`, called by its admin space); the
/// configurations of this crate come from its loaders, which attach none.
#[verifier::external_body]
fn config_insert_json5(config: &mut Config, key: &str, value: &str) -> (r: Result<(), String>)
    requires
        !insertion_blocked(*old(config), key@),
    ensures
        match r {
            Ok(_) => config_insert_outcome(*old(config), key@, value@) == Ok::<Config, Seq<char>>(
                *final(config),
            ),
            Err(e) => config_insert_outcome(*old(config), key@, value@) == Err::<
                Config,
                Seq<char>,
            >(e@) && (!is_plugin_entry_key(key@) ==> *final(config) == *old(config)),
        },
{
    config.insert_json5(key, value).map_err(|err| err.to_string())
}

// ---------------------------------------------------------------------------
// What the JNI entry points compute.
// ---------------------------------------------------------------------------

/// `prefix + body` starts with `prefix`.
pub proof fn lemma_starts_with_prefix(prefix: Seq<char>, body: Seq<char>)
    ensures
        starts_with(prefix + body, prefix),
{
    assert((prefix + body).subrange(0, prefix.len() as int) =~= prefix);
}

/// The message for a text that zenoh did not make a configuration of: the
/// parser's message for unparsable text, `Invalid configuration: <config>`,
/// or `malformed_prefix` followed by the deserializer's message.
pub fn rejection_message(rejection: ConfigRejection, malformed_prefix: &str) -> (r: String)
    ensures
        match rejection {
            ConfigRejection::Unparsable(m) => r@ == m@,
            ConfigRejection::Invalid(c) => r@ == "Invalid configuration: "@ + c@,
            ConfigRejection::Malformed(m) => r@ == malformed_prefix@ + m@,
        },
        !(rejection is Unparsable) ==> starts_with(r@, "Invalid configuration: "@) || starts_with(
            r@,
            malformed_prefix@,
        ),
{
    let (prefix, body) = match rejection {
        ConfigRejection::Unparsable(m) => return m,
        ConfigRejection::Invalid(c) => ("Invalid configuration: ", c),
        ConfigRejection::Malformed(m) => (malformed_prefix, m),
    };
    let mut message = <String as StringExecFns>::from_str(prefix);
    message.append(body.as_str());
    proof {
        lemma_starts_with_prefix(prefix@, body@);
    }
    message
}

/// zenoh's default configuration (`JNIConfig.loadDefaultConfig`).
pub fn load_default_config() -> (r: Config)
    ensures
        forall|key: Seq<char>| #[trigger] config_json(r, key) == default_config_json(key),
{
    config_default()
}

/// Loads a configuration from JSON or JSON5 text (`JNIConfig.loadJsonConfig`).
///
/// Text that is not JSON5 is refused with the parser's message; any other
/// refusal is `Invalid configuration: ...` or `JSON error: ...`.
pub fn load_json_config(text: &str) -> (r: Result<Config, String>)
    ensures
        config_outcome_view(r) == json_config_spec(text@),
        match json5_syntax_error(text@) {
            Some(m) => r matches Err(e) && e@ == m,
            None => r matches Err(e) ==> starts_with(e@, "Invalid configuration: "@)
                || starts_with(e@, "JSON error: "@),
        },
{
    match config_from_json5(text) {
        Ok(config) => Ok(config),
        Err(rejection) => Err(rejection_message(rejection, "JSON error: ")),
    }
}

/// Loads a configuration from YAML text (`JNIConfig.loadYamlConfig`).
///
/// Every refusal is `Invalid configuration: ...` or `YAML error: ...`.
pub fn load_yaml_config(text: &str) -> (r: Result<Config, String>)
    ensures
        config_outcome_view(r) == yaml_config_spec(text@),
        r matches Err(e) ==> starts_with(e@, "Invalid configuration: "@) || starts_with(
            e@,
            "YAML error: "@,
        ),
{
    match config_from_yaml(text) {
        Ok(config) => Ok(config),
        Err(rejection) => Err(rejection_message(rejection, "YAML error: ")),
    }
}

/// The JSON text of the configuration value at `key` (`JNIConfig.getJson`).
pub fn get_json(config: &Config, key: &str) -> (r: Result<String, String>)
    ensures
        string_outcome_view(r) == config_json(*config, key@),
{
    config_get_json(config, key)
}

/// Whether `key` addresses something inside the plugins configuration.
pub fn plugin_entry_key(key: &str) -> (r: bool)
    ensures
        r == is_plugin_entry_key(key@),
{
    let n = key.unicode_len();
    let mut i: usize = 0;
    proof {
        assert(key@.subrange(0, n as int) =~= key@);
    }
    while i < n && key.get_char(i) == '/'
        invariant
            i <= n,
            n == key@.len(),
            trim_leading_slashes(key@) == trim_leading_slashes(key@.subrange(i as int, n as int)),
        decreases n - i,
    {
        proof {
            let rest = key@.subrange(i as int, n as int);
            assert(rest.drop_first() =~= key@.subrange(i + 1, n as int));
        }
        i = i + 1;
    }
    proof {
        assert(key@.subrange(n as int, n as int) =~= Seq::<char>::empty());
    }
    if n - i <= 8 {
        return false;
    }
    let r = key.get_char(i) == 'p' && key.get_char(i + 1) == 'l' && key.get_char(i + 2) == 'u'
        && key.get_char(i + 3) == 'g' && key.get_char(i + 4) == 'i' && key.get_char(i + 5) == 'n'
        && key.get_char(i + 6) == 's' && key.get_char(i + 7) == '/';
    proof {
        let t = key@.subrange(i as int, n as int);
        assert(t.subrange(0, 7) =~= plugins_key() <==> (t[0] == 'p' && t[1] == 'l' && t[2] == 'u'
            && t[3] == 'g' && t[4] == 'i' && t[5] == 'n' && t[6] == 's'));
    }
    r
}

/// Whether the plugins configuration of `config` is a JSON object.
fn plugins_object(config: &Config) -> (r: bool)
    ensures
        r == plugins_is_object(*config),
{
    let json = config_get_json(config, "plugins");
    proof {
        reveal_strlit("plugins");
        assert("plugins"@ =~= plugins_key());
    }
    match json {
        Ok(text) => text.unicode_len() > 0 && text.as_str().get_char(0) == '{',
        Err(_) => false,
    }
}

/// Sets the configuration value at `key` from JSON5 text
/// (`JNIConfig.insertJson5`).
///
/// Inside the plugins configuration this needs the plugins value to be a
/// JSON object; otherwise the insertion is refused and the configuration
/// stays as it was. A failed insertion outside the plugins configuration
/// leaves the configuration as it was.
pub fn insert_json5(config: &mut Config, key: &str, value: &str) -> (r: Result<(), String>)
    ensures
        insertion_blocked(*old(config), key@) ==> (r matches Err(e) && e@
            == blocked_insertion_message(key@)) && *final(config) == *old(config),
        !insertion_blocked(*old(config), key@) ==> match r {
            Ok(_) => config_insert_outcome(*old(config), key@, value@) == Ok::<Config, Seq<char>>(
                *final(config),
            ),
            Err(e) => config_insert_outcome(*old(config), key@, value@) == Err::<
                Config,
                Seq<char>,
            >(e@) && (!is_plugin_entry_key(key@) ==> *final(config) == *old(config)),
        },
        !is_plugin_entry_key(key@) || (config_json(*old(config), plugins_key()) matches Ok(t)
            && t.len() > 0 && t[0] == '{') ==> match r {
            Ok(_) => config_insert_outcome(*old(config), key@, value@) == Ok::<Config, Seq<char>>(
                *final(config),
            ),
            Err(e) => config_insert_outcome(*old(config), key@, value@) == Err::<
                Config,
                Seq<char>,
            >(e@),
        },
{
    if plugin_entry_key(key) && !plugins_object(config) {
        return Err(framed("Unable to insert at '", key, "': the plugins configuration is not an object"));
    }
    config_insert_json5(config, key, value)
}

// ---------------------------------------------------------------------------
// Laws.
// ---------------------------------------------------------------------------

/// An insertion is refused before zenoh only inside the plugins
/// configuration and only when the plugins value, as `get_json` renders it,
/// is not a JSON object (its text does not open with `{`). Any object, empty
/// or not, lets the insertion through.
pub proof fn lemma_insertion_reaches_zenoh(config: Config, key: Seq<char>)
    ensures
        !is_plugin_entry_key(key) ==> !insertion_blocked(config, key),
        (config_json(config, plugins_key()) matches Ok(t) && t.len() > 0 && t[0] == '{')
            ==> !insertion_blocked(config, key),
        insertion_blocked(config, key) ==> is_plugin_entry_key(key) && !(config_json(
            config,
            plugins_key(),
        ) matches Ok(t) && t.len() > 0 && t[0] == '{'),
{
}

/// A key addresses the inside of the plugins configuration exactly when,
/// after any number of leading `/`s, it is `plugins/` followed by something.
pub proof fn lemma_plugin_entry_keys(rest: Seq<char>, key: Seq<char>)
    ensures
        rest.len() > 0 ==> is_plugin_entry_key(plugins_key().push('/') + rest),
        is_plugin_entry_key(seq!['/'] + key) == is_plugin_entry_key(key),
        !is_plugin_entry_key(plugins_key()),
        !is_plugin_entry_key(plugins_key().push('/')),
{
    let t = plugins_key().push('/') + rest;
    assert(t.subrange(0, 7) =~= plugins_key());
    assert((seq!['/'] + key).drop_first() =~= key);
}

} // verus!

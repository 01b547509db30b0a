//! Layered configuration resolution: merges command-line values (which may
//! already carry environment defaults) with an optional persisted record into
//! the final token and target id, naming whichever required value is missing.

use vstd::prelude::*;

verus! {

/// Values supplied on the command line, after the parsing layer has folded in
/// any environment-variable defaults.
pub struct CliInput {
    pub channel_id: Option<String>,
    pub token: Option<String>,
    pub prepend_message: Option<String>,
    pub read_stdin: bool,
    pub dm: bool,
    pub init: bool,
}

/// A previously persisted configuration record; both fields are optional.
#[derive(Debug)]
pub struct StoredConfig {
    pub channel: Option<String>,
    pub token: Option<String>,
}

/// The fully determined credential and target after resolution; both fields
/// are required.
#[derive(Debug)]
pub struct ResolvedConfig {
    pub token: String,
    pub channel_or_user_id: String,
}

/// The required values that resolution can fail to supply.
#[derive(Debug, Clone, Copy, PartialEq, Eq, Structural)]
pub enum ConfigField {
    Token,
    Channel,
}

/// Why resolution failed: a required value was absent from every source.
#[derive(Debug, Clone, Copy, PartialEq, Eq, Structural)]
pub enum ConfigError {
    Missing(ConfigField),
}

/// The characters of an optional owned text.
pub open spec fn opt_str_view(o: Option<String>) -> Option<Seq<char>> {
    match o {
        Some(s) => Some(s@),
        None => None,
    }
}

/// The mathematical content of a [`CliInput`].
pub struct CliInputView {
    pub channel_id: Option<Seq<char>>,
    pub token: Option<Seq<char>>,
    pub prepend_message: Option<Seq<char>>,
    pub read_stdin: bool,
    pub dm: bool,
    pub init: bool,
}

impl View for CliInput {
    type V = CliInputView;

    open spec fn view(&self) -> CliInputView {
        CliInputView {
            channel_id: opt_str_view(self.channel_id),
            token: opt_str_view(self.token),
            prepend_message: opt_str_view(self.prepend_message),
            read_stdin: self.read_stdin,
            dm: self.dm,
            init: self.init,
        }
    }
}

/// The mathematical content of a [`StoredConfig`].
pub struct StoredConfigView {
    pub channel: Option<Seq<char>>,
    pub token: Option<Seq<char>>,
}

impl View for StoredConfig {
    type V = StoredConfigView;

    open spec fn view(&self) -> StoredConfigView {
        StoredConfigView { channel: opt_str_view(self.channel), token: opt_str_view(self.token) }
    }
}

/// The mathematical content of a [`ResolvedConfig`].
pub struct ResolvedConfigView {
    pub token: Seq<char>,
    pub channel_or_user_id: Seq<char>,
}

impl View for ResolvedConfig {
    type V = ResolvedConfigView;

    open spec fn view(&self) -> ResolvedConfigView {
        ResolvedConfigView { token: self.token@, channel_or_user_id: self.channel_or_user_id@ }
    }
}

/// The contents of an optional stored record; an absent record reads as a
/// record with both fields absent.
pub open spec fn opt_stored_view(stored: Option<StoredConfig>) -> Option<StoredConfigView> {
    match stored {
        Some(s) => Some(s@),
        None => None,
    }
}

/// The first present value among an ordered pair of optional sources.
pub open spec fn spec_first_present(
    primary: Option<Seq<char>>,
    fallback: Option<Seq<char>>,
) -> Option<Seq<char>> {
    if primary is Some {
        primary
    } else {
        fallback
    }
}

/// The token a stored record supplies; an absent record supplies none.
pub open spec fn spec_stored_token(stored: Option<StoredConfigView>) -> Option<Seq<char>> {
    match stored {
        Some(s) => s.token,
        None => None,
    }
}

/// The channel a stored record supplies; an absent record supplies none.
pub open spec fn spec_stored_channel(stored: Option<StoredConfigView>) -> Option<Seq<char>> {
    match stored {
        Some(s) => s.channel,
        None => None,
    }
}

/// The token after layering: the command-line value where present, else the
/// stored value, else absent.
pub open spec fn spec_resolved_token(
    cli: CliInputView,
    stored: Option<StoredConfigView>,
) -> Option<Seq<char>> {
    spec_first_present(cli.token, spec_stored_token(stored))
}

/// The target id after layering: the command-line value where present, else
/// the stored value, else absent.
pub open spec fn spec_resolved_channel(
    cli: CliInputView,
    stored: Option<StoredConfigView>,
) -> Option<Seq<char>> {
    spec_first_present(cli.channel_id, spec_stored_channel(stored))
}

/// What resolution yields: the layered token and target where both are
/// present, and otherwise the error naming a missing field, the token named
/// first when both are missing.
pub open spec fn spec_resolve(
    cli: CliInputView,
    stored: Option<StoredConfigView>,
) -> Result<ResolvedConfigView, ConfigError> {
    match (spec_resolved_token(cli, stored), spec_resolved_channel(cli, stored)) {
        (Some(t), Some(c)) => Ok(ResolvedConfigView { token: t, channel_or_user_id: c }),
        (None, _) => Err(ConfigError::Missing(ConfigField::Token)),
        (Some(_), None) => Err(ConfigError::Missing(ConfigField::Channel)),
    }
}

/// The mathematical content of resolution's outcome.
pub open spec fn resolve_result_view(
    r: Result<ResolvedConfig, ConfigError>,
) -> Result<ResolvedConfigView, ConfigError> {
    match r {
        Ok(c) => Ok(c@),
        Err(e) => Err(e),
    }
}

/// Takes the first present value from an ordered pair of optional sources:
/// the layered-default pattern for one field.
pub fn first_present(primary: &Option<String>, fallback: &Option<String>) -> (r: Option<String>)
    ensures
        opt_str_view(r) == spec_first_present(opt_str_view(*primary), opt_str_view(*fallback)),
{
    match primary {
        Some(v) => Some(v.clone()),
        None => match fallback {
            Some(v) => Some(v.clone()),
            None => None,
        },
    }
}

/// Resolves the final token and target id from the command-line values and an
/// optional stored record. Each field is layered independently, the
/// command-line value taking precedence; an absent store supplies nothing,
/// like an empty record; a field absent from every source fails resolution
/// with the error naming that field.
pub fn resolve(cli: &CliInput, stored: &Option<StoredConfig>) -> (r: Result<
    ResolvedConfig,
    ConfigError,
>)
    ensures
        resolve_result_view(r) == spec_resolve(cli@, opt_stored_view(*stored)),
{
    let stored_token: Option<String> = match stored {
        Some(s) => match &s.token {
            Some(t) => Some(t.clone()),
            None => None,
        },
        None => None,
    };
    let stored_channel: Option<String> = match stored {
        Some(s) => match &s.channel {
            Some(c) => Some(c.clone()),
            None => None,
        },
        None => None,
    };
    let token = match first_present(&cli.token, &stored_token) {
        Some(t) => t,
        None => {
            return Err(ConfigError::Missing(ConfigField::Token));
        },
    };
    let channel = match first_present(&cli.channel_id, &stored_channel) {
        Some(c) => c,
        None => {
            return Err(ConfigError::Missing(ConfigField::Channel));
        },
    };
    Ok(ResolvedConfig { token, channel_or_user_id: channel })
}

/// Command-line values take precedence over stored values, field by field,
/// for every combination of presence; where the command line supplies
/// nothing, the stored record decides.
pub proof fn lemma_cli_precedence(cli: CliInputView, stored: Option<StoredConfigView>)
    ensures
        cli.token is Some ==> spec_resolved_token(cli, stored) == cli.token,
        cli.token is None ==> spec_resolved_token(cli, stored) == spec_stored_token(stored),
        cli.channel_id is Some ==> spec_resolved_channel(cli, stored) == cli.channel_id,
        cli.channel_id is None ==> spec_resolved_channel(cli, stored) == spec_stored_channel(
            stored,
        ),
{
}

/// Resolution succeeds exactly when every source chain supplies its field; a
/// token absent from every source fails with the missing-token error whatever
/// the channel sources hold, and a channel absent from every source fails
/// with the missing-channel error whenever a token is available.
pub proof fn lemma_missing_field_errors(cli: CliInputView, stored: Option<StoredConfigView>)
    ensures
        spec_resolve(cli, stored) is Ok <==> (spec_resolved_token(cli, stored) is Some
            && spec_resolved_channel(cli, stored) is Some),
        spec_resolved_token(cli, stored) is None ==> spec_resolve(cli, stored) == Err::<
            ResolvedConfigView,
            ConfigError,
        >(ConfigError::Missing(ConfigField::Token)),
        spec_resolved_token(cli, stored) is Some && spec_resolved_channel(cli, stored) is None
            ==> spec_resolve(cli, stored) == Err::<ResolvedConfigView, ConfigError>(
            ConfigError::Missing(ConfigField::Channel),
        ),
{
}

/// What trimming surrounding whitespace from a text yields; the result
/// depends on the characters alone.
pub uninterp spec fn trimmed(s: Seq<char>) -> Seq<char>;

/// Relies on str::trim: returns the text with leading and trailing
/// whitespace removed, a function of the characters alone.
#[verifier::external_body]
fn trim_str(s: &str) -> (r: String)
    ensures
        r@ == trimmed(s@),
{
    s.trim().to_string()
}

/// The record built from the two prompt answers: each answer trimmed of
/// surrounding whitespace, both fields present.
pub open spec fn spec_initial_record(
    channel_answer: Seq<char>,
    token_answer: Seq<char>,
) -> StoredConfigView {
    StoredConfigView {
        channel: Some(trimmed(channel_answer)),
        token: Some(trimmed(token_answer)),
    }
}

/// Builds the record that initialization persists: the two prompt answers,
/// each trimmed of surrounding whitespace.
pub fn initialize_record(channel_answer: &str, token_answer: &str) -> (r: StoredConfig)
    ensures
        r@ == spec_initial_record(channel_answer@, token_answer@),
{
    StoredConfig {
        channel: Some(trim_str(channel_answer)),
        token: Some(trim_str(token_answer)),
    }
}

/// The persisted store's contents after initialization runs with the given
/// prompt answers: the prior contents are discarded outright and the freshly
/// built record replaces them.
pub open spec fn spec_store_after_initialize(
    prior: Option<StoredConfigView>,
    channel_answer: Seq<char>,
    token_answer: Seq<char>,
) -> Option<StoredConfigView> {
    Some(spec_initial_record(channel_answer, token_answer))
}

/// Initialization always overwrites: running it twice leaves only the second
/// run's answers persisted, whatever the store held before either run.
pub proof fn lemma_initialize_overwrites(
    prior: Option<StoredConfigView>,
    first_channel: Seq<char>,
    first_token: Seq<char>,
    second_channel: Seq<char>,
    second_token: Seq<char>,
)
    ensures
        spec_store_after_initialize(
            spec_store_after_initialize(prior, first_channel, first_token),
            second_channel,
            second_token,
        ) == spec_store_after_initialize(prior, second_channel, second_token),
        spec_store_after_initialize(
            spec_store_after_initialize(prior, first_channel, first_token),
            second_channel,
            second_token,
        ) == Some(spec_initial_record(second_channel, second_token)),
{
}

} // verus!

//! What a run needs to know before it sends anything.

use crate::error::ControlError;
use vstd::prelude::*;
use vstd::string::StringExecFns;

verus! {

/// The application's credentials with the remote service. They are given
/// from outside, stay as they are for the whole run and are never kept.
#[derive(Clone, Debug, PartialEq, Eq)]
pub struct Credentials {
    pub client_id: String,
    pub client_secret: String,
}

/// All that a run is configured with.
#[derive(Clone, Debug, PartialEq, Eq)]
pub struct Settings {
    /// The application's credentials.
    pub credentials: Credentials,
    /// Where the service sends the user after authorization.
    pub redirect_uri: String,
    /// The user's configuration directory, which holds the token cache.
    pub config_dir: String,
}

/// Settings as a mathematical value.
pub struct SettingsView {
    pub client_id: Seq<char>,
    pub client_secret: Seq<char>,
    pub redirect_uri: Seq<char>,
    pub config_dir: Seq<char>,
}

impl View for Settings {
    type V = SettingsView;

    open spec fn view(&self) -> SettingsView {
        SettingsView {
            client_id: self.credentials.client_id@,
            client_secret: self.credentials.client_secret@,
            redirect_uri: self.redirect_uri@,
            config_dir: self.config_dir@,
        }
    }
}

/// The name of the token cache file within the configuration directory.
pub open spec fn token_file_name() -> Seq<char> {
    ".spotifyctl.token"@
}

/// The settings that the given values make, where none is missing.
pub open spec fn settings_of(
    client_id: Option<Seq<char>>,
    client_secret: Option<Seq<char>>,
    redirect_uri: Option<Seq<char>>,
    config_dir: Option<Seq<char>>,
) -> Result<SettingsView, ControlError> {
    if client_id is Some && client_secret is Some && redirect_uri is Some && config_dir is Some {
        Ok(
            SettingsView {
                client_id: client_id->0,
                client_secret: client_secret->0,
                redirect_uri: redirect_uri->0,
                config_dir: config_dir->0,
            },
        )
    } else {
        Err(ControlError::Configuration)
    }
}

/// Settings that may have failed to come about, as a mathematical value.
pub open spec fn outcome_view(outcome: Result<Settings, ControlError>) -> Result<
    SettingsView,
    ControlError,
> {
    match outcome {
        Ok(settings) => Ok(settings@),
        Err(error) => Err(error),
    }
}

/// The name of the token cache file within the configuration directory.
pub fn cache_file_name() -> (name: String)
    ensures
        name@ == token_file_name(),
{
    String::from_str(".spotifyctl.token")
}

/// Puts the settings together from what the environment holds.
///
/// Each argument is `None` where the environment does not give the value.
/// A run needs all four: with any of them missing the result is a
/// configuration error, and nothing has been sent yet.
pub fn configure(
    client_id: Option<String>,
    client_secret: Option<String>,
    redirect_uri: Option<String>,
    config_dir: Option<String>,
) -> (settings: Result<Settings, ControlError>)
    ensures
        outcome_view(settings) == settings_of(
            client_id.deep_view(),
            client_secret.deep_view(),
            redirect_uri.deep_view(),
            config_dir.deep_view(),
        ),
{
    match (client_id, client_secret, redirect_uri, config_dir) {
        (Some(client_id), Some(client_secret), Some(redirect_uri), Some(config_dir)) => Ok(
            Settings {
                credentials: Credentials { client_id, client_secret },
                redirect_uri,
                config_dir,
            },
        ),
        _ => Err(ControlError::Configuration),
    }
}

} // verus!

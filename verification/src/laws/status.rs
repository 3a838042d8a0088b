//! What the status report tells.
use crate::clock::{stale_config, Moment};
use crate::error::Result;
use crate::json::{Json, JsonValue};
use crate::laws::names::{
    lemma_bridge_names, lemma_daemon_names, lemma_release_names, lemma_session_names,
    lemma_status_names,
};
use crate::laws::words::mode_text;
use crate::manager::ApplePasswordManager;
use crate::preflight::{helper_preflight_status, PreflightEnvironment};
use crate::types::{APWRuntimeConfig, RuntimeMode};
use vstd::prelude::*;

verus! {

/// Text that is on record, or null where none is.
pub open spec fn told(text: Option<String>) -> Json {
    match text {
        Some(text) => Json::Str(text@),
        None => Json::Null,
    }
}

/// The status report on a configuration tells what is in it: the address and the mode of the daemon
/// and how its last launch went, the bridge as it is on record, and whose session it is. The report
/// on the app and on the helper are in it as they were made.
pub proof fn law_status_tells_the_configuration(
    env: &PreflightEnvironment,
    config: APWRuntimeConfig,
    app_status: JsonValue,
    now: &Moment,
    preflight: JsonValue,
    r: JsonValue,
)
    ensures
        call_ensures(
            ApplePasswordManager::status,
            (env, Ok::<APWRuntimeConfig, crate::error::APWError>(config), app_status, now),
            r,
        ) && call_ensures(helper_preflight_status, (env, config.runtime_mode), preflight) ==> {
            let daemon = r@.get("daemon"@)->0;
            let host = r@.get("host"@)->0;
            let bridge = r@.get("bridge"@)->0;
            let session = r@.get("session"@)->0;
            &&& r@.get("app"@) == Some(app_status@)
            &&& r@.get("daemon"@) is Some
            &&& daemon.get("host"@) == Some(Json::Str(config.host@))
            &&& daemon.get("port"@) == Some(Json::Int(config.port as int))
            &&& daemon.get("schema"@) == Some(Json::Int(config.schema as int))
            &&& daemon.get("runtimeMode"@) == Some(Json::Str(mode_text(config.runtime_mode)))
            &&& daemon.get("lastLaunchStatus"@) == Some(told(config.last_launch_status))
            &&& daemon.get("lastLaunchError"@) == Some(told(config.last_launch_error))
            &&& daemon.get("lastLaunchStrategy"@) == Some(told(config.last_launch_strategy))
            &&& daemon.get("preflight"@) == Some(preflight@)
            &&& r@.get("host"@) is Some
            &&& host.get("status"@) == Some(told(config.bridge_status))
            &&& host.get("connectedAt"@) == Some(told(config.bridge_connected_at))
            &&& host.get("lastError"@) == Some(told(config.bridge_last_error))
            &&& host.get("bundleVersion"@) == Some(
                match preflight@.get("appBundle"@) {
                    Some(bundle) => bundle.get_or_null("version"@),
                    None => Json::Null,
                },
            )
            &&& r@.get("bridge"@) is Some
            &&& bridge.get("status"@) == Some(told(config.bridge_status))
            &&& bridge.get("browser"@) == Some(
                if config.runtime_mode == RuntimeMode::Browser {
                    told(config.bridge_browser)
                } else {
                    Json::Null
                },
            )
            &&& bridge.get("connectedAt"@) == Some(told(config.bridge_connected_at))
            &&& bridge.get("lastError"@) == Some(told(config.bridge_last_error))
            &&& r@.get("session"@) is Some
            &&& session.get("username"@) == Some(Json::Str(config.username@))
            &&& session.get("createdAt"@) == Some(Json::Str(config.created_at@))
        },
{
    lemma_status_names();
    lemma_daemon_names();
    lemma_bridge_names();
    lemma_session_names();
}

/// The status report calls a session expired exactly where it is more than thirty days old, and
/// authenticated exactly where there is a user with a key and the session has not expired.
pub proof fn law_status_tells_whether_the_session_is_good(
    env: &PreflightEnvironment,
    config: APWRuntimeConfig,
    app_status: JsonValue,
    now: &Moment,
    created_at: &str,
    too_old: bool,
    r: JsonValue,
)
    ensures
        call_ensures(
            ApplePasswordManager::status,
            (env, Ok::<APWRuntimeConfig, crate::error::APWError>(config), app_status, now),
            r,
        ) && created_at@ == config.created_at@ && call_ensures(
            stale_config,
            (created_at, now, 2_592_000_000u64),
            too_old,
        ) ==> {
            let session = r@.get("session"@)->0;
            &&& session.get("expired"@) == Some(Json::Bool(too_old))
            &&& session.get("authenticated"@) == Some(
                Json::Bool(config.username@.len() > 0 && config.shared_key@ > 0 && !too_old),
            )
        },
{
    lemma_status_names();
    lemma_session_names();
}

/// Where the configuration cannot be read, the status report tells of no session, at the default
/// address.
pub proof fn law_status_without_a_configuration(
    env: &PreflightEnvironment,
    error: crate::error::APWError,
    app_status: JsonValue,
    now: &Moment,
    r: JsonValue,
)
    ensures
        call_ensures(
            ApplePasswordManager::status,
            (env, Err::<APWRuntimeConfig, crate::error::APWError>(error), app_status, now),
            r,
        ) ==> {
            let daemon = r@.get("daemon"@)->0;
            let session = r@.get("session"@)->0;
            &&& r@.get("app"@) == Some(app_status@)
            &&& daemon.get("host"@) == Some(Json::Str("127.0.0.1"@))
            &&& daemon.get("port"@) == Some(Json::Int(10_000))
            &&& daemon.get("runtimeMode"@) == Some(Json::Str("auto"@))
            &&& session.get("username"@) == Some(Json::Str(Seq::empty()))
            &&& session.get("authenticated"@) == Some(Json::Bool(false))
            &&& r@.get("bridge"@)->0.get("status"@) == Some(Json::Null)
        },
{
    lemma_status_names();
    lemma_daemon_names();
    lemma_bridge_names();
    lemma_session_names();
}

/// The status report names the release line.
pub proof fn law_status_names_the_release(
    env: &PreflightEnvironment,
    config: Result<APWRuntimeConfig>,
    app_status: JsonValue,
    now: &Moment,
    r: JsonValue,
)
    ensures
        call_ensures(ApplePasswordManager::status, (env, config, app_status, now), r) ==> {
            let release = r@.get("releaseLine"@)->0;
            &&& release.get("target"@) == Some(Json::Str("v2.0.0"@))
            &&& release.get("legacyParityRetained"@) == Some(Json::Bool(true))
            &&& release.get("primaryContract"@) == Some(Json::Str("credential_broker"@))
        },
{
    lemma_status_names();
    lemma_release_names();
}

} // verus!

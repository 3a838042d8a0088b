//! The names of members, told apart.
use vstd::prelude::*;

verus! {

/// The names in a message are told apart.
pub(crate) proof fn lemma_message_names()
    ensures
        "cmd"@.len() == 3,
        "payload"@.len() == 7,
        "msg"@.len() == 3,
        "capabilities"@.len() == 12,
        "setUpTOTPPageURL"@.len() == 16,
        "setUpTOTPURI"@.len() == 12,
        "url"@.len() == 3,
        "tabId"@.len() == 5,
        "frameId"@.len() == 7,
        "cmd"@ != "msg"@,
        "cmd"@ != "url"@,
        "payload"@ != "frameId"@,
        "msg"@ != "url"@,
        "capabilities"@ != "setUpTOTPURI"@,
{
    reveal_strlit("cmd");
    reveal_strlit("payload");
    reveal_strlit("msg");
    reveal_strlit("capabilities");
    reveal_strlit("setUpTOTPPageURL");
    reveal_strlit("setUpTOTPURI");
    reveal_strlit("url");
    reveal_strlit("tabId");
    reveal_strlit("frameId");
    assert("cmd"@[0] != "msg"@[0]);
    assert("cmd"@[0] != "url"@[0]);
    assert("payload"@[0] != "frameId"@[0]);
    assert("msg"@[0] != "url"@[0]);
    assert("capabilities"@[0] != "setUpTOTPURI"@[0]);
}

/// The names in a query and in its envelope are told apart.
pub(crate) proof fn lemma_query_names()
    ensures
        "ACT"@.len() == 3,
        "URL"@.len() == 3,
        "USR"@.len() == 3,
        "TYPE"@.len() == 4,
        "frameURLs"@.len() == 9,
        "QID"@.len() == 3,
        "SMSG"@.len() == 4,
        "TID"@.len() == 3,
        "SDATA"@.len() == 5,
        "ACT"@ != "URL"@,
        "ACT"@ != "USR"@,
        "ACT"@ != "QID"@,
        "ACT"@ != "TID"@,
        "URL"@ != "USR"@,
        "URL"@ != "QID"@,
        "URL"@ != "TID"@,
        "USR"@ != "QID"@,
        "USR"@ != "TID"@,
        "TYPE"@ != "SMSG"@,
        "QID"@ != "TID"@,
{
    reveal_strlit("ACT");
    reveal_strlit("URL");
    reveal_strlit("USR");
    reveal_strlit("TYPE");
    reveal_strlit("frameURLs");
    reveal_strlit("QID");
    reveal_strlit("SMSG");
    reveal_strlit("TID");
    reveal_strlit("SDATA");
    assert("ACT"@[0] != "URL"@[0]);
    assert("ACT"@[0] != "USR"@[0]);
    assert("ACT"@[0] != "QID"@[0]);
    assert("ACT"@[0] != "TID"@[0]);
    assert("URL"@[1] != "USR"@[1]);
    assert("URL"@[0] != "QID"@[0]);
    assert("URL"@[0] != "TID"@[0]);
    assert("USR"@[0] != "QID"@[0]);
    assert("USR"@[0] != "TID"@[0]);
    assert("TYPE"@[0] != "SMSG"@[0]);
    assert("QID"@[0] != "TID"@[0]);
}

/// The names in the status report are told apart.
pub(crate) proof fn lemma_status_names()
    ensures
        "releaseLine"@.len() == 11,
        "app"@.len() == 3,
        "daemon"@.len() == 6,
        "host"@.len() == 4,
        "bridge"@.len() == 6,
        "session"@.len() == 7,
        "daemon"@ != "bridge"@,
{
    reveal_strlit("releaseLine");
    reveal_strlit("app");
    reveal_strlit("daemon");
    reveal_strlit("host");
    reveal_strlit("bridge");
    reveal_strlit("session");
    assert("daemon"@[0] != "bridge"@[0]);
}

/// The names in the report on the daemon are told apart.
pub(crate) proof fn lemma_daemon_names()
    ensures
        "host"@.len() == 4,
        "port"@.len() == 4,
        "schema"@.len() == 6,
        "runtimeMode"@.len() == 11,
        "lastLaunchStatus"@.len() == 16,
        "lastLaunchError"@.len() == 15,
        "lastLaunchStrategy"@.len() == 18,
        "preflight"@.len() == 9,
        "host"@ != "port"@,
{
    reveal_strlit("host");
    reveal_strlit("port");
    reveal_strlit("schema");
    reveal_strlit("runtimeMode");
    reveal_strlit("lastLaunchStatus");
    reveal_strlit("lastLaunchError");
    reveal_strlit("lastLaunchStrategy");
    reveal_strlit("preflight");
    assert("host"@[0] != "port"@[0]);
}

/// The names in the reports on the bridge are told apart.
pub(crate) proof fn lemma_bridge_names()
    ensures
        "status"@.len() == 6,
        "browser"@.len() == 7,
        "connectedAt"@.len() == 11,
        "bundleVersion"@.len() == 13,
        "lastError"@.len() == 9,
{
    reveal_strlit("status");
    reveal_strlit("browser");
    reveal_strlit("connectedAt");
    reveal_strlit("bundleVersion");
    reveal_strlit("lastError");
}

/// The names in the report on the session are told apart.
pub(crate) proof fn lemma_session_names()
    ensures
        "username"@.len() == 8,
        "createdAt"@.len() == 9,
        "expired"@.len() == 7,
        "authenticated"@.len() == 13,
{
    reveal_strlit("username");
    reveal_strlit("createdAt");
    reveal_strlit("expired");
    reveal_strlit("authenticated");
}

/// The names in the report on the release are told apart.
pub(crate) proof fn lemma_release_names()
    ensures
        "target"@.len() == 6,
        "legacyParityRetained"@.len() == 20,
        "primaryContract"@.len() == 15,
{
    reveal_strlit("target");
    reveal_strlit("legacyParityRetained");
    reveal_strlit("primaryContract");
}

/// The names in the report on the app are told apart.
pub(crate) proof fn lemma_app_names()
    ensures
        "bundlePath"@.len() == 10,
        "installed"@.len() == 9,
        "executablePath"@.len() == 14,
        "executableExists"@.len() == 16,
        "bundleVersion"@.len() == 13,
        "socketPath"@.len() == 10,
        "credentialsPath"@.len() == 15,
        "service"@.len() == 7,
        "frameworks"@.len() == 10,
        "releaseLine"@.len() == 11,
        "guidance"@.len() == 8,
        "bundlePath"@ != "socketPath"@,
        "bundlePath"@ != "frameworks"@,
        "socketPath"@ != "frameworks"@,
{
    reveal_strlit("bundlePath");
    reveal_strlit("installed");
    reveal_strlit("executablePath");
    reveal_strlit("executableExists");
    reveal_strlit("bundleVersion");
    reveal_strlit("socketPath");
    reveal_strlit("credentialsPath");
    reveal_strlit("service");
    reveal_strlit("frameworks");
    reveal_strlit("releaseLine");
    reveal_strlit("guidance");
    assert("bundlePath"@[0] != "socketPath"@[0]);
    assert("bundlePath"@[0] != "frameworks"@[0]);
    assert("socketPath"@[0] != "frameworks"@[0]);
}

/// The names in the report on the app's service are told apart.
pub(crate) proof fn lemma_service_names()
    ensures
        "running"@.len() == 7,
        "statusFile"@.len() == 10,
        "lastKnown"@.len() == 9,
        "live"@.len() == 4,
        "transport"@.len() == 9,
        "transportContract"@.len() == 17,
        "lastKnown"@ != "transport"@,
{
    reveal_strlit("running");
    reveal_strlit("statusFile");
    reveal_strlit("lastKnown");
    reveal_strlit("live");
    reveal_strlit("transport");
    reveal_strlit("transportContract");
    assert("lastKnown"@[0] != "transport"@[0]);
}

/// The names in the bootstrap credentials are told apart.
pub(crate) proof fn lemma_credential_names()
    ensures
        "demo"@.len() == 4,
        "domains"@.len() == 7,
        "credentials"@.len() == 11,
        "domain"@.len() == 6,
        "url"@.len() == 3,
        "username"@.len() == 8,
        "password"@.len() == 8,
        "username"@ != "password"@,
{
    reveal_strlit("demo");
    reveal_strlit("domains");
    reveal_strlit("credentials");
    reveal_strlit("domain");
    reveal_strlit("url");
    reveal_strlit("username");
    reveal_strlit("password");
    assert("username"@[0] != "password"@[0]);
}

/// The names in the report on a launch are told apart.
pub(crate) proof fn lemma_launch_names()
    ensures
        "status"@.len() == 6,
        "bundlePath"@.len() == 10,
        "socketPath"@.len() == 10,
        "stdoutLog"@.len() == 9,
        "stderrLog"@.len() == 9,
        "version"@.len() == 7,
        "doctor"@.len() == 6,
        "status"@ != "doctor"@,
        "bundlePath"@ != "socketPath"@,
        "stdoutLog"@ != "stderrLog"@,
{
    reveal_strlit("status");
    reveal_strlit("bundlePath");
    reveal_strlit("socketPath");
    reveal_strlit("stdoutLog");
    reveal_strlit("stderrLog");
    reveal_strlit("version");
    reveal_strlit("doctor");
    assert("status"@[0] != "doctor"@[0]);
    assert("bundlePath"@[0] != "socketPath"@[0]);
    assert("stdoutLog"@[3] != "stderrLog"@[3]);
}

/// The names in what goes with a release are told apart.
pub(crate) proof fn lemma_doctor_names()
    ensures
        "target"@.len() == 6,
        "version"@.len() == 7,
        "legacyParityCommandsRetained"@.len() == 28,
        "authenticationServicesLinked"@.len() == 28,
        "associatedDomainsConfigured"@.len() == 27,
        "legacyParityCommandsRetained"@ != "authenticationServicesLinked"@,
{
    reveal_strlit("target");
    reveal_strlit("version");
    reveal_strlit("legacyParityCommandsRetained");
    reveal_strlit("authenticationServicesLinked");
    reveal_strlit("associatedDomainsConfigured");
    assert("legacyParityCommandsRetained"@[0] != "authenticationServicesLinked"@[0]);
}

/// The names in the messages of the key exchange are told apart.
pub(crate) proof fn lemma_exchange_names()
    ensures
        "QID"@.len() == 3,
        "HSTBRSR"@.len() == 7,
        "PAKE"@.len() == 4,
        "TID"@.len() == 3,
        "MSG"@.len() == 3,
        "A"@.len() == 1,
        "M"@.len() == 1,
        "s"@.len() == 1,
        "B"@.len() == 1,
        "VER"@.len() == 3,
        "PROTO"@.len() == 5,
        "HAMK"@.len() == 4,
        "ErrCode"@.len() == 7,
        "QID"@ != "TID"@,
        "QID"@ != "MSG"@,
        "QID"@ != "VER"@,
        "HSTBRSR"@ != "ErrCode"@,
        "PAKE"@ != "HAMK"@,
        "TID"@ != "MSG"@,
        "TID"@ != "VER"@,
        "MSG"@ != "VER"@,
        "A"@ != "M"@,
        "A"@ != "s"@,
        "A"@ != "B"@,
        "M"@ != "s"@,
        "M"@ != "B"@,
        "s"@ != "B"@,
{
    reveal_strlit("QID");
    reveal_strlit("HSTBRSR");
    reveal_strlit("PAKE");
    reveal_strlit("TID");
    reveal_strlit("MSG");
    reveal_strlit("A");
    reveal_strlit("M");
    reveal_strlit("s");
    reveal_strlit("B");
    reveal_strlit("VER");
    reveal_strlit("PROTO");
    reveal_strlit("HAMK");
    reveal_strlit("ErrCode");
    assert("QID"@[0] != "TID"@[0]);
    assert("QID"@[0] != "MSG"@[0]);
    assert("QID"@[0] != "VER"@[0]);
    assert("HSTBRSR"@[0] != "ErrCode"@[0]);
    assert("PAKE"@[0] != "HAMK"@[0]);
    assert("TID"@[0] != "MSG"@[0]);
    assert("TID"@[0] != "VER"@[0]);
    assert("MSG"@[0] != "VER"@[0]);
    assert("A"@[0] != "M"@[0]);
    assert("A"@[0] != "s"@[0]);
    assert("A"@[0] != "B"@[0]);
    assert("M"@[0] != "s"@[0]);
    assert("M"@[0] != "B"@[0]);
    assert("s"@[0] != "B"@[0]);
}

/// The names in what is printed are told apart.
pub(crate) proof fn lemma_output_names()
    ensures
        "ok"@.len() == 2,
        "code"@.len() == 4,
        "payload"@.len() == 7,
        "error"@.len() == 5,
        "results"@.len() == 7,
        "status"@.len() == 6,
        "username"@.len() == 8,
        "domain"@.len() == 6,
        "password"@.len() == 8,
        "payload"@ != "results"@,
        "status"@ != "domain"@,
        "username"@ != "password"@,
{
    reveal_strlit("ok");
    reveal_strlit("code");
    reveal_strlit("payload");
    reveal_strlit("error");
    reveal_strlit("results");
    reveal_strlit("status");
    reveal_strlit("username");
    reveal_strlit("domain");
    reveal_strlit("password");
    assert("payload"@[0] != "results"@[0]);
    assert("status"@[0] != "domain"@[0]);
    assert("username"@[0] != "password"@[0]);
}

/// The names in a shown challenge are told apart.
pub(crate) proof fn lemma_challenge_names()
    ensures
        "salt"@.len() == 4,
        "serverKey"@.len() == 9,
        "username"@.len() == 8,
        "clientKey"@.len() == 9,
        "serverKey"@ != "clientKey"@,
{
    reveal_strlit("salt");
    reveal_strlit("serverKey");
    reveal_strlit("username");
    reveal_strlit("clientKey");
    assert("serverKey"@[0] != "clientKey"@[0]);
}

/// The words for the modes are told apart.
pub(crate) proof fn lemma_mode_names()
    ensures
        "auto"@.len() == 4,
        "native"@.len() == 6,
        "browser"@.len() == 7,
        "direct"@.len() == 6,
        "launchd"@.len() == 7,
        "disabled"@.len() == 8,
        "native"@ != "direct"@,
        "browser"@ != "launchd"@,
{
    reveal_strlit("auto");
    reveal_strlit("native");
    reveal_strlit("browser");
    reveal_strlit("direct");
    reveal_strlit("launchd");
    reveal_strlit("disabled");
    assert("native"@[0] != "direct"@[0]);
    assert("browser"@[0] != "launchd"@[0]);
}

/// What can be entered at a prompt is told apart.
pub(crate) proof fn lemma_choice_names()
    ensures
        "1"@.len() == 1,
        "2"@.len() == 1,
        "list"@.len() == 4,
        "get"@.len() == 3,
        "list accounts"@.len() == 13,
        "get password"@.len() == 12,
        "list otps"@.len() == 9,
        "get otp"@.len() == 7,
        "1"@ != "2"@,
{
    reveal_strlit("1");
    reveal_strlit("2");
    reveal_strlit("list");
    reveal_strlit("get");
    reveal_strlit("list accounts");
    reveal_strlit("get password");
    reveal_strlit("list otps");
    reveal_strlit("get otp");
    assert("1"@[0] != "2"@[0]);
}

/// The names in an encrypted answer are told apart.
pub(crate) proof fn lemma_answer_names()
    ensures
        "SMSG"@.len() == 4,
        "TID"@.len() == 3,
        "SDATA"@.len() == 5,
        "STATUS"@.len() == 6,
        "Entries"@.len() == 7,
{
    reveal_strlit("SMSG");
    reveal_strlit("TID");
    reveal_strlit("SDATA");
    reveal_strlit("STATUS");
    reveal_strlit("Entries");
}

/// The words for the state of a bridge are told apart.
pub(crate) proof fn lemma_bridge_words()
    ensures
        "waiting"@.len() == 7,
        "attached"@.len() == 8,
        "disconnected"@.len() == 12,
        "error"@.len() == 5,
{
    reveal_strlit("waiting");
    reveal_strlit("attached");
    reveal_strlit("disconnected");
    reveal_strlit("error");
}

/// The words for how a launch went are told apart.
pub(crate) proof fn lemma_launch_words()
    ensures
        "ok"@.len() == 2,
        "disabled"@.len() == 8,
        "failed"@.len() == 6,
{
    reveal_strlit("ok");
    reveal_strlit("disabled");
    reveal_strlit("failed");
}

/// The names in a request over the bridge are told apart.
pub(crate) proof fn lemma_bridge_request_names()
    ensures
        "type"@.len() == 4,
        "request_id"@.len() == 10,
        "payload"@.len() == 7,
{
    reveal_strlit("type");
    reveal_strlit("request_id");
    reveal_strlit("payload");
}

/// The names in the reports on the helper are told apart.
pub(crate) proof fn lemma_preflight_names()
    ensures
        "supported"@.len() == 9,
        "platform"@.len() == 8,
        "configuredRuntimeMode"@.len() == 21,
        "resolvedRuntimeMode"@.len() == 19,
        "launchStrategies"@.len() == 16,
        "status"@.len() == 6,
        "socketPath"@.len() == 10,
        "socketExists"@.len() == 12,
        "launchAgent"@.len() == 11,
        "appBundle"@.len() == 9,
        "helper"@.len() == 6,
        "error"@.len() == 5,
        "manifest"@.len() == 8,
        "supported"@ != "appBundle"@,
        "platform"@ != "manifest"@,
        "status"@ != "helper"@,
{
    reveal_strlit("supported");
    reveal_strlit("platform");
    reveal_strlit("configuredRuntimeMode");
    reveal_strlit("resolvedRuntimeMode");
    reveal_strlit("launchStrategies");
    reveal_strlit("status");
    reveal_strlit("socketPath");
    reveal_strlit("socketExists");
    reveal_strlit("launchAgent");
    reveal_strlit("appBundle");
    reveal_strlit("helper");
    reveal_strlit("error");
    reveal_strlit("manifest");
    assert("supported"@[0] != "appBundle"@[0]);
    assert("platform"@[0] != "manifest"@[0]);
    assert("status"@[0] != "helper"@[0]);
}

/// The names in the report on the platform are told apart.
pub(crate) proof fn lemma_platform_names()
    ensures
        "os"@.len() == 2,
        "arch"@.len() == 4,
        "macosMajorVersion"@.len() == 17,
{
    reveal_strlit("os");
    reveal_strlit("arch");
    reveal_strlit("macosMajorVersion");
}

/// The names in the reports on parts of the native host are told apart.
pub(crate) proof fn lemma_part_names()
    ensures
        "loaded"@.len() == 6,
        "path"@.len() == 4,
        "version"@.len() == 7,
        "executable"@.len() == 10,
        "bundle"@.len() == 6,
        "launchAgent"@.len() == 11,
        "socket"@.len() == 6,
        "loaded"@ != "bundle"@,
        "loaded"@ != "socket"@,
        "bundle"@ != "socket"@,
{
    reveal_strlit("loaded");
    reveal_strlit("path");
    reveal_strlit("version");
    reveal_strlit("executable");
    reveal_strlit("bundle");
    reveal_strlit("launchAgent");
    reveal_strlit("socket");
    assert("loaded"@[0] != "bundle"@[0]);
    assert("loaded"@[0] != "socket"@[0]);
    assert("bundle"@[0] != "socket"@[0]);
}

/// The names in the report on the manifest are told apart.
pub(crate) proof fn lemma_manifest_names()
    ensures
        "searchedPaths"@.len() == 13,
        "path"@.len() == 4,
        "found"@.len() == 5,
        "valid"@.len() == 5,
        "binaryPath"@.len() == 10,
        "binaryAbsolute"@.len() == 14,
        "binaryExecutable"@.len() == 16,
        "allowedOrigins"@.len() == 14,
        "found"@ != "valid"@,
        "binaryAbsolute"@ != "allowedOrigins"@,
{
    reveal_strlit("searchedPaths");
    reveal_strlit("path");
    reveal_strlit("found");
    reveal_strlit("valid");
    reveal_strlit("binaryPath");
    reveal_strlit("binaryAbsolute");
    reveal_strlit("binaryExecutable");
    reveal_strlit("allowedOrigins");
    assert("found"@[0] != "valid"@[0]);
    assert("binaryAbsolute"@[0] != "allowedOrigins"@[0]);
}

/// The names in the reports on an installation are told apart.
pub(crate) proof fn lemma_installed_names()
    ensures
        "status"@.len() == 6,
        "paths"@.len() == 5,
        "preflight"@.len() == 9,
{
    reveal_strlit("status");
    reveal_strlit("paths");
    reveal_strlit("preflight");
}

/// The names in a request to the app are told apart.
pub(crate) proof fn lemma_request_names()
    ensures
        "requestId"@.len() == 9,
        "command"@.len() == 7,
        "payload"@.len() == 7,
        "command"@ != "payload"@,
{
    reveal_strlit("requestId");
    reveal_strlit("command");
    reveal_strlit("payload");
    assert("command"@[0] != "payload"@[0]);
}

/// The names and the words for the statuses are told apart.
pub(crate) proof fn lemma_status_words()
    ensures
        "Success"@.len() == 7,
        "GenericError"@.len() == 12,
        "InvalidParam"@.len() == 12,
        "NoResults"@.len() == 9,
        "FailedToDelete"@.len() == 14,
        "FailedToUpdate"@.len() == 14,
        "InvalidMessageFormat"@.len() == 20,
        "DuplicateItem"@.len() == 13,
        "UnknownAction"@.len() == 13,
        "InvalidSession"@.len() == 14,
        "ServerError"@.len() == 11,
        "CommunicationTimeout"@.len() == 20,
        "InvalidConfig"@.len() == 13,
        "ProcessNotRunning"@.len() == 17,
        "ProtoInvalidResponse"@.len() == 20,
        "success"@.len() == 7,
        "generic_error"@.len() == 13,
        "invalid_param"@.len() == 13,
        "no_results"@.len() == 10,
        "failed_to_delete"@.len() == 16,
        "failed_to_update"@.len() == 16,
        "invalid_message_format"@.len() == 22,
        "duplicate_item"@.len() == 14,
        "unknown_action"@.len() == 14,
        "invalid_session"@.len() == 15,
        "server_error"@.len() == 12,
        "communication_timeout"@.len() == 21,
        "invalid_config"@.len() == 14,
        "process_not_running"@.len() == 19,
        "proto_invalid_response"@.len() == 22,
        "Success"@ != "success"@,
        "GenericError"@ != "InvalidParam"@,
        "GenericError"@ != "server_error"@,
        "InvalidParam"@ != "server_error"@,
        "FailedToDelete"@ != "FailedToUpdate"@,
        "FailedToDelete"@ != "InvalidSession"@,
        "FailedToDelete"@ != "duplicate_item"@,
        "FailedToDelete"@ != "unknown_action"@,
        "FailedToDelete"@ != "invalid_config"@,
        "FailedToUpdate"@ != "InvalidSession"@,
        "FailedToUpdate"@ != "duplicate_item"@,
        "FailedToUpdate"@ != "unknown_action"@,
        "FailedToUpdate"@ != "invalid_config"@,
        "InvalidMessageFormat"@ != "CommunicationTimeout"@,
        "InvalidMessageFormat"@ != "ProtoInvalidResponse"@,
        "DuplicateItem"@ != "UnknownAction"@,
        "DuplicateItem"@ != "InvalidConfig"@,
        "DuplicateItem"@ != "generic_error"@,
        "DuplicateItem"@ != "invalid_param"@,
        "UnknownAction"@ != "InvalidConfig"@,
        "UnknownAction"@ != "generic_error"@,
        "UnknownAction"@ != "invalid_param"@,
        "InvalidSession"@ != "duplicate_item"@,
        "InvalidSession"@ != "unknown_action"@,
        "InvalidSession"@ != "invalid_config"@,
        "CommunicationTimeout"@ != "ProtoInvalidResponse"@,
        "InvalidConfig"@ != "generic_error"@,
        "InvalidConfig"@ != "invalid_param"@,
        "generic_error"@ != "invalid_param"@,
        "failed_to_delete"@ != "failed_to_update"@,
        "invalid_message_format"@ != "proto_invalid_response"@,
        "duplicate_item"@ != "unknown_action"@,
        "duplicate_item"@ != "invalid_config"@,
        "unknown_action"@ != "invalid_config"@,
{
    reveal_strlit("Success");
    reveal_strlit("GenericError");
    reveal_strlit("InvalidParam");
    reveal_strlit("NoResults");
    reveal_strlit("FailedToDelete");
    reveal_strlit("FailedToUpdate");
    reveal_strlit("InvalidMessageFormat");
    reveal_strlit("DuplicateItem");
    reveal_strlit("UnknownAction");
    reveal_strlit("InvalidSession");
    reveal_strlit("ServerError");
    reveal_strlit("CommunicationTimeout");
    reveal_strlit("InvalidConfig");
    reveal_strlit("ProcessNotRunning");
    reveal_strlit("ProtoInvalidResponse");
    reveal_strlit("success");
    reveal_strlit("generic_error");
    reveal_strlit("invalid_param");
    reveal_strlit("no_results");
    reveal_strlit("failed_to_delete");
    reveal_strlit("failed_to_update");
    reveal_strlit("invalid_message_format");
    reveal_strlit("duplicate_item");
    reveal_strlit("unknown_action");
    reveal_strlit("invalid_session");
    reveal_strlit("server_error");
    reveal_strlit("communication_timeout");
    reveal_strlit("invalid_config");
    reveal_strlit("process_not_running");
    reveal_strlit("proto_invalid_response");
    assert("Success"@[0] != "success"@[0]);
    assert("GenericError"@[0] != "InvalidParam"@[0]);
    assert("GenericError"@[0] != "server_error"@[0]);
    assert("InvalidParam"@[0] != "server_error"@[0]);
    assert("FailedToDelete"@[8] != "FailedToUpdate"@[8]);
    assert("FailedToDelete"@[0] != "InvalidSession"@[0]);
    assert("FailedToDelete"@[0] != "duplicate_item"@[0]);
    assert("FailedToDelete"@[0] != "unknown_action"@[0]);
    assert("FailedToDelete"@[0] != "invalid_config"@[0]);
    assert("FailedToUpdate"@[0] != "InvalidSession"@[0]);
    assert("FailedToUpdate"@[0] != "duplicate_item"@[0]);
    assert("FailedToUpdate"@[0] != "unknown_action"@[0]);
    assert("FailedToUpdate"@[0] != "invalid_config"@[0]);
    assert("InvalidMessageFormat"@[0] != "CommunicationTimeout"@[0]);
    assert("InvalidMessageFormat"@[0] != "ProtoInvalidResponse"@[0]);
    assert("DuplicateItem"@[0] != "UnknownAction"@[0]);
    assert("DuplicateItem"@[0] != "InvalidConfig"@[0]);
    assert("DuplicateItem"@[0] != "generic_error"@[0]);
    assert("DuplicateItem"@[0] != "invalid_param"@[0]);
    assert("UnknownAction"@[0] != "InvalidConfig"@[0]);
    assert("UnknownAction"@[0] != "generic_error"@[0]);
    assert("UnknownAction"@[0] != "invalid_param"@[0]);
    assert("InvalidSession"@[0] != "duplicate_item"@[0]);
    assert("InvalidSession"@[0] != "unknown_action"@[0]);
    assert("InvalidSession"@[0] != "invalid_config"@[0]);
    assert("CommunicationTimeout"@[0] != "ProtoInvalidResponse"@[0]);
    assert("InvalidConfig"@[0] != "generic_error"@[0]);
    assert("InvalidConfig"@[0] != "invalid_param"@[0]);
    assert("generic_error"@[0] != "invalid_param"@[0]);
    assert("failed_to_delete"@[10] != "failed_to_update"@[10]);
    assert("invalid_message_format"@[0] != "proto_invalid_response"@[0]);
    assert("duplicate_item"@[0] != "unknown_action"@[0]);
    assert("duplicate_item"@[0] != "invalid_config"@[0]);
    assert("unknown_action"@[0] != "invalid_config"@[0]);
}

} // verus!

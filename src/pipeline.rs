//! The initialization of the server as a state machine: each step takes the
//! outcome of the last outside operation and names the next one.
use vstd::prelude::*;
use vstd::utf8::encode_utf8;
use crate::error::{diagnostic_of, PluginError};
use crate::launch::{
    bundled_launch, identifier_text, is_catch_all, override_launch, LaunchPlan, ServerLocation,
};
use crate::platform::{
    arch_named, executable_name_of, is_supported_arch, is_supported_os, os_named, resolve_arch,
    resolve_os, Target,
};
use crate::release::{
    archive_file_name, archive_name_of, download_url, download_url_of, version_url, version_url_of,
};
use crate::settings::{has_override, settings_args, LspSettings};
use crate::text::{decode_utf8, is_utf8};

verus! {

/// How far one initialization has come.
#[derive(Debug, PartialEq, Eq)]
pub enum Stage {
    /// Nothing has happened yet.
    Start,
    /// The latest version was asked for.
    AwaitingVersion { base: String, args: Vec<String> },
    /// The host's operating system and architecture were asked for.
    AwaitingEnvironment { base: String, args: Vec<String>, version: String },
    /// The bundle was asked for.
    AwaitingArchive { args: Vec<String>, version: String, target: Target },
    /// The bundle is being unpacked.
    AwaitingExtraction { args: Vec<String>, target: Target },
    /// The server was handed to the host.
    Launched,
    /// A diagnostic was reported and the attempt is over.
    Failed,
}

/// The outcome of an outside operation, or the start of initialization.
#[derive(Debug, PartialEq, Eq)]
pub enum Event {
    /// The host asks for initialization; `base` is the remote directory of the
    /// published bundles.
    Initialize { settings: LspSettings, base: String },
    /// The version endpoint answered.
    VersionFetched { status: u16, body: Vec<u8> },
    /// The host reported its operating system and architecture, or why it
    /// could not.
    EnvironmentRead { os: Result<String, String>, arch: Result<String, String> },
    /// The bundle endpoint answered.
    ArchiveFetched { status: u16, body: Vec<u8> },
    /// Unpacking ended, with the reason of a failure if there was one.
    Extracted { failure: Option<String> },
}

/// The outside operation to perform next.
#[derive(Debug, PartialEq, Eq)]
pub enum Action {
    /// Start the server.
    Launch(LaunchPlan),
    /// Fetch this address and report the answer as `VersionFetched`.
    FetchVersion(String),
    /// Read the host's operating system and architecture.
    ReadEnvironment,
    /// Fetch this address and report the answer as `ArchiveFetched`.
    FetchArchive(String),
    /// Write `body` to `file`, unpack every entry as `plan_entry` says, remove
    /// `file` whether or not unpacking succeeded, and report `Extracted`.
    /// Entries written before a failure stay where they are.
    Extract { file: String, body: Vec<u8> },
    /// Show this error message to the user.
    Report(String),
    /// Nothing is to be done.
    Nothing,
}

/// Whether a response status counts as success.
pub open spec fn is_success(status: u16) -> bool {
    200 <= status <= 299
}

/// The attempt ends with exactly the diagnostic of `e`.
pub open spec fn fails_with(next: Stage, action: Action, e: PluginError) -> bool {
    &&& next is Failed
    &&& action is Report
    &&& action->Report_0@ == diagnostic_of(e)
}

/// The server is launched from `location`, with `args` and the catch-all
/// selector.
pub open spec fn launches(next: Stage, action: Action, location: ServerLocation, args: Seq<String>) -> bool {
    &&& next is Launched
    &&& action is Launch
    &&& action->Launch_0.location == location
    &&& action->Launch_0.args@ == args
    &&& is_catch_all(action->Launch_0.selector@)
}

/// An event that a stage does not wait for changes nothing.
pub open spec fn ignored(stage: Stage, next: Stage, action: Action) -> bool {
    next == stage && action is Nothing
}

/// The step from `stage` on `event` to `next`, performing `action`.
pub open spec fn transition(stage: Stage, event: Event, next: Stage, action: Action) -> bool {
    match stage {
        Stage::Start => match event {
            Event::Initialize { settings, base } => if has_override(settings) {
                &&& launches(next, action, next_location(action), settings_args(settings))
                &&& next_location(action) is Identifier
                &&& next_location(action)->Identifier_0@ == identifier_text(settings.server_path->Some_0@)
            } else {
                &&& next is AwaitingVersion
                &&& next->AwaitingVersion_base == base
                &&& next->AwaitingVersion_args@ == settings_args(settings)
                &&& action is FetchVersion
                &&& action->FetchVersion_0@ == version_url_of(base@)
            },
            _ => ignored(stage, next, action),
        },
        Stage::AwaitingVersion { base, args } => match event {
            Event::VersionFetched { status, body } => if !is_success(status) {
                fails_with(next, action, PluginError::RemoteStatus(status))
            } else if !is_utf8(body@) {
                fails_with(next, action, PluginError::InvalidVersionText)
            } else {
                &&& next is AwaitingEnvironment
                &&& next->AwaitingEnvironment_base == base
                &&& next->AwaitingEnvironment_args == args
                &&& encode_utf8(next->AwaitingEnvironment_version@) == body@
                &&& action is ReadEnvironment
            },
            _ => ignored(stage, next, action),
        },
        Stage::AwaitingEnvironment { base, args, version } => match event {
            Event::EnvironmentRead { os, arch } => match os {
                Err(reason) => fails_with(next, action, PluginError::Environment(reason)),
                Ok(o) => if !is_supported_os(o@) {
                    fails_with(next, action, PluginError::UnsupportedPlatform(o))
                } else {
                    match arch {
                        Err(reason) => fails_with(next, action, PluginError::Environment(reason)),
                        Ok(a) => if !is_supported_arch(a@) {
                            fails_with(next, action, PluginError::UnsupportedArchitecture(a))
                        } else {
                            &&& next is AwaitingArchive
                            &&& os_named(o@) == Some(next->AwaitingArchive_target.os)
                            &&& arch_named(a@) == Some(next->AwaitingArchive_target.arch)
                            &&& next->AwaitingArchive_args == args
                            &&& next->AwaitingArchive_version == version
                            &&& action is FetchArchive
                            &&& action->FetchArchive_0@ == download_url_of(
                                base@,
                                version@,
                                next->AwaitingArchive_target,
                            )
                        },
                    }
                },
            },
            _ => ignored(stage, next, action),
        },
        Stage::AwaitingArchive { args, version, target } => match event {
            Event::ArchiveFetched { status, body } => if !is_success(status) {
                fails_with(next, action, PluginError::RemoteStatus(status))
            } else {
                &&& next is AwaitingExtraction
                &&& next->AwaitingExtraction_args == args
                &&& next->AwaitingExtraction_target == target
                &&& action is Extract
                &&& action->file@ == archive_name_of(version@, target)
                &&& action->body == body
            },
            _ => ignored(stage, next, action),
        },
        Stage::AwaitingExtraction { args, target } => match event {
            Event::Extracted { failure } => match failure {
                Some(reason) => fails_with(next, action, PluginError::Io(reason)),
                None => {
                    &&& launches(next, action, next_location(action), args@)
                    &&& next_location(action) is PluginFile
                    &&& next_location(action)->PluginFile_0@ == executable_name_of(target.os)
                },
            },
            _ => ignored(stage, next, action),
        },
        Stage::Launched => ignored(stage, next, action),
        Stage::Failed => ignored(stage, next, action),
    }
}

/// The location that a launch action names.
pub open spec fn next_location(action: Action) -> ServerLocation {
    action->Launch_0.location
}

fn fail(e: PluginError) -> (r: (Stage, Action))
    ensures
        fails_with(r.0, r.1, e),
{
    let m = e.diagnostic();
    (Stage::Failed, Action::Report(m))
}

/// Takes one step of initialization.
pub fn step(stage: Stage, event: Event) -> (r: (Stage, Action))
    ensures
        transition(stage, event, r.0, r.1),
{
    match stage {
        Stage::Start => match event {
            Event::Initialize { settings, base } => match settings.server_override() {
                Some(o) => (Stage::Launched, Action::Launch(override_launch(o))),
                None => {
                    let args = settings.args();
                    let url = version_url(base.as_str());
                    (Stage::AwaitingVersion { base, args }, Action::FetchVersion(url))
                },
            },
            _ => (Stage::Start, Action::Nothing),
        },
        Stage::AwaitingVersion { base, args } => match event {
            Event::VersionFetched { status, body } => {
                if !(200 <= status && status <= 299) {
                    fail(PluginError::RemoteStatus(status))
                } else {
                    match decode_utf8(body) {
                        None => fail(PluginError::InvalidVersionText),
                        Some(version) => (
                            Stage::AwaitingEnvironment { base, args, version },
                            Action::ReadEnvironment,
                        ),
                    }
                }
            },
            _ => (Stage::AwaitingVersion { base, args }, Action::Nothing),
        },
        Stage::AwaitingEnvironment { base, args, version } => match event {
            Event::EnvironmentRead { os, arch } => {
                let o = match os {
                    Err(reason) => return fail(PluginError::Environment(reason)),
                    Ok(o) => o,
                };
                let tos = match resolve_os(o.as_str()) {
                    Err(e) => return fail(e),
                    Ok(t) => t,
                };
                let a = match arch {
                    Err(reason) => return fail(PluginError::Environment(reason)),
                    Ok(a) => a,
                };
                let tarch = match resolve_arch(a.as_str()) {
                    Err(e) => return fail(e),
                    Ok(t) => t,
                };
                let target = Target { os: tos, arch: tarch };
                let url = download_url(base.as_str(), version.as_str(), target);
                (Stage::AwaitingArchive { args, version, target }, Action::FetchArchive(url))
            },
            _ => (Stage::AwaitingEnvironment { base, args, version }, Action::Nothing),
        },
        Stage::AwaitingArchive { args, version, target } => match event {
            Event::ArchiveFetched { status, body } => {
                if !(200 <= status && status <= 299) {
                    fail(PluginError::RemoteStatus(status))
                } else {
                    let file = archive_file_name(version.as_str(), target);
                    (Stage::AwaitingExtraction { args, target }, Action::Extract { file, body })
                }
            },
            _ => (Stage::AwaitingArchive { args, version, target }, Action::Nothing),
        },
        Stage::AwaitingExtraction { args, target } => match event {
            Event::Extracted { failure } => match failure {
                Some(reason) => fail(PluginError::Io(reason)),
                None => (Stage::Launched, Action::Launch(bundled_launch(target.os, args))),
            },
            _ => (Stage::AwaitingExtraction { args, target }, Action::Nothing),
        },
        Stage::Launched => (Stage::Launched, Action::Nothing),
        Stage::Failed => (Stage::Failed, Action::Nothing),
    }
}

/// A launched or failed initialization stays as it is and asks for no
/// further operation, whatever event comes.
pub proof fn lemma_final_stages_absorb(stage: Stage, event: Event, next: Stage, action: Action)
    requires
        stage is Launched || stage is Failed,
        transition(stage, event, next, action),
    ensures
        next == stage,
        action is Nothing,
{
}

/// When the settings name a server of the user's own, initialization launches
/// it at once, with exactly its identifier and arguments, and never asks for
/// a download or any other operation afterwards.
pub proof fn lemma_override_short_circuits(settings: LspSettings, base: String, next: Stage, action: Action)
    requires
        has_override(settings),
        transition(Stage::Start, Event::Initialize { settings, base }, next, action),
    ensures
        next is Launched,
        action is Launch,
        next_location(action) is Identifier,
        next_location(action)->Identifier_0@ == identifier_text(settings.server_path->Some_0@),
        action->Launch_0.args@ == settings_args(settings),
        forall|e: Event, n: Stage, a: Action| #[trigger] transition(next, e, n, a) ==> a is Nothing,
{
}

/// A server path that is blank once trimmed, the empty string among them,
/// counts as no override: initialization goes on to ask for the latest
/// version.
pub proof fn lemma_blank_path_runs_pipeline(settings: LspSettings, base: String, next: Stage, action: Action)
    requires
        settings.server_path matches Some(p) && crate::text::is_blank(p@),
        transition(Stage::Start, Event::Initialize { settings, base }, next, action),
    ensures
        next is AwaitingVersion,
        action is FetchVersion,
        action->FetchVersion_0@ == version_url_of(base@),
{
}

/// A version answer whose status is not a success ends the attempt with
/// exactly one diagnostic, naming the status; after it no operation is asked
/// for, so no bundle is fetched or written.
pub proof fn lemma_version_error_is_final(
    base: String,
    args: Vec<String>,
    status: u16,
    body: Vec<u8>,
    next: Stage,
    action: Action,
)
    requires
        !is_success(status),
        transition(
            Stage::AwaitingVersion { base, args },
            Event::VersionFetched { status, body },
            next,
            action,
        ),
    ensures
        fails_with(next, action, PluginError::RemoteStatus(status)),
        forall|e: Event, n: Stage, a: Action| #[trigger] transition(next, e, n, a) ==> n is Failed && a is Nothing,
{
}

} // verus!

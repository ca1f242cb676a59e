//! Start-up of a service: its settings, and which work a run does in each mode.

use crate::health::ReadinessProbe;
use crate::ServiceError;
use vstd::prelude::*;

verus! {

/// What a run of the service does.
#[derive(Clone, Copy, Debug, PartialEq, Eq, Structural)]
pub enum RunMode {
    /// Serve HTTP requests.
    Api,
    /// Run database migrations, then exit.
    Migrate,
    /// Process background jobs.
    Worker,
    /// Promote schema changes for zero-downtime deployments, then exit.
    Promote,
}

/// The lower-case name of each run mode.
pub open spec fn run_mode_word(mode: RunMode) -> Seq<char> {
    match mode {
        RunMode::Api => seq!['a', 'p', 'i'],
        RunMode::Migrate => seq!['m', 'i', 'g', 'r', 'a', 't', 'e'],
        RunMode::Worker => seq!['w', 'o', 'r', 'k', 'e', 'r'],
        RunMode::Promote => seq!['p', 'r', 'o', 'm', 'o', 't', 'e'],
    }
}

/// A character with ASCII upper case turned to lower case.
pub open spec fn ascii_lower(c: char) -> char {
    if 'A' <= c && c <= 'Z' {
        ((c as u32) + 32) as char
    } else {
        c
    }
}

/// `text` spells `word` (a lower-case word) up to the case of ASCII letters.
pub open spec fn matches_ignoring_ascii_case(text: Seq<char>, word: Seq<char>) -> bool {
    &&& text.len() == word.len()
    &&& forall|i: int| 0 <= i < text.len() ==> ascii_lower(text[i]) == word[i]
}

/// Every character of `text` is ASCII.
pub open spec fn is_ascii_text(text: Seq<char>) -> bool {
    forall|i: int| 0 <= i < text.len() ==> (text[i] as u32) < 128
}

/// The run mode that `pleme_config::RunMode`'s `FromStr` reads from a text, if any.
pub uninterp spec fn parsed_run_mode(text: Seq<char>) -> Option<RunMode>;

/// Reads a run mode with `<pleme_config::RunMode as FromStr>::from_str`. That function
/// lower-cases the whole text (Unicode lower case) and accepts exactly "api", "migrate",
/// "worker" and "promote". So the names are accepted up to the case of ASCII letters, and an
/// ASCII text that spells none of them is refused; for texts with other characters only the
/// name `parsed_run_mode` is stated, since Unicode lower case is not written out here.
#[verifier::external_body]
fn parse_run_mode(text: &str) -> (mode: Option<RunMode>)
    ensures
        mode == parsed_run_mode(text@),
        forall|m: RunMode| matches_ignoring_ascii_case(text@, #[trigger] run_mode_word(m)) ==> mode == Some(m),
        is_ascii_text(text@) && (forall|m: RunMode| !matches_ignoring_ascii_case(text@, #[trigger] run_mode_word(m)))
            ==> mode is None,
{
    match text.parse::<pleme_config::RunMode>() {
        Ok(pleme_config::RunMode::Api) => Some(RunMode::Api),
        Ok(pleme_config::RunMode::Migrate) => Some(RunMode::Migrate),
        Ok(pleme_config::RunMode::Worker) => Some(RunMode::Worker),
        Ok(pleme_config::RunMode::Promote) => Some(RunMode::Promote),
        Err(_) => None,
    }
}

/// The run mode configured by an optional setting: the mode it names, and `Api` when it is
/// absent or names no mode.
pub open spec fn configured_run_mode(setting: Option<Seq<char>>) -> RunMode {
    match setting {
        Some(text) => match parsed_run_mode(text) {
            Some(mode) => mode,
            None => RunMode::Api,
        },
        None => RunMode::Api,
    }
}

/// An optional setting, or a default.
pub open spec fn setting_or(setting: Option<String>, default: Seq<char>) -> Seq<char> {
    match setting {
        Some(value) => value@,
        None => default,
    }
}

/// Port a service listens on unless told otherwise.
pub const DEFAULT_PORT: u16 = 8080;

/// Identity of the running build.
#[derive(Clone, Debug)]
pub struct ServiceInfo {
    pub name: String,
    pub version: String,
    pub git_sha: String,
}

/// Settings of a service, gathered before it runs. `R` is the type of the application's
/// router, `T` that of a one-off task, `C` that of a readiness check.
pub struct ServiceBuilder<R, T, C> {
    pub info: ServiceInfo,
    pub port: u16,
    pub run_mode: RunMode,
    pub router: Option<R>,
    pub readiness: ReadinessProbe<C>,
    pub migrate_task: Option<T>,
    pub worker_task: Option<T>,
    pub promote_task: Option<T>,
}

/// The work that one run of the service does.
pub enum RunPlan<R, T, C> {
    /// Serve HTTP on the port, with the health endpoints beside the application's router.
    Serve { info: ServiceInfo, port: u16, router: Option<R>, readiness: ReadinessProbe<C> },
    /// Run the migration task, then stop.
    Migrate(T),
    /// Run the worker task until it ends or shutdown is asked for.
    Work(T),
    /// Run the promotion task, then stop.
    Promote(T),
}

/// The message of the error for a mode whose task was not configured.
pub open spec fn missing_task_message(mode: RunMode) -> Seq<char> {
    match mode {
        RunMode::Migrate => "No migration task configured"@,
        RunMode::Worker => "No worker task configured"@,
        _ => "No promote task configured"@,
    }
}

impl<R, T, C> ServiceBuilder<R, T, C> {
    /// A service named `name`, with the build's commit, version and run mode taken from the
    /// given settings (the service's environment: `GIT_SHA`, `VERSION`, `RUN_MODE`): the commit
    /// defaults to "unknown", the version to "0.1.0", and the run mode to `Api` when the setting
    /// is absent or names no mode. It listens on port 8080, has no router, no readiness checks
    /// and no tasks.
    pub fn new(name: String, git_sha: Option<String>, version: Option<String>, run_mode: Option<String>) -> (builder: Self)
        ensures
            builder.info.name@ == name@,
            builder.info.git_sha@ == setting_or(git_sha, "unknown"@),
            builder.info.version@ == setting_or(version, "0.1.0"@),
            builder.run_mode == configured_run_mode(
                match run_mode {
                    Some(text) => Some(text@),
                    None => None,
                },
            ),
            forall|mode: RunMode|
                run_mode matches Some(text) && matches_ignoring_ascii_case(text@, #[trigger] run_mode_word(mode))
                    ==> builder.run_mode == mode,
            run_mode matches Some(text) && is_ascii_text(text@) && (forall|mode: RunMode|
                !matches_ignoring_ascii_case(text@, #[trigger] run_mode_word(mode))) ==> builder.run_mode == RunMode::Api,
            builder.port == DEFAULT_PORT,
            builder.router is None,
            builder.readiness@ == Seq::<C>::empty(),
            builder.migrate_task is None,
            builder.worker_task is None,
            builder.promote_task is None,
    {
        let git_sha = match git_sha {
            Some(value) => value,
            None => "unknown".to_owned(),
        };
        let version = match version {
            Some(value) => value,
            None => "0.1.0".to_owned(),
        };
        let run_mode_text = match run_mode {
            Some(value) => value,
            None => "api".to_owned(),
        };
        proof {
            reveal_strlit("api");
            assert(matches_ignoring_ascii_case("api"@, run_mode_word(RunMode::Api)));
        }
        let run_mode = match parse_run_mode(run_mode_text.as_str()) {
            Some(mode) => mode,
            None => RunMode::Api,
        };
        ServiceBuilder {
            info: ServiceInfo { name, version, git_sha },
            port: DEFAULT_PORT,
            run_mode,
            router: None,
            readiness: ReadinessProbe::new(),
            migrate_task: None,
            worker_task: None,
            promote_task: None,
        }
    }

    /// The same settings, listening on `port`.
    pub fn with_port(self, port: u16) -> (builder: Self)
        ensures
            builder == (ServiceBuilder { port, ..self }),
    {
        ServiceBuilder { port, ..self }
    }

    /// The same settings, running in `mode`.
    pub fn with_run_mode(self, mode: RunMode) -> (builder: Self)
        ensures
            builder == (ServiceBuilder { run_mode: mode, ..self }),
    {
        ServiceBuilder { run_mode: mode, ..self }
    }

    /// The same settings, serving `router` beside the health endpoints.
    pub fn with_router(self, router: R) -> (builder: Self)
        ensures
            builder == (ServiceBuilder { router: Some(router), ..self }),
    {
        ServiceBuilder { router: Some(router), ..self }
    }

    /// The same settings, with `check` added after the readiness checks already there.
    pub fn with_readiness_check(self, check: C) -> (builder: Self)
        ensures
            builder.readiness@ == self.readiness@.push(check),
            builder == (ServiceBuilder { readiness: builder.readiness, ..self }),
    {
        let ServiceBuilder { info, port, run_mode, router, readiness, migrate_task, worker_task, promote_task } = self;
        let readiness = readiness.add_check(check);
        ServiceBuilder { info, port, run_mode, router, readiness, migrate_task, worker_task, promote_task }
    }

    /// Adds a custom readiness check built from a closure, run after the checks already there.
    /// The closure reaches the builder already wrapped as a check of type `C`, which reports
    /// `status_of_check_result` of the closure's answer.
    pub fn with_health_check_fn(self, check: C) -> (builder: Self)
        ensures
            builder.readiness@ == self.readiness@.push(check),
            builder == (ServiceBuilder { readiness: builder.readiness, ..self }),
    {
        let ServiceBuilder { info, port, run_mode, router, readiness, migrate_task, worker_task, promote_task } = self;
        let readiness = readiness.add_check(check);
        ServiceBuilder { info, port, run_mode, router, readiness, migrate_task, worker_task, promote_task }
    }

    /// The same settings, with `task` as the work of the migrate mode.
    pub fn with_migrate_task(self, task: T) -> (builder: Self)
        ensures
            builder == (ServiceBuilder { migrate_task: Some(task), ..self }),
    {
        ServiceBuilder { migrate_task: Some(task), ..self }
    }

    /// The same settings, with `task` as the work of the worker mode.
    pub fn with_worker_task(self, task: T) -> (builder: Self)
        ensures
            builder == (ServiceBuilder { worker_task: Some(task), ..self }),
    {
        ServiceBuilder { worker_task: Some(task), ..self }
    }

    /// The same settings, with `task` as the work of the promote mode.
    pub fn with_promote_task(self, task: T) -> (builder: Self)
        ensures
            builder == (ServiceBuilder { promote_task: Some(task), ..self }),
    {
        ServiceBuilder { promote_task: Some(task), ..self }
    }

    /// The task configured for a mode that runs one.
    pub open spec fn task_for(self, mode: RunMode) -> Option<T> {
        match mode {
            RunMode::Migrate => self.migrate_task,
            RunMode::Worker => self.worker_task,
            _ => self.promote_task,
        }
    }

    /// What a run does: in `Api` mode it serves, with the settings' port, router and
    /// readiness checks; in the other modes it runs the task configured for the mode, and
    /// fails with `InitializationFailed` when there is none.
    pub fn into_run_plan(self) -> (plan: Result<RunPlan<R, T, C>, ServiceError>)
        ensures
            self.run_mode == RunMode::Api ==> plan == Ok::<RunPlan<R, T, C>, ServiceError>(
                RunPlan::Serve { info: self.info, port: self.port, router: self.router, readiness: self.readiness },
            ),
            self.run_mode != RunMode::Api ==> match self.task_for(self.run_mode) {
                Some(task) => plan == Ok::<RunPlan<R, T, C>, ServiceError>(
                    match self.run_mode {
                        RunMode::Migrate => RunPlan::Migrate(task),
                        RunMode::Worker => RunPlan::Work(task),
                        _ => RunPlan::Promote(task),
                    },
                ),
                None => plan matches Err(ServiceError::InitializationFailed(message))
                    && message@ == missing_task_message(self.run_mode),
            },
    {
        let ServiceBuilder { info, port, run_mode, router, readiness, migrate_task, worker_task, promote_task } = self;
        match run_mode {
            RunMode::Api => Ok(RunPlan::Serve { info, port, router, readiness }),
            RunMode::Migrate => match migrate_task {
                Some(task) => Ok(RunPlan::Migrate(task)),
                None => Err(ServiceError::InitializationFailed("No migration task configured".to_owned())),
            },
            RunMode::Worker => match worker_task {
                Some(task) => Ok(RunPlan::Work(task)),
                None => Err(ServiceError::InitializationFailed("No worker task configured".to_owned())),
            },
            RunMode::Promote => match promote_task {
                Some(task) => Ok(RunPlan::Promote(task)),
                None => Err(ServiceError::InitializationFailed("No promote task configured".to_owned())),
            },
        }
    }
}

} // verus!

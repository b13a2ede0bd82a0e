//! The decisions of the database setup at start-up. The environment, the
//! database and the log are reached by the caller, which performs each
//! action and hands back what came of it.
use vstd::prelude::*;

verus! {

/// What the caller does next.
pub enum SetupAction {
    /// Ask whether the database at this URL exists.
    CheckExists(String),
    /// Create the database at this URL.
    Create(String),
    /// Connect to the database at this URL.
    Connect(String),
    /// Run the migrations on the connection.
    Migrate,
    /// Setup is over; serve with the connection.
    Done,
    /// Stop the program with this message (and the error that came with the event).
    Abort(String),
}

/// The severity of a log line.
#[derive(Clone, Copy, Debug, PartialEq, Eq)]
pub enum LogLevel {
    Info,
    Error,
}

/// A line to write to the log.
pub struct LogLine {
    pub level: LogLevel,
    pub text: String,
}

/// An action as mathematical values.
pub enum SetupActionView {
    CheckExists(Seq<char>),
    Create(Seq<char>),
    Connect(Seq<char>),
    Migrate,
    Done,
    Abort(Seq<char>),
}

impl View for SetupAction {
    type V = SetupActionView;

    open spec fn view(&self) -> SetupActionView {
        match self {
            SetupAction::CheckExists(u) => SetupActionView::CheckExists(u@),
            SetupAction::Create(u) => SetupActionView::Create(u@),
            SetupAction::Connect(u) => SetupActionView::Connect(u@),
            SetupAction::Migrate => SetupActionView::Migrate,
            SetupAction::Done => SetupActionView::Done,
            SetupAction::Abort(m) => SetupActionView::Abort(m@),
        }
    }
}

/// A line of the log, as mathematical values.
pub open spec fn line_view(l: LogLine) -> (LogLevel, Seq<char>) {
    (l.level, l.text@)
}

/// What a step asks for: a line to log first, if any, then an action.
pub struct SetupStep {
    pub log: Option<LogLine>,
    pub action: SetupAction,
}

/// A step as mathematical values.
pub struct SetupStepView {
    pub log: Option<(LogLevel, Seq<char>)>,
    pub action: SetupActionView,
}

impl View for SetupStep {
    type V = SetupStepView;

    open spec fn view(&self) -> SetupStepView {
        SetupStepView {
            log: match &self.log {
                Some(l) => Some(line_view(*l)),
                None => None,
            },
            action: self.action@,
        }
    }
}

/// The step after asking whether the database at `url` exists.
pub open spec fn existence_step(url: Seq<char>, exists: Option<bool>) -> SetupStepView {
    match exists {
        Some(true) => SetupStepView {
            log: Some((LogLevel::Info, "Database found at "@ + url)),
            action: SetupActionView::Connect(url),
        },
        Some(false) => SetupStepView { log: None, action: SetupActionView::Create(url) },
        None => SetupStepView {
            log: None,
            action: SetupActionView::Abort("Failed to check database existence"@),
        },
    }
}

/// The step after creating the database at `url`.
pub open spec fn create_step(url: Seq<char>, created: bool) -> SetupStepView {
    if created {
        SetupStepView {
            log: Some((LogLevel::Info, "Created database at "@ + url)),
            action: SetupActionView::Connect(url),
        }
    } else {
        SetupStepView { log: None, action: SetupActionView::Abort("Failed to create database"@) }
    }
}

/// The step after running the migrations: done either way, logging success
/// or, as an error, the failure.
pub open spec fn migrate_step(failure: Option<Seq<char>>) -> SetupStepView {
    match failure {
        None => SetupStepView {
            log: Some((LogLevel::Info, "Database migrations applied successfully"@)),
            action: SetupActionView::Done,
        },
        Some(detail) => SetupStepView {
            log: Some((LogLevel::Error, "Failed to run database migrations: "@ + detail)),
            action: SetupActionView::Done,
        },
    }
}

fn line(level: LogLevel, before: &str, rest: &str) -> (l: LogLine)
    ensures
        line_view(l) == (level, before@ + rest@),
{
    let mut text = before.to_owned();
    text.append(rest);
    LogLine { level, text }
}

/// After reading `DATABASE_URL`: check the database it names, or stop with
/// `DATABASE_URL must be set` where it is not set.
pub fn after_url(url: Option<String>) -> (action: SetupAction)
    ensures
        match url {
            Some(u) => action@ == SetupActionView::CheckExists(u@),
            None => action@ == SetupActionView::Abort("DATABASE_URL must be set"@),
        },
{
    match url {
        Some(u) => SetupAction::CheckExists(u),
        None => SetupAction::Abort("DATABASE_URL must be set".to_owned()),
    }
}

/// After asking whether the database at `url` exists (`None` where asking
/// failed): connect to it, logging `Database found at <url>`; create it where
/// it is missing; stop with `Failed to check database existence` where
/// asking failed.
pub fn after_existence_check(url: String, exists: Option<bool>) -> (step: SetupStep)
    ensures
        step@ == existence_step(url@, exists),
        exists == Some(false) ==> step.log is None && step.action@ == SetupActionView::Create(url@),
        exists == Some(true) ==> step.action@ == SetupActionView::Connect(url@),
        exists is None ==> step.action@ == SetupActionView::Abort(
            "Failed to check database existence"@,
        ),
{
    match exists {
        Some(true) => {
            let l = line(LogLevel::Info, "Database found at ", url.as_str());
            SetupStep { log: Some(l), action: SetupAction::Connect(url) }
        },
        Some(false) => SetupStep { log: None, action: SetupAction::Create(url) },
        None => SetupStep {
            log: None,
            action: SetupAction::Abort("Failed to check database existence".to_owned()),
        },
    }
}

/// After creating the database at `url`: connect to it, logging
/// `Created database at <url>`; stop with `Failed to create database` where
/// creating failed.
pub fn after_create(url: String, created: bool) -> (step: SetupStep)
    ensures
        step@ == create_step(url@, created),
        created ==> step.action@ == SetupActionView::Connect(url@),
        !created ==> step.action@ == SetupActionView::Abort("Failed to create database"@),
{
    if created {
        let l = line(LogLevel::Info, "Created database at ", url.as_str());
        SetupStep { log: Some(l), action: SetupAction::Connect(url) }
    } else {
        SetupStep { log: None, action: SetupAction::Abort("Failed to create database".to_owned()) }
    }
}

/// After connecting: run the migrations; stop with
/// `Failed to connect to the database` where connecting failed.
pub fn after_connect(connected: bool) -> (action: SetupAction)
    ensures
        connected ==> action@ == SetupActionView::Migrate,
        !connected ==> action@ == SetupActionView::Abort("Failed to connect to the database"@),
{
    if connected {
        SetupAction::Migrate
    } else {
        SetupAction::Abort("Failed to connect to the database".to_owned())
    }
}

/// After running the migrations (`Some(detail)` where they failed): setup is
/// over either way; the log says `Database migrations applied successfully`,
/// or, as an error, `Failed to run database migrations: <detail>`.
pub fn after_migrate(failure: Option<String>) -> (step: SetupStep)
    ensures
        step@ == migrate_step(
            match failure {
                Some(d) => Some(d@),
                None => None,
            },
        ),
        step.action@ == SetupActionView::Done,
        failure matches Some(d) ==> (step.log matches Some(l) && l.level == LogLevel::Error
            && l.text@ == "Failed to run database migrations: "@ + d@),
        failure is None ==> (step.log matches Some(l) && l.level == LogLevel::Info),
{
    match failure {
        None => SetupStep {
            log: Some(
                LogLine {
                    level: LogLevel::Info,
                    text: "Database migrations applied successfully".to_owned(),
                },
            ),
            action: SetupAction::Done,
        },
        Some(detail) => SetupStep {
            log: Some(line(LogLevel::Error, "Failed to run database migrations: ", detail.as_str())),
            action: SetupAction::Done,
        },
    }
}

/// A database reported missing is always created before it is connected
/// to, whatever its URL; one reported present is connected to at once; a
/// failed check stops setup.
pub proof fn law_missing_database_is_created(url: Seq<char>)
    ensures
        existence_step(url, Some(false)).action == SetupActionView::Create(url),
        existence_step(url, Some(false)).log is None,
        create_step(url, true).action == SetupActionView::Connect(url),
        existence_step(url, Some(true)).action == SetupActionView::Connect(url),
        existence_step(url, None).action is Abort,
        create_step(url, false).action is Abort,
{
}

/// A failed migration never stops the program, and every step after the
/// database exists leads on to connecting.
pub proof fn law_setup_outcomes(url: Seq<char>, detail: Seq<char>)
    ensures
        migrate_step(Some(detail)).action == SetupActionView::Done,
        migrate_step(None).action == SetupActionView::Done,
        existence_step(url, Some(true)).action == SetupActionView::Connect(url),
        create_step(url, true).action == SetupActionView::Connect(url),
{
}

} // verus!

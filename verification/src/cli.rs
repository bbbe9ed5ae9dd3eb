use vstd::prelude::*;

use crate::actions::Action;
use crate::data_types::app_config::AppConfig;
use crate::data_types::request::MediaType;

verus! {

/// The options of the sync action.
#[derive(Clone, Debug, PartialEq, Eq)]
pub struct SyncOptions {
    /// Reference for the sync: a track of the video file, a subtitle, or a
    /// path to a subtitles file.
    pub reference: Option<String>,
    /// Seconds of offset allowed when syncing.
    pub max_offset_seconds: Option<u32>,
    /// Do not attempt to fix the framerate.
    pub no_fix_framerate: bool,
    /// Use Golden-Section search.
    pub gss: bool,
}

/// The subtitle actions that can be requested.
#[derive(Clone, Debug, PartialEq, Eq)]
pub enum ActionCommands {
    Sync(SyncOptions),
    OCRFixes,
    CommonFixes,
    RemoveHearingImpaired,
    RemoveStyleTags,
    FixUppercase,
    ReverseRTL,
}

impl ActionCommands {
    /// The code by which the service knows the action.
    pub open spec fn code(self) -> Seq<char> {
        match self {
            ActionCommands::Sync(_) => "sync"@,
            ActionCommands::OCRFixes => "OCR_fixes"@,
            ActionCommands::CommonFixes => "common"@,
            ActionCommands::RemoveHearingImpaired => "remove_HI"@,
            ActionCommands::RemoveStyleTags => "remove_tags"@,
            ActionCommands::FixUppercase => "fix_uppercase"@,
            ActionCommands::ReverseRTL => "reverse_rtl"@,
        }
    }

    /// The action's code as a string.
    pub fn to_string(&self) -> (code: String)
        ensures
            code@ == self.code(),
    {
        match self {
            ActionCommands::Sync(_) => "sync".to_owned(),
            ActionCommands::OCRFixes => "OCR_fixes".to_owned(),
            ActionCommands::CommonFixes => "common".to_owned(),
            ActionCommands::RemoveHearingImpaired => "remove_HI".to_owned(),
            ActionCommands::RemoveStyleTags => "remove_tags".to_owned(),
            ActionCommands::FixUppercase => "fix_uppercase".to_owned(),
            ActionCommands::ReverseRTL => "reverse_rtl".to_owned(),
        }
    }
}

/// What both kinds of media take on the command line.
#[derive(Clone, Debug, PartialEq, Eq)]
pub struct CommonArgs {
    /// Restrict the run to these identifiers.
    pub ids: Vec<u32>,
    /// Skip this many records (ignored if ids are given).
    pub offset: u32,
    /// Take at most this many records (ignored if ids are given).
    pub limit: Option<u32>,
    /// Skip records whose subtitles are all recorded as processed.
    pub skip_processed: bool,
    /// The action to perform.
    pub subcommand: ActionCommands,
}

#[derive(Clone, Debug, PartialEq, Eq)]
pub enum Commands {
    /// Perform operations on movies
    Movies(CommonArgs),
    /// Perform operations on tv shows
    TVShows(CommonArgs),
}

#[derive(Clone, Debug, PartialEq, Eq)]
pub struct Cli {
    /// Path to the JSON configuration file
    pub config: String,
    /// Number of times to retry the request in case of lost connection
    pub max_retries: u32,
    /// Duration of the retry interval (seconds)
    pub retry_interval: u64,
    pub command: Commands,
}

/// How often and at which intervals a request is tried again.
#[derive(Clone, Copy, Debug, PartialEq, Eq, Structural)]
pub struct RetryPolicy {
    pub max_retries: u32,
    /// The shortest wait between two tries, in seconds.
    pub min_interval_secs: u64,
    /// The longest wait between two tries, in seconds.
    pub max_interval_secs: u64,
}

/// Everything a run needs to know before its first request.
#[derive(Debug)]
pub struct Session {
    pub retry: RetryPolicy,
    pub media: MediaType,
    pub action: Action,
}

/// Why a run cannot start.
#[derive(Clone, Copy, Debug, PartialEq, Eq, Structural)]
pub enum StartError {
    /// The configuration does not give a URL for the service.
    NoServiceUrl,
    /// The retry interval is too long to have an upper bound above it.
    RetryIntervalTooLong,
}

impl Commands {
    /// The kind of media that the command is about.
    pub open spec fn media(self) -> MediaType {
        match self {
            Commands::Movies(_) => MediaType::Movie,
            Commands::TVShows(_) => MediaType::TVShow,
        }
    }

    /// What the command takes besides its kind of media.
    pub open spec fn args(self) -> CommonArgs {
        match self {
            Commands::Movies(args) => args,
            Commands::TVShows(args) => args,
        }
    }

    /// Sets a run up: the retries wait between `retry_interval` seconds and
    /// one second more, requests go to the API root of `config`, and the run
    /// takes its action and its restrictions from the command.
    pub fn run(self, config: &AppConfig, max_retries: u32, retry_interval: u64) -> (session: Result<
        Session,
        StartError,
    >)
        ensures
            match session {
                Err(StartError::RetryIntervalTooLong) => retry_interval == u64::MAX,
                Err(StartError::NoServiceUrl) => retry_interval < u64::MAX && config.api_root()
                    is None,
                Ok(made) => {
                    &&& retry_interval < u64::MAX
                    &&& Some(made.action.base_url@) == config.api_root()
                    &&& made.retry == RetryPolicy {
                        max_retries,
                        min_interval_secs: retry_interval,
                        max_interval_secs: (retry_interval + 1) as u64,
                    }
                    &&& made.media == self.media()
                    &&& made.action.action == self.args().subcommand
                    &&& made.action.ids == self.args().ids
                    &&& made.action.limit == self.args().limit
                    &&& made.action.offset == self.args().offset
                    &&& made.action.skip_processed == self.args().skip_processed
                    &&& made.action.language_code is None
                },
            },
    {
        if retry_interval == u64::MAX {
            return Err(StartError::RetryIntervalTooLong);
        }
        let retry = RetryPolicy {
            max_retries,
            min_interval_secs: retry_interval,
            max_interval_secs: retry_interval + 1,
        };
        let base_url = match config.construct_url() {
            Some(url) => url,
            None => {
                return Err(StartError::NoServiceUrl);
            },
        };
        let mut action = Action::new(base_url);
        let (media, args) = match self {
            Commands::Movies(args) => (MediaType::Movie, args),
            Commands::TVShows(args) => (MediaType::TVShow, args),
        };
        action.action = args.subcommand;
        action.ids = args.ids;
        action.limit = args.limit;
        action.offset = args.offset;
        action.skip_processed = args.skip_processed;
        Ok(Session { retry, media, action })
    }
}

impl Cli {
    /// Sets up the run that the command line asks for.
    pub fn run(self, config: &AppConfig) -> (session: Result<Session, StartError>)
        ensures
            match session {
                Err(StartError::RetryIntervalTooLong) => self.retry_interval == u64::MAX,
                Err(StartError::NoServiceUrl) => self.retry_interval < u64::MAX
                    && config.api_root() is None,
                Ok(made) => {
                    &&& self.retry_interval < u64::MAX
                    &&& Some(made.action.base_url@) == config.api_root()
                    &&& made.retry == RetryPolicy {
                        max_retries: self.max_retries,
                        min_interval_secs: self.retry_interval,
                        max_interval_secs: (self.retry_interval + 1) as u64,
                    }
                    &&& made.media == self.command.media()
                    &&& made.action.action == self.command.args().subcommand
                    &&& made.action.ids == self.command.args().ids
                    &&& made.action.limit == self.command.args().limit
                    &&& made.action.offset == self.command.args().offset
                    &&& made.action.skip_processed == self.command.args().skip_processed
                    &&& made.action.language_code is None
                },
            },
    {
        self.command.run(config, self.max_retries, self.retry_interval)
    }
}

} // verus!

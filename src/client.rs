use vstd::prelude::*;

use crate::envelope::{envelope_json, EnvelopeView, VioletLog};
use crate::error::VioletError;
use crate::log::{is_suppressed, severity_of_level, suppressed, Level, VioletLogSeverity};
use crate::text::{decimal, decimal_string, plain_text};

verus! {

/// The title given to records when the configuration names none.
pub const DEFAULT_TITLE: &'static str = "violet";

/// How long a delivery may take, in seconds, before it counts as failed.
pub const TIMEOUT_SECS: u64 = 20;

/// The address that the records of an application are posted to.
pub open spec fn events_url_text(app_id: u64) -> Seq<char> {
    "https://violet.zuraaa.com/api/apps/"@ + decimal(app_id as nat) + "/events"@
}

/// The address that the records of application `app_id` are posted to.
pub fn events_url(app_id: u64) -> (r: String)
    ensures
        r@ == events_url_text(app_id),
{
    let mut s = String::from_str("https://violet.zuraaa.com/api/apps/");
    let id = decimal_string(app_id);
    s.append(id.as_str());
    s.append("/events");
    s
}

/// The result of one delivery, from the status the collector answered with;
/// `None` where no answer came (a timeout or a failed connection).
pub fn transport_outcome(status: Option<u16>) -> (r: Result<u16, VioletError>)
    ensures
        r == match status {
            Some(s) => if 200 <= s < 300 {
                Ok(s)
            } else {
                Err(VioletError::Transport)
            },
            None => Err(VioletError::Transport),
        },
{
    match status {
        Some(s) => if 200 <= s && s < 300 {
            Ok(s)
        } else {
            Err(VioletError::Transport)
        },
        None => Err(VioletError::Transport),
    }
}

/// A sink configuration.
pub ghost struct SinkConfig {
    pub app_id: u64,
    pub token: Seq<char>,
    pub default_title: Seq<char>,
    pub min_severity: VioletLogSeverity,
    pub detached: bool,
}

/// Builds the configuration of a sink, then installs it.
pub struct VioletBuilder {
    identifier: u64,
    token: String,
    send_err_async: bool,
    default_title: String,
    send_level: VioletLogSeverity,
}

impl View for VioletBuilder {
    type V = SinkConfig;

    closed spec fn view(&self) -> SinkConfig {
        SinkConfig {
            app_id: self.identifier,
            token: self.token@,
            default_title: self.default_title@,
            min_severity: self.send_level,
            detached: self.send_err_async,
        }
    }
}

/// What a sink holds after a configuration `cfg` is offered to it in state
/// `state`: the first configuration stays.
pub open spec fn installed(state: Option<SinkConfig>, cfg: SinkConfig) -> Option<SinkConfig> {
    match state {
        Some(c) => Some(c),
        None => Some(cfg),
    }
}

impl VioletBuilder {
    /// A blocking configuration with the default title that ships records of
    /// severity `Error` and more urgent.
    pub fn new(token: &str, indentifier: u64) -> (r: Self)
        ensures
            r@ == (SinkConfig {
                app_id: indentifier,
                token: token@,
                default_title: DEFAULT_TITLE@,
                min_severity: VioletLogSeverity::Error,
                detached: false,
            }),
    {
        Self {
            token: String::from_str(token),
            identifier: indentifier,
            default_title: String::from_str(DEFAULT_TITLE),
            send_err_async: false,
            send_level: VioletLogSeverity::Error,
        }
    }

    /// The same configuration, delivering without waiting.
    pub fn enable_async(self) -> (r: Self)
        ensures
            r@ == (SinkConfig { detached: true, ..self@ }),
    {
        Self { send_err_async: true, ..self }
    }

    /// The same configuration with another title.
    pub fn set_title(self, title: &str) -> (r: Self)
        ensures
            r@ == (SinkConfig { default_title: title@, ..self@ }),
    {
        Self { default_title: String::from_str(title), ..self }
    }

    /// The same configuration with another floor.
    pub fn set_send_min_level(self, level: VioletLogSeverity) -> (r: Self)
        ensures
            r@ == (SinkConfig { min_severity: level, ..self@ }),
    {
        Self { send_level: level, ..self }
    }

    /// The application the records belong to.
    pub fn identifier(&self) -> (r: u64)
        ensures
            r == self@.app_id,
    {
        self.identifier
    }

    /// The token sent with each record.
    pub fn token(&self) -> (r: &str)
        ensures
            r@ == self@.token,
    {
        self.token.as_str()
    }

    /// The title given to each record.
    pub fn default_title(&self) -> (r: &str)
        ensures
            r@ == self@.default_title,
    {
        self.default_title.as_str()
    }

    /// The least urgent severity that is still shipped.
    pub fn send_level(&self) -> (r: VioletLogSeverity)
        ensures
            r == self@.min_severity,
    {
        self.send_level
    }

    /// Whether records are delivered without waiting.
    pub fn is_async(&self) -> (r: bool)
        ensures
            r == self@.detached,
    {
        self.send_err_async
    }

    /// Offers this configuration to `client`. It is installed only where none
    /// was before; the result tells whether it was.
    pub fn init(self, client: &mut HttpVioletData) -> (r: bool)
        ensures
            r == old(client)@ is None,
            final(client)@ == installed(old(client)@, self@),
    {
        if client.config.is_some() {
            return false;
        }
        client.set_config(self);
        true
    }
}

/// A request that delivers one record.
pub struct Request {
    pub url: String,
    pub token: String,
    pub body: String,
}

/// Whether `q` posts the envelope of severity `severity` and message
/// `message` under configuration `c`.
pub open spec fn request_for(
    q: Request,
    c: SinkConfig,
    severity: VioletLogSeverity,
    message: Seq<char>,
) -> bool {
    &&& q.url@ == events_url_text(c.app_id)
    &&& q.token@ == c.token
    &&& q.body@ == envelope_json(
        EnvelopeView { severity, title: c.default_title, message, stacktrace: None },
    )
}

/// What the sink does with one record.
pub enum LogAction {
    /// No configuration is installed: the record is dropped.
    NotInitialized,
    /// The record is less urgent than the floor: nothing is sent.
    Suppressed,
    /// Send the request and wait for it.
    Blocking(Request),
    /// Send the request without waiting for it.
    Detached(Request),
}

/// The sink: the configuration installed, if any.
pub struct HttpVioletData {
    config: Option<VioletBuilder>,
}

impl View for HttpVioletData {
    type V = Option<SinkConfig>;

    closed spec fn view(&self) -> Option<SinkConfig> {
        match self.config {
            Some(c) => Some(c@),
            None => None,
        }
    }
}

impl HttpVioletData {
    /// A sink with no configuration.
    pub fn new() -> (r: Self)
        ensures
            r@ is None,
    {
        Self { config: None }
    }

    fn set_config(&mut self, config: VioletBuilder)
        ensures
            final(self)@ == Some(config@),
    {
        self.config = Some(config);
    }

    /// The configuration installed, if any.
    pub fn config(&self) -> (r: Option<&VioletBuilder>)
        ensures
            match r {
                Some(c) => self@ == Some(c@),
                None => self@ is None,
            },
    {
        self.config.as_ref()
    }

    /// The request that delivers a record under the installed configuration;
    /// `NotInitialized` where none is installed.
    pub fn build_request(&self, title: String, severity: VioletLogSeverity, message: String) -> (r:
        Result<Request, VioletError>)
        ensures
            match self@ {
                None => r == Err::<Request, VioletError>(VioletError::NotInitialized),
                Some(c) => r matches Ok(q) && request_for(
                    q,
                    SinkConfig { default_title: title@, ..c },
                    severity,
                    message@,
                ),
            },
    {
        let config = match &self.config {
            Some(c) => c,
            None => return Err(VioletError::NotInitialized),
        };
        let envelope = VioletLog::new(severity, title, message);
        let body = match envelope.to_json() {
            Ok(b) => b,
            Err(e) => return Err(e),
        };
        Ok(Request { url: events_url(config.identifier), token: config.token.clone(), body })
    }

    /// Decides what becomes of a record of level `level` with text `message`.
    pub fn log(&self, level: &Level, message: &str) -> (r: LogAction)
        ensures
            match self@ {
                None => r == LogAction::NotInitialized,
                Some(c) => if is_suppressed(severity_of_level(*level), c.min_severity) {
                    r == LogAction::Suppressed
                } else {
                    match r {
                        LogAction::Blocking(q) => !c.detached && request_for(
                            q,
                            c,
                            severity_of_level(*level),
                            message@,
                        ),
                        LogAction::Detached(q) => c.detached && request_for(
                            q,
                            c,
                            severity_of_level(*level),
                            message@,
                        ),
                        _ => false,
                    }
                },
            },
    {
        let config = match &self.config {
            Some(c) => c,
            None => return LogAction::NotInitialized,
        };
        if suppressed(level, &config.send_level) {
            return LogAction::Suppressed;
        }
        let text = plain_text(message);
        let severity = VioletLogSeverity::from(*level);
        match self.build_request(config.default_title.clone(), severity, text) {
            Ok(q) => if config.send_err_async {
                LogAction::Detached(q)
            } else {
                LogAction::Blocking(q)
            },
            // A configuration is installed, so no request fails to build.
            Err(_) => LogAction::NotInitialized,
        }
    }
}

/// Offering a second configuration leaves the first one installed.
pub proof fn first_install_wins(state: Option<SinkConfig>, first: SinkConfig, second: SinkConfig)
    ensures
        installed(installed(state, first), second) == installed(state, first),
        state is None ==> installed(installed(state, first), second) == Some(first),
{
}

} // verus!

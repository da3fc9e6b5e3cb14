use vstd::prelude::*;

verus! {

/// Every error the agent reports.
#[derive(Debug)]
pub enum AppError {
    ConfigNotFound,
    ConfigParseError(String),
    ConfigValidationError(String),
    LogWatchError(String),
    MetricsError(String),
    ShipError(String),
    BufferLockError,
    InitError(String),
}

/// The prefix of every reported error.
pub open spec fn error_prefix() -> Seq<char> {
    "[uplog error] "@
}

impl AppError {
    /// The text that is printed for this error.
    pub open spec fn message_text(&self) -> Seq<char> {
        error_prefix() + match self {
            AppError::ConfigNotFound =>
                "config: no config file found (checked ./uplog.toml, ~/.uplog.toml, /etc/uplog/uplog.toml)"@,
            AppError::ConfigParseError(msg) => "config: parse failed — "@ + msg@,
            AppError::ConfigValidationError(msg) => "config: invalid field — "@ + msg@,
            AppError::LogWatchError(msg) => "logs: "@ + msg@,
            AppError::MetricsError(msg) => "metrics: "@ + msg@,
            AppError::ShipError(msg) => "shipper: "@ + msg@,
            AppError::BufferLockError => "buffer: failed to acquire lock on shared buffer"@,
            AppError::InitError(msg) => "init: "@ + msg@,
        }
    }

    /// Renders the error as it is printed on standard error.
    pub fn message(&self) -> (s: String)
        ensures
            s@ == self.message_text(),
    {
        let mut s = String::from_str("[uplog error] ");
        match self {
            AppError::ConfigNotFound => {
                s.append(
                    "config: no config file found (checked ./uplog.toml, ~/.uplog.toml, /etc/uplog/uplog.toml)",
                );
            },
            AppError::ConfigParseError(msg) => {
                s.append("config: parse failed — ");
                s.append(msg.as_str());
            },
            AppError::ConfigValidationError(msg) => {
                s.append("config: invalid field — ");
                s.append(msg.as_str());
            },
            AppError::LogWatchError(msg) => {
                s.append("logs: ");
                s.append(msg.as_str());
            },
            AppError::MetricsError(msg) => {
                s.append("metrics: ");
                s.append(msg.as_str());
            },
            AppError::ShipError(msg) => {
                s.append("shipper: ");
                s.append(msg.as_str());
            },
            AppError::BufferLockError => {
                s.append("buffer: failed to acquire lock on shared buffer");
            },
            AppError::InitError(msg) => {
                s.append("init: ");
                s.append(msg.as_str());
            },
        }
        s
    }
}

/// Every reported error begins with the same `[uplog error] ` prefix.
pub proof fn lemma_message_has_prefix(e: AppError)
    ensures
        crate::text::has_prefix(e.message_text(), error_prefix()),
{
    reveal_strlit("[uplog error] ");
    assert(e.message_text().subrange(0, error_prefix().len() as int) =~= error_prefix());
}

} // verus!

use vstd::prelude::*;

verus! {

/// Everything that can go wrong around one execution: the container runtime
/// refused the session or the stream, an output file could not be written,
/// the configuration text did not parse, or a schedule expression was
/// rejected at registration.
#[derive(PartialEq, Eq, Debug)]
pub enum AppError {
    Docker(String),
    Io(String),
    Toml(String),
    Cron(String),
}

impl AppError {
    /// The human-readable reason carried by any variant.
    pub fn reason(&self) -> (s: &String)
        ensures
            s == (match self {
                AppError::Docker(m) => m,
                AppError::Io(m) => m,
                AppError::Toml(m) => m,
                AppError::Cron(m) => m,
            }),
    {
        match self {
            AppError::Docker(m) => m,
            AppError::Io(m) => m,
            AppError::Toml(m) => m,
            AppError::Cron(m) => m,
        }
    }
}

} // verus!

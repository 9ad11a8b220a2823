use vstd::prelude::*;

verus! {

/// Failures that the server's own logic reports. Failures of the database
/// driver, of the file system and of the configuration format are reported
/// by the program around the library.
#[derive(Debug, Clone)]
pub enum Error {
    /// No configuration file at the given path.
    MissingConfig(String),
    /// No database file at the given path.
    MissingDatabase(String),
    /// The ingestion key is not set in the environment.
    MissingIngestApiKey,
    /// A timestamp could not be represented.
    InvalidTimestamp,
}

impl Error {
    /// The text of the error, as it is shown to the operator.
    pub open spec fn spec_describe(self) -> Seq<char> {
        match self {
            Error::MissingConfig(path) => "Missing required config file at "@ + path@,
            Error::MissingDatabase(path) => "Missing required sqlite database file at "@ + path@,
            Error::MissingIngestApiKey =>
                "Missing required environment variable MORTIMERIOT_INGEST_API_KEY"@,
            Error::InvalidTimestamp => "Invalid UNIX timestamp"@,
        }
    }

    /// Returns the text of the error.
    pub fn describe(&self) -> (text: String)
        ensures
            text@ == self.spec_describe(),
    {
        match self {
            Error::MissingConfig(path) => {
                String::from_str("Missing required config file at ").concat(path.as_str())
            },
            Error::MissingDatabase(path) => {
                String::from_str("Missing required sqlite database file at ").concat(path.as_str())
            },
            Error::MissingIngestApiKey => {
                String::from_str("Missing required environment variable MORTIMERIOT_INGEST_API_KEY")
            },
            Error::InvalidTimestamp => String::from_str("Invalid UNIX timestamp"),
        }
    }
}

} // verus!

//! What can go wrong in each part of the library.

use vstd::prelude::*;

verus! {

/// Why a line is no record.
#[derive(Debug, Clone, Copy, PartialEq, Eq, Structural)]
pub enum ParseFault {
    /// The line is not one JSON object.
    Malformed,
    /// A field that every record carries is absent.
    MissingField,
    /// A field holds something other than a string.
    InvalidType,
}

/// Why the journal could not be read.
#[derive(Debug, Clone, Copy, PartialEq, Eq, Structural)]
pub enum JournalError {
    /// A line is no record.
    Parsing(ParseFault),
    /// What the journal command printed is not UTF-8.
    OutputParsing,
    /// The journal command could not be run, or reported failure.
    Exec,
}

/// Why records could not be grouped by origin.
#[derive(Debug, Clone, Copy, PartialEq, Eq, Structural)]
pub enum SshLogParserError {
    /// The batch holds failures only: there is nothing to group.
    LogExtraction,
    /// The expression that finds an address could not be built.
    Pattern,
}

/// Why the lookup service gave no geolocation.
#[derive(Debug, Clone, Copy, PartialEq, Eq, Structural)]
pub enum IpScannerError {
    /// The request could not be made, or its answer could not be read.
    RequestError,
    /// The answer is no geolocation.
    ResponseParsingError,
}

/// Why the store did not do what it was asked.
#[derive(Debug, Clone, Copy, PartialEq, Eq, Structural)]
pub enum StoreFault {
    /// The address is stored already: an address is stored once.
    Conflict,
    /// An origin is stored without any geolocation.
    Incomplete,
    /// Anything else that a store can fail with.
    Failure,
}

/// Why an origin could not be resolved.
#[derive(Debug, Clone, Copy, PartialEq, Eq, Structural)]
pub enum CrawlerError {
    /// The lookup service failed.
    ScannerInteraction(IpScannerError),
    /// The store failed.
    DbInteraction(StoreFault),
}

impl JournalError {
    /// The sentence that describes the error.
    pub open spec fn message_of(self) -> Seq<char> {
        match self {
            JournalError::Parsing(_) => "Failed to parse output to response"@,
            JournalError::OutputParsing => "Failed to parse stdout"@,
            JournalError::Exec => "Failed to execute the journal command"@,
        }
    }

    /// The sentence that describes the error.
    pub fn message(&self) -> (text: String)
        ensures
            text@ == self.message_of(),
    {
        match self {
            JournalError::Parsing(_) => "Failed to parse output to response".to_owned(),
            JournalError::OutputParsing => "Failed to parse stdout".to_owned(),
            JournalError::Exec => "Failed to execute the journal command".to_owned(),
        }
    }
}

impl SshLogParserError {
    /// The sentence that describes the error.
    pub open spec fn message_of(self) -> Seq<char> {
        match self {
            SshLogParserError::LogExtraction => "Log extraction failed"@,
            SshLogParserError::Pattern => "Invalid address pattern"@,
        }
    }

    /// The sentence that describes the error.
    pub fn message(&self) -> (text: String)
        ensures
            text@ == self.message_of(),
    {
        match self {
            SshLogParserError::LogExtraction => "Log extraction failed".to_owned(),
            SshLogParserError::Pattern => "Invalid address pattern".to_owned(),
        }
    }
}

impl IpScannerError {
    /// The sentence that describes the error.
    pub open spec fn message_of(self) -> Seq<char> {
        match self {
            IpScannerError::RequestError => "Request failed"@,
            IpScannerError::ResponseParsingError => "Response parsing failed"@,
        }
    }

    /// The sentence that describes the error.
    pub fn message(&self) -> (text: String)
        ensures
            text@ == self.message_of(),
    {
        match self {
            IpScannerError::RequestError => "Request failed".to_owned(),
            IpScannerError::ResponseParsingError => "Response parsing failed".to_owned(),
        }
    }
}

impl CrawlerError {
    /// The sentence that describes the error.
    pub open spec fn message_of(self) -> Seq<char> {
        match self {
            CrawlerError::ScannerInteraction(_) => "Failed to interact with shodan"@,
            CrawlerError::DbInteraction(_) => "Failed to interact with the database"@,
        }
    }

    /// The sentence that describes the error.
    pub fn message(&self) -> (text: String)
        ensures
            text@ == self.message_of(),
    {
        match self {
            CrawlerError::ScannerInteraction(_) => "Failed to interact with shodan".to_owned(),
            CrawlerError::DbInteraction(_) => "Failed to interact with the database".to_owned(),
        }
    }
}

} // verus!

//! Error values of the application and the text report of an error together
//! with the chain of errors that caused it.
//!
//! An error's cause chain is held as the messages of its sources, outermost
//! first, as the reporting code reads them.

use vstd::prelude::*;
use vstd::string::StringExecFns;

verus! {

/// The character sequences of a sequence of strings.
pub open spec fn texts(v: Seq<String>) -> Seq<Seq<char>> {
    v.map_values(|s: String| s@)
}

/// One "Caused by" paragraph per cause, in order.
pub open spec fn caused_by_lines(causes: Seq<Seq<char>>) -> Seq<char>
    decreases causes.len(),
{
    if causes.len() == 0 {
        Seq::empty()
    } else {
        caused_by_lines(causes.drop_last()) + "Caused by:\n\t"@ + causes.last() + "\n"@
    }
}

/// The report of an error: its own message, a blank line, then each cause.
pub open spec fn chain_report(message: Seq<char>, causes: Seq<Seq<char>>) -> Seq<char> {
    message + "\n\n"@ + caused_by_lines(causes)
}

/// The cause chain made of a single message.
pub fn single_cause(message: &str) -> (r: Vec<String>)
    ensures
        texts(r@) == seq![message@],
{
    let mut r: Vec<String> = Vec::new();
    r.push(String::from_str(message));
    proof {
        assert(texts(r@) =~= seq![message@]);
    }
    r
}

/// Writes the report of an error whose message is `message` and whose
/// sources, from the nearest to the root, have the messages `causes`.
pub fn error_chain_fmt(message: &str, causes: &Vec<String>) -> (r: String)
    ensures
        r@ == chain_report(message@, texts(causes@)),
{
    let mut r = String::from_str(message);
    r.append("\n\n");
    let mut i: usize = 0;
    while i < causes.len()
        invariant
            i <= causes.len(),
            r@ == message@ + "\n\n"@ + caused_by_lines(texts(causes@).take(i as int)),
        decreases causes.len() - i,
    {
        let ghost before = r@;
        r.append("Caused by:\n\t");
        r.append(causes[i].as_str());
        r.append("\n");
        proof {
            let t = texts(causes@);
            assert(t.take(i + 1).drop_last() =~= t.take(i as int));
            assert(t.take(i + 1).last() == causes@[i as int]@);
            assert(r@ =~= before + "Caused by:\n\t"@ + causes@[i as int]@ + "\n"@);
        }
        i = i + 1;
    }
    proof {
        assert(texts(causes@).take(causes@.len() as int) =~= texts(causes@));
    }
    r
}

/// Failures while reading an uploaded multipart body.
pub enum FileSystemError {
    /// The payload could not be processed; holds the cause chain.
    Payload(Vec<String>),
    /// Anything else went wrong; holds the cause chain.
    Unexpected(Vec<String>),
}

impl FileSystemError {
    pub open spec fn spec_message(&self) -> Seq<char> {
        match self {
            FileSystemError::Payload(_) => "Error processing payload"@,
            FileSystemError::Unexpected(_) => "Something went wrong"@,
        }
    }

    pub open spec fn spec_causes(&self) -> Seq<String> {
        match self {
            FileSystemError::Payload(c) => c@,
            FileSystemError::Unexpected(c) => c@,
        }
    }

    /// The error's own message.
    pub fn message(&self) -> (r: &'static str)
        ensures
            r@ == self.spec_message(),
    {
        match self {
            FileSystemError::Payload(_) => "Error processing payload",
            FileSystemError::Unexpected(_) => "Something went wrong",
        }
    }

    /// The messages of the error's sources, nearest first.
    pub fn causes(&self) -> (r: &Vec<String>)
        ensures
            r@ == self.spec_causes(),
    {
        match self {
            FileSystemError::Payload(c) => c,
            FileSystemError::Unexpected(c) => c,
        }
    }

    /// The error followed by its cause chain, as the debug output shows it.
    pub fn report(&self) -> (r: String)
        ensures
            r@ == chain_report(self.spec_message(), texts(self.spec_causes())),
    {
        error_chain_fmt(self.message(), self.causes())
    }
}

/// Failures of adding one asset through the web form.
pub enum AddError {
    /// The submitted asset did not validate; holds the cause chain.
    Validation(Vec<String>),
    /// Anything else went wrong; holds the cause chain.
    UnexpectedError(Vec<String>),
}

impl AddError {
    pub open spec fn spec_message(&self) -> Seq<char> {
        match self {
            AddError::Validation(_) => "Validation failed"@,
            AddError::UnexpectedError(_) => "Something went wrong"@,
        }
    }

    pub open spec fn spec_causes(&self) -> Seq<String> {
        match self {
            AddError::Validation(c) => c@,
            AddError::UnexpectedError(c) => c@,
        }
    }

    /// The error's own message.
    pub fn message(&self) -> (r: &'static str)
        ensures
            r@ == self.spec_message(),
    {
        match self {
            AddError::Validation(_) => "Validation failed",
            AddError::UnexpectedError(_) => "Something went wrong",
        }
    }

    /// The messages of the error's sources, nearest first.
    pub fn causes(&self) -> (r: &Vec<String>)
        ensures
            r@ == self.spec_causes(),
    {
        match self {
            AddError::Validation(c) => c,
            AddError::UnexpectedError(c) => c,
        }
    }

    /// The error followed by its cause chain, as the debug output shows it.
    pub fn report(&self) -> (r: String)
        ensures
            r@ == chain_report(self.spec_message(), texts(self.spec_causes())),
    {
        error_chain_fmt(self.message(), self.causes())
    }
}

/// Failures of handling a new upload.
pub enum UploadError {
    /// The upload did not validate; holds the cause chain.
    Validation(Vec<String>),
    /// Anything else went wrong; holds the cause chain.
    UnexpectedError(Vec<String>),
}

impl UploadError {
    pub open spec fn spec_message(&self) -> Seq<char> {
        match self {
            UploadError::Validation(_) => "Validation failed"@,
            UploadError::UnexpectedError(_) => "Something went wrong"@,
        }
    }

    pub open spec fn spec_causes(&self) -> Seq<String> {
        match self {
            UploadError::Validation(c) => c@,
            UploadError::UnexpectedError(c) => c@,
        }
    }

    /// The error's own message.
    pub fn message(&self) -> (r: &'static str)
        ensures
            r@ == self.spec_message(),
    {
        match self {
            UploadError::Validation(_) => "Validation failed",
            UploadError::UnexpectedError(_) => "Something went wrong",
        }
    }

    /// The messages of the error's sources, nearest first.
    pub fn causes(&self) -> (r: &Vec<String>)
        ensures
            r@ == self.spec_causes(),
    {
        match self {
            UploadError::Validation(c) => c,
            UploadError::UnexpectedError(c) => c,
        }
    }

    /// The error followed by its cause chain, as the debug output shows it.
    pub fn report(&self) -> (r: String)
        ensures
            r@ == chain_report(self.spec_message(), texts(self.spec_causes())),
    {
        error_chain_fmt(self.message(), self.causes())
    }
}

/// Failures of inserting the assets listed in an uploaded file.
pub enum BulkInsertError {
    /// The file could not be read as CSV; holds the cause chain.
    Parse(Vec<String>),
    /// The database refused an operation; holds the cause chain.
    Database(Vec<String>),
    /// Anything else went wrong; holds the cause chain.
    Unexpected(Vec<String>),
}

impl BulkInsertError {
    pub open spec fn spec_message(&self) -> Seq<char> {
        match self {
            BulkInsertError::Parse(_) => "Error parsing payload file"@,
            BulkInsertError::Database(_) => "Error inserting in database"@,
            BulkInsertError::Unexpected(_) => "Something went wrong"@,
        }
    }

    pub open spec fn spec_causes(&self) -> Seq<String> {
        match self {
            BulkInsertError::Parse(c) => c@,
            BulkInsertError::Database(c) => c@,
            BulkInsertError::Unexpected(c) => c@,
        }
    }

    /// The error's own message.
    pub fn message(&self) -> (r: &'static str)
        ensures
            r@ == self.spec_message(),
    {
        match self {
            BulkInsertError::Parse(_) => "Error parsing payload file",
            BulkInsertError::Database(_) => "Error inserting in database",
            BulkInsertError::Unexpected(_) => "Something went wrong",
        }
    }

    /// The messages of the error's sources, nearest first.
    pub fn causes(&self) -> (r: &Vec<String>)
        ensures
            r@ == self.spec_causes(),
    {
        match self {
            BulkInsertError::Parse(c) => c,
            BulkInsertError::Database(c) => c,
            BulkInsertError::Unexpected(c) => c,
        }
    }

    /// The error followed by its cause chain, as the debug output shows it.
    pub fn report(&self) -> (r: String)
        ensures
            r@ == chain_report(self.spec_message(), texts(self.spec_causes())),
    {
        error_chain_fmt(self.message(), self.causes())
    }
}

/// Failures of building a client from the user's session.
pub enum ClientError {
    /// No user is logged in.
    MissingUserSession,
    /// Something else failed; holds the cause chain, whose first message is
    /// also this error's own message.
    UnexpectedError(Vec<String>),
}

impl ClientError {
    pub open spec fn spec_message(&self) -> Seq<char> {
        match self {
            ClientError::MissingUserSession => "Missing User Session"@,
            ClientError::UnexpectedError(c) => if c@.len() > 0 {
                c@[0]@
            } else {
                Seq::empty()
            },
        }
    }

    /// The error's own message; an unexpected error shows the message of the
    /// error that it wraps.
    pub fn message(&self) -> (r: String)
        ensures
            r@ == self.spec_message(),
    {
        match self {
            ClientError::MissingUserSession => String::from_str("Missing User Session"),
            ClientError::UnexpectedError(c) => if c.len() > 0 {
                c[0].clone()
            } else {
                String::new()
            },
        }
    }
}

} // verus!

use vstd::prelude::*;
use pq_sys::ExecStatusType;

verus! {

/// libpq's result status `ExecStatusType`, a fieldless enum whose variants
/// verified code matches on.
#[verifier::external_type_specification]
pub struct ExExecStatusType(pq_sys::ExecStatusType);

/// The outcome of a command, as libpq classifies it.
#[derive(Copy, Clone, Debug, PartialEq, Eq, Structural)]
pub enum Status {
    /// The server's response was not understood.
    BadResponse,
    /// Successful completion of a command returning no data.
    CommandOk,
    /// Copy In/Out (to and from server) data transfer started. This feature is currently used only
    /// for streaming replication, so this status should not occur in ordinary applications.
    CopyBoth,
    /// Copy In (to server) data transfer started.
    CopyIn,
    /// Copy Out (from server) data transfer started.
    CopyOut,
    /// The string sent to the server was empty.
    EmptyQuery,
    /// A fatal error occurred.
    FatalError,
    /// A nonfatal error (a notice or warning) occurred.
    NonFatalError,
    /// The result contains a single result tuple from the current command. This status
    /// occurs only when single-row mode has been selected for the query.
    SingleTuble,
    /// Successful completion of a command returning data (such as a `SELECT` or `SHOW`).
    TupplesOk,
}

/// The libpq code that stands for a status.
pub open spec fn wire_code(s: Status) -> ExecStatusType {
    match s {
        Status::BadResponse => ExecStatusType::PGRES_BAD_RESPONSE,
        Status::CommandOk => ExecStatusType::PGRES_COMMAND_OK,
        Status::CopyBoth => ExecStatusType::PGRES_COPY_BOTH,
        Status::CopyIn => ExecStatusType::PGRES_COPY_IN,
        Status::CopyOut => ExecStatusType::PGRES_COPY_OUT,
        Status::EmptyQuery => ExecStatusType::PGRES_EMPTY_QUERY,
        Status::FatalError => ExecStatusType::PGRES_FATAL_ERROR,
        Status::NonFatalError => ExecStatusType::PGRES_NONFATAL_ERROR,
        Status::SingleTuble => ExecStatusType::PGRES_SINGLE_TUPLE,
        Status::TupplesOk => ExecStatusType::PGRES_TUPLES_OK,
    }
}

/// The status that a libpq code stands for; `None` for the codes that have
/// no status here (pipeline synchronisation and abort, chunked tuples).
pub open spec fn status_of(c: ExecStatusType) -> Option<Status> {
    match c {
        ExecStatusType::PGRES_BAD_RESPONSE => Some(Status::BadResponse),
        ExecStatusType::PGRES_COMMAND_OK => Some(Status::CommandOk),
        ExecStatusType::PGRES_COPY_BOTH => Some(Status::CopyBoth),
        ExecStatusType::PGRES_COPY_IN => Some(Status::CopyIn),
        ExecStatusType::PGRES_COPY_OUT => Some(Status::CopyOut),
        ExecStatusType::PGRES_EMPTY_QUERY => Some(Status::EmptyQuery),
        ExecStatusType::PGRES_FATAL_ERROR => Some(Status::FatalError),
        ExecStatusType::PGRES_NONFATAL_ERROR => Some(Status::NonFatalError),
        ExecStatusType::PGRES_SINGLE_TUPLE => Some(Status::SingleTuble),
        ExecStatusType::PGRES_TUPLES_OK => Some(Status::TupplesOk),
        _ => None,
    }
}

/// A code that stands for one of the ten statuses.
pub open spec fn is_status_code(c: ExecStatusType) -> bool {
    status_of(c) is Some
}

impl Status {
    /// The status for a libpq code. Codes outside the ten statuses are a
    /// broken assumption about libpq, and callers must rule them out.
    pub fn from_wire_code(code: ExecStatusType) -> (r: Status)
        requires
            is_status_code(code),
        ensures
            status_of(code) == Some(r),
            wire_code(r) == code,
    {
        Status::try_from_wire_code(code).unwrap()
    }

    /// The status for a libpq code, or `None` where the code is none of the
    /// ten statuses.
    pub fn try_from_wire_code(code: ExecStatusType) -> (r: Option<Status>)
        ensures
            r == status_of(code),
    {
        match code {
            ExecStatusType::PGRES_BAD_RESPONSE => Some(Status::BadResponse),
            ExecStatusType::PGRES_COMMAND_OK => Some(Status::CommandOk),
            ExecStatusType::PGRES_COPY_BOTH => Some(Status::CopyBoth),
            ExecStatusType::PGRES_COPY_IN => Some(Status::CopyIn),
            ExecStatusType::PGRES_COPY_OUT => Some(Status::CopyOut),
            ExecStatusType::PGRES_EMPTY_QUERY => Some(Status::EmptyQuery),
            ExecStatusType::PGRES_FATAL_ERROR => Some(Status::FatalError),
            ExecStatusType::PGRES_NONFATAL_ERROR => Some(Status::NonFatalError),
            ExecStatusType::PGRES_SINGLE_TUPLE => Some(Status::SingleTuble),
            ExecStatusType::PGRES_TUPLES_OK => Some(Status::TupplesOk),
            ExecStatusType::PGRES_PIPELINE_SYNC => None,
            ExecStatusType::PGRES_PIPELINE_ABORTED => None,
            ExecStatusType::PGRES_TUPLES_CHUNK => None,
        }
    }

    /// The libpq code for this status.
    pub fn to_wire_code(&self) -> (r: ExecStatusType)
        ensures
            r == wire_code(*self),
            status_of(r) == Some(*self),
    {
        match *self {
            Status::BadResponse => ExecStatusType::PGRES_BAD_RESPONSE,
            Status::CommandOk => ExecStatusType::PGRES_COMMAND_OK,
            Status::CopyBoth => ExecStatusType::PGRES_COPY_BOTH,
            Status::CopyIn => ExecStatusType::PGRES_COPY_IN,
            Status::CopyOut => ExecStatusType::PGRES_COPY_OUT,
            Status::EmptyQuery => ExecStatusType::PGRES_EMPTY_QUERY,
            Status::FatalError => ExecStatusType::PGRES_FATAL_ERROR,
            Status::NonFatalError => ExecStatusType::PGRES_NONFATAL_ERROR,
            Status::SingleTuble => ExecStatusType::PGRES_SINGLE_TUPLE,
            Status::TupplesOk => ExecStatusType::PGRES_TUPLES_OK,
        }
    }
}

impl From<&Status> for ExecStatusType {
    fn from(s: &Status) -> (r: ExecStatusType)
        ensures
            r == wire_code(*s),
    {
        s.to_wire_code()
    }
}

impl vstd::std_specs::convert::FromSpecImpl<&Status> for ExecStatusType {
    open spec fn obeys_from_spec() -> bool {
        true
    }

    open spec fn from_spec(s: &Status) -> ExecStatusType {
        wire_code(*s)
    }
}

impl From<Status> for ExecStatusType {
    fn from(s: Status) -> (r: ExecStatusType)
        ensures
            r == wire_code(s),
    {
        (&s).into()
    }
}

impl vstd::std_specs::convert::FromSpecImpl<Status> for ExecStatusType {
    open spec fn obeys_from_spec() -> bool {
        true
    }

    open spec fn from_spec(s: Status) -> ExecStatusType {
        wire_code(s)
    }
}

/// Reading back the code of a status gives that status.
pub proof fn lemma_status_round_trip(s: Status)
    ensures
        status_of(wire_code(s)) == Some(s),
{
}

/// Each of the ten codes is the code of the status it is read as.
pub proof fn lemma_code_round_trip(c: ExecStatusType)
    requires
        is_status_code(c),
    ensures
        wire_code(status_of(c)->Some_0) == c,
{
}

/// A status has one code, whether it is converted from the value or from a
/// reference to it.
pub proof fn lemma_value_and_reference_agree(s: Status)
    ensures
        <ExecStatusType as vstd::std_specs::convert::FromSpec<Status>>::from_spec(s)
            == <ExecStatusType as vstd::std_specs::convert::FromSpec<&Status>>::from_spec(&s),
{
}

} // verus!

use libpq::Status;
use pq_sys::ExecStatusType;

const ALL: [Status; 10] = [
    Status::BadResponse,
    Status::CommandOk,
    Status::CopyBoth,
    Status::CopyIn,
    Status::CopyOut,
    Status::EmptyQuery,
    Status::FatalError,
    Status::NonFatalError,
    Status::SingleTuble,
    Status::TupplesOk,
];

const CODES: [ExecStatusType; 10] = [
    ExecStatusType::PGRES_EMPTY_QUERY,
    ExecStatusType::PGRES_COMMAND_OK,
    ExecStatusType::PGRES_TUPLES_OK,
    ExecStatusType::PGRES_COPY_OUT,
    ExecStatusType::PGRES_COPY_IN,
    ExecStatusType::PGRES_BAD_RESPONSE,
    ExecStatusType::PGRES_NONFATAL_ERROR,
    ExecStatusType::PGRES_FATAL_ERROR,
    ExecStatusType::PGRES_COPY_BOTH,
    ExecStatusType::PGRES_SINGLE_TUPLE,
];

#[test]
fn status_round_trips_through_its_code() {
    for s in ALL {
        assert_eq!(Status::from_wire_code(s.to_wire_code()), s);
        let c: ExecStatusType = s.into();
        assert_eq!(Status::from_wire_code(c), s);
    }
}

#[test]
fn code_round_trips_through_its_status() {
    for c in CODES {
        assert_eq!(Status::from_wire_code(c).to_wire_code(), c);
    }
}

#[test]
fn value_and_reference_give_one_code() {
    for s in ALL {
        let by_value: ExecStatusType = s.into();
        let by_ref: ExecStatusType = (&s).into();
        assert_eq!(by_value, by_ref);
        assert_eq!(by_ref, s.to_wire_code());
    }
}

#[test]
fn codes_are_distinct() {
    for (i, a) in ALL.iter().enumerate() {
        for (j, b) in ALL.iter().enumerate() {
            assert_eq!(i == j, a.to_wire_code() == b.to_wire_code());
        }
    }
}

#[test]
fn command_ok_code_reads_as_command_ok() {
    assert_eq!(Status::from_wire_code(ExecStatusType::PGRES_COMMAND_OK), Status::CommandOk);
    assert_eq!(Status::try_from_wire_code(ExecStatusType::PGRES_COMMAND_OK), Some(Status::CommandOk));
}

#[test]
fn fatal_error_code() {
    let c: ExecStatusType = Status::FatalError.into();
    assert_eq!(c, ExecStatusType::PGRES_FATAL_ERROR);
    assert_eq!(c as u32, 7);
    assert_eq!(Status::from_wire_code(c), Status::FatalError);
}

#[test]
fn numeric_codes() {
    assert_eq!(Status::EmptyQuery.to_wire_code() as u32, 0);
    assert_eq!(Status::CommandOk.to_wire_code() as u32, 1);
    assert_eq!(Status::TupplesOk.to_wire_code() as u32, 2);
    assert_eq!(Status::CopyOut.to_wire_code() as u32, 3);
    assert_eq!(Status::CopyIn.to_wire_code() as u32, 4);
    assert_eq!(Status::BadResponse.to_wire_code() as u32, 5);
    assert_eq!(Status::NonFatalError.to_wire_code() as u32, 6);
    assert_eq!(Status::CopyBoth.to_wire_code() as u32, 8);
    assert_eq!(Status::SingleTuble.to_wire_code() as u32, 9);
}

#[test]
fn unknown_codes_give_no_status() {
    assert_eq!(Status::try_from_wire_code(ExecStatusType::PGRES_PIPELINE_SYNC), None);
    assert_eq!(Status::try_from_wire_code(ExecStatusType::PGRES_PIPELINE_ABORTED), None);
    assert_eq!(Status::try_from_wire_code(ExecStatusType::PGRES_TUPLES_CHUNK), None);
}

#[test]
fn known_codes_give_a_status() {
    for c in CODES {
        assert_eq!(Status::try_from_wire_code(c), Some(Status::from_wire_code(c)));
    }
}

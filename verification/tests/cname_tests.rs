use c_ares::cname::{query_cname_callback, CNameResult};
use c_ares::error::{
    AresError, ARES_EBADRESP, ARES_ECANCELLED, ARES_EFORMERR, ARES_ENODATA, ARES_ENOMEM,
    ARES_SUCCESS,
};
use c_ares::hostent::Hostent;

fn canonical(name: &str) -> Hostent {
    Hostent::new(name.to_string(), vec![None], libc::AF_INET, 4, vec![None])
        .expect("a well-formed host structure")
}

#[test]
fn parse_from_gives_the_canonical_name() {
    let reply = [0x12u8, 0x34, 0x81, 0x80];
    let mut handed = Vec::new();
    let result = CNameResult::parse_from(&reply, |data: &[u8]| {
        handed = data.to_vec();
        (ARES_SUCCESS, Some(canonical("canonical.example.com")))
    });
    assert_eq!(handed, reply);
    assert_eq!(result.expect("a successful parse").cname(), "canonical.example.com");
}

#[test]
fn parse_from_calls_the_parser_once() {
    let mut calls = 0;
    let _ = CNameResult::parse_from(&[1, 2, 3], |_data: &[u8]| {
        calls += 1;
        (ARES_EBADRESP, None)
    });
    assert_eq!(calls, 1);
}

#[test]
fn parse_from_a_bad_response_is_a_bad_response_error() {
    let result = CNameResult::parse_from(&[0xff; 7], |_data: &[u8]| (ARES_EBADRESP, None));
    assert_eq!(result.err(), Some(AresError::EBADRESP));
}

#[test]
fn parse_from_an_empty_response_is_a_bad_response_error() {
    let mut handed = None;
    let empty = CNameResult::parse_from(&[], |data: &[u8]| {
        handed = Some(data.len());
        (ARES_EFORMERR, None)
    });
    assert_eq!(handed, Some(0));
    assert_eq!(empty.err(), Some(AresError::EBADRESP));
}

#[test]
fn parse_from_a_response_without_an_answer_is_a_bad_response_error() {
    let header_only = [0x12, 0x34, 0x81, 0x80, 0, 1, 0, 0, 0, 0, 0, 0];
    let result = CNameResult::parse_from(&header_only, |_data: &[u8]| (ARES_ENODATA, None));
    assert_eq!(result.err(), Some(AresError::EBADRESP));
}

#[test]
fn parse_from_a_failed_parse_gives_no_result() {
    let result = CNameResult::parse_from(&[0; 12], |_data: &[u8]| {
        (ARES_EBADRESP, Some(canonical("left.over")))
    });
    assert_eq!(result.err(), Some(AresError::EBADRESP));
    let other = CNameResult::parse_from(&[0; 12], |_data: &[u8]| {
        (ARES_EFORMERR, Some(canonical("left.over")))
    });
    assert_eq!(other.err(), Some(AresError::EBADRESP));
}

#[test]
fn parse_from_gives_bad_response_for_every_failing_status() {
    let mut statuses: Vec<i32> = (1..=30).collect();
    statuses.extend([-1, 255, 4711, i32::MIN, i32::MAX]);
    for status in statuses {
        let result = CNameResult::parse_from(&[0; 12], |_data: &[u8]| (status, None));
        assert_eq!(result.err(), Some(AresError::EBADRESP), "status {}", status);
    }
}

#[test]
fn parse_from_a_parse_that_ran_out_of_memory_is_a_bad_response_error() {
    let no_memory = CNameResult::parse_from(&[0; 12], |_data: &[u8]| (ARES_ENOMEM, None));
    assert_eq!(no_memory.err(), Some(AresError::EBADRESP));
}

#[test]
fn parse_from_success_without_a_structure_is_a_bad_response() {
    let result = CNameResult::parse_from(&[0; 12], |_data: &[u8]| (ARES_SUCCESS, None));
    assert_eq!(result.err(), Some(AresError::EBADRESP));
}

#[test]
fn from_parsed_follows_the_status() {
    let ok = CNameResult::from_parsed((ARES_SUCCESS, Some(canonical("a.example"))));
    assert_eq!(ok.unwrap().cname(), "a.example");
    let failed = CNameResult::from_parsed((ARES_EBADRESP, None));
    assert_eq!(failed.err(), Some(AresError::EBADRESP));
    let malformed = CNameResult::from_parsed((ARES_EFORMERR, None));
    assert_eq!(malformed.err(), Some(AresError::EBADRESP));
    let no_data = CNameResult::from_parsed((ARES_ENODATA, Some(canonical("a.example"))));
    assert_eq!(no_data.err(), Some(AresError::EBADRESP));
    let nothing = CNameResult::from_parsed((ARES_SUCCESS, None));
    assert_eq!(nothing.err(), Some(AresError::EBADRESP));
}

#[test]
fn cname_callback_on_failure_does_not_parse() {
    let mut parses = 0;
    let mut calls = 0;
    let mut seen = None;
    query_cname_callback(
        |result: Result<CNameResult, AresError>| {
            calls += 1;
            seen = result.err();
        },
        12,
        2,
        &[],
        |_data: &[u8]| {
            parses += 1;
            (ARES_SUCCESS, Some(canonical("never.looked.at")))
        },
    );
    assert_eq!(parses, 0);
    assert_eq!(calls, 1);
    assert_eq!(seen, Some(AresError::ETIMEOUT));
}

#[test]
fn cname_callback_on_success_parses_once_and_calls_once() {
    let reply = [9u8, 8, 7, 6, 5];
    let mut parses = 0;
    let mut calls = 0;
    let mut seen = String::new();
    query_cname_callback(
        |result: Result<CNameResult, AresError>| {
            calls += 1;
            seen = result.expect("a successful lookup").cname().to_string();
        },
        ARES_SUCCESS,
        0,
        &reply,
        |data: &[u8]| {
            parses += 1;
            assert_eq!(data, reply);
            (ARES_SUCCESS, Some(canonical("target.example.org")))
        },
    );
    assert_eq!(parses, 1);
    assert_eq!(calls, 1);
    assert_eq!(seen, "target.example.org");
}

#[test]
fn cname_callback_hands_on_a_bad_response() {
    let mut calls = 0;
    let mut seen = None;
    query_cname_callback(
        |result: Result<CNameResult, AresError>| {
            calls += 1;
            seen = result.err();
        },
        ARES_SUCCESS,
        0,
        &[0xde, 0xad],
        |_data: &[u8]| (ARES_EBADRESP, None),
    );
    assert_eq!(calls, 1);
    assert_eq!(seen, Some(AresError::EBADRESP));
}

#[test]
fn cname_callback_gives_bad_response_for_every_failed_parse() {
    for parse_status in [ARES_ENODATA, ARES_EFORMERR, ARES_EBADRESP, ARES_ENOMEM, 99] {
        let mut calls = 0;
        let mut seen = None;
        query_cname_callback(
            |result: Result<CNameResult, AresError>| {
                calls += 1;
                seen = result.err();
            },
            ARES_SUCCESS,
            0,
            &[],
            |_data: &[u8]| (parse_status, None),
        );
        assert_eq!(calls, 1);
        assert_eq!(seen, Some(AresError::EBADRESP), "parse status {}", parse_status);
    }
}

#[test]
fn cname_callback_hands_on_a_cancellation() {
    let mut calls = 0;
    let mut seen = None;
    query_cname_callback(
        |result: Result<CNameResult, AresError>| {
            calls += 1;
            seen = result.err();
        },
        ARES_ECANCELLED,
        0,
        &[],
        |_data: &[u8]| (ARES_SUCCESS, None),
    );
    assert_eq!(calls, 1);
    assert_eq!(seen, Some(AresError::ECANCELLED));
}

//! The result of a lookup for a CNAME record.

use vstd::prelude::*;
use crate::error::{spec_ares_error, AresError, ARES_SUCCESS};
use crate::hostent::Hostent;
use crate::utils::ares_error;

verus! {

/// The result of a successful lookup for a CNAME record.
///
/// The result owns the host structure that the engine built from the
/// response, and gives it up when it is dropped.
#[derive(Debug)]
pub struct CNameResult {
    /// The underlying host structure, whose name is the canonical name.
    hostent: Hostent,
}

impl View for CNameResult {
    type V = Seq<char>;

    /// The canonical name.
    closed spec fn view(&self) -> Seq<char> {
        self.hostent@.name
    }
}

/// What the engine's parser made of a response: its status, and the host
/// structure that it built where there is one.
pub type ParsedReply = (i32, Option<Hostent>);

/// The result that a parsed response stands for.  Where the parser reports
/// success and built a host structure, it is the record over that structure.
/// Everything else is a failed parse, and a failed parse is a bad response,
/// whatever status the parser gave for it: the error is `EBADRESP`, and
/// there is no record.
pub open spec fn spec_cname_result(parsed: ParsedReply) -> Result<CNameResult, AresError> {
    if parsed.0 != ARES_SUCCESS {
        Err(AresError::EBADRESP)
    } else {
        match parsed.1 {
            Some(hostent) => Ok(CNameResult::over(hostent)),
            None => Err(AresError::EBADRESP),
        }
    }
}

/// Whether a response is short enough for its length to be handed to the
/// engine, which takes it as a 32-bit signed number.
pub open spec fn fits_engine(data: Seq<u8>) -> bool {
    data.len() <= i32::MAX
}

impl CNameResult {
    /// The record that owns `hostent`.
    pub closed spec fn over(hostent: Hostent) -> CNameResult {
        CNameResult { hostent }
    }

    /// The canonical name of a record is the name of the host structure that
    /// it owns.
    pub proof fn lemma_over(hostent: Hostent)
        ensures
            Self::over(hostent)@ == hostent@.name,
    {
    }

    /// Obtain a `CNameResult` from the response to a CNAME lookup.
    ///
    /// `parse_a_reply` is the engine's parser for address replies.  It is
    /// called once, with `data`, unless `data` is too long for the engine to
    /// take: such a response is a bad one, and the parser is not called.
    ///
    /// The only error is `EBADRESP`: it is the result for every response of
    /// which the parser does not make a host structure, whatever status the
    /// parser reports.
    pub fn parse_from<P>(data: &[u8], parse_a_reply: P) -> (result: Result<CNameResult, AresError>)
        where P: FnOnce(&[u8]) -> ParsedReply
        requires
            fits_engine(data@) ==> parse_a_reply.requires((data,)),
        ensures
            result matches Err(error) ==> error == AresError::EBADRESP,
            !fits_engine(data@) ==> result == Err::<CNameResult, AresError>(AresError::EBADRESP),
            fits_engine(data@) ==> exists|parsed: ParsedReply|
                {
                    &&& #[trigger] parse_a_reply.ensures((data,), parsed)
                    &&& result == spec_cname_result(parsed)
                    &&& result matches Ok(record) ==> parsed.1 matches Some(hostent) && record@
                        == hostent@.name
                },
    {
        if data.len() > i32::MAX as usize {
            return Err(AresError::EBADRESP);
        }
        let parsed = parse_a_reply(data);
        Self::from_parsed(parsed)
    }

    /// Makes the result of a CNAME lookup from what the engine's parser
    /// returned: the record where the parser succeeded and built a host
    /// structure, and the bad-response error in every other case.
    pub fn from_parsed(parsed: ParsedReply) -> (result: Result<CNameResult, AresError>)
        ensures
            result == spec_cname_result(parsed),
            parsed.0 != ARES_SUCCESS || parsed.1 is None ==> result == Err::<
                CNameResult,
                AresError,
            >(AresError::EBADRESP),
            result is Ok ==> parsed.0 == ARES_SUCCESS,
            result matches Ok(record) ==> parsed.1 matches Some(hostent) && record@
                == hostent@.name,
    {
        let (parse_status, hostent) = parsed;
        if parse_status != ARES_SUCCESS {
            Err(AresError::EBADRESP)
        } else {
            match hostent {
                Some(hostent) => Ok(CNameResult::new(hostent)),
                None => Err(AresError::EBADRESP),
            }
        }
    }

    /// The record of a host structure that the engine built.
    fn new(hostent: Hostent) -> (result: CNameResult)
        ensures
            result == Self::over(hostent),
            result@ == hostent@.name,
    {
        CNameResult { hostent }
    }

    /// The canonical name record.
    pub fn cname(&self) -> (cname: &str)
        ensures
            cname@ == self@,
    {
        self.hostent.h_name()
    }
}

/// What a CNAME lookup hands to its completion handler, where `parsed` is
/// what the engine's parser makes of the response: the error that the status
/// of the query stands for where that status is not success, and the result
/// of the parse where it is, which for a failed parse is the bad-response
/// error.
pub open spec fn spec_cname_completion(status: i32, parsed: ParsedReply) -> Result<
    CNameResult,
    AresError,
> {
    if status != ARES_SUCCESS {
        Err(spec_ares_error(status))
    } else {
        spec_cname_result(parsed)
    }
}

/// Completes a CNAME lookup: calls `handler`, once, with the outcome.
///
/// Where `status` is not success the outcome is the error that it stands
/// for, and the response is not parsed.  Where it is success the outcome is
/// what `CNameResult::parse_from` makes of `data`: the record, or the
/// bad-response error for a response that does not parse.
pub fn query_cname_callback<F, P>(
    handler: F,
    status: i32,
    _timeouts: i32,
    data: &[u8],
    parse_a_reply: P,
) where F: FnOnce(Result<CNameResult, AresError>), P: FnOnce(&[u8]) -> ParsedReply
    requires
        status == ARES_SUCCESS && fits_engine(data@) ==> parse_a_reply.requires((data,)),
        forall|result: Result<CNameResult, AresError>| handler.requires((result,)),
    ensures
        status != ARES_SUCCESS ==> handler.ensures(
            (Err::<CNameResult, AresError>(spec_ares_error(status)),),
            (),
        ),
        status == ARES_SUCCESS && !fits_engine(data@) ==> handler.ensures(
            (Err::<CNameResult, AresError>(AresError::EBADRESP),),
            (),
        ),
        status == ARES_SUCCESS && fits_engine(data@) ==> exists|parsed: ParsedReply| #[trigger]
            parse_a_reply.ensures((data,), parsed) && handler.ensures(
                (spec_cname_result(parsed),),
                (),
            ),
{
    let result = if status != ARES_SUCCESS {
        Err(ares_error(status))
    } else {
        CNameResult::parse_from(data, parse_a_reply)
    };
    handler(result);
}

/// A response that the engine's parser does not take for a valid one gives
/// the bad-response error and no result, whatever the status with which the
/// parser reports its failure, and whether or not it left a structure
/// behind.  A query that succeeded with such a response hands that error to
/// its handler.
pub proof fn lemma_invalid_response(parsed: ParsedReply)
    requires
        parsed.0 != ARES_SUCCESS,
    ensures
        spec_cname_result(parsed) == Err::<CNameResult, AresError>(AresError::EBADRESP),
        spec_cname_completion(ARES_SUCCESS, parsed) == Err::<CNameResult, AresError>(
            AresError::EBADRESP,
        ),
{
}

/// The parse of a response has one error only: whatever the parser returns,
/// the result is a record or the bad-response error.
pub proof fn lemma_parse_error_is_bad_response(parsed: ParsedReply)
    ensures
        spec_cname_result(parsed) matches Err(error) ==> error == AresError::EBADRESP,
        spec_cname_result(parsed) is Ok <==> parsed.0 == ARES_SUCCESS && parsed.1 is Some,
{
}

} // verus!

//! Validation decisions of the direct-message service.
//!
//! Sending a draft and creating one are transactions around a database;
//! the decisions they make — which inputs are rejected, and exactly when
//! — are pure and stand here with exact contracts. The surrounding
//! storage reads and writes hand these functions plain values and act on
//! their verdicts.

use vstd::prelude::*;
use vstd::string::StringSliceAdditionalSpecFns;

verus! {

/// The error a service decision can reject a request with.
#[derive(Debug, Clone, Copy, PartialEq, Eq, Structural)]
pub enum ServiceError {
    /// The request's inputs are unacceptable as given.
    BadRequest,
}

/// The recipient lists carried by a message draft.
#[derive(Debug, PartialEq)]
pub struct DraftRecipients {
    pub recipients: Vec<i64>,
    pub carbon_copy: Vec<i64>,
    pub blind_carbon_copy: Vec<i64>,
}

/// Message sending and drafting decisions.
#[derive(Debug)]
pub struct MessageService;

impl MessageService {
    /// The validation checks of sending a draft: rejected exactly when
    /// the subject is empty or longer than the subject budget, or the
    /// wikitext body is empty or longer than the body budget (both
    /// measured in bytes). Every rejection is a bad request.
    pub fn validate_send(
        subject: &str,
        wikitext: &str,
        maximum_message_subject_bytes: usize,
        maximum_message_body_bytes: usize,
    ) -> (r: Result<(), ServiceError>)
        ensures
            r is Ok <==> {
                &&& subject.spec_bytes().len() > 0
                &&& subject.spec_bytes().len() <= maximum_message_subject_bytes
                &&& wikitext.spec_bytes().len() > 0
                &&& wikitext.spec_bytes().len() <= maximum_message_body_bytes
            },
            r is Err ==> r == Result::<(), ServiceError>::Err(ServiceError::BadRequest),
    {
        let subject_bytes = subject.as_bytes().len();
        let wikitext_bytes = wikitext.as_bytes().len();
        if subject_bytes == 0 {
            return Result::Err(ServiceError::BadRequest);
        }
        if subject_bytes > maximum_message_subject_bytes {
            return Result::Err(ServiceError::BadRequest);
        }
        if wikitext_bytes == 0 {
            return Result::Err(ServiceError::BadRequest);
        }
        if wikitext_bytes > maximum_message_body_bytes {
            return Result::Err(ServiceError::BadRequest);
        }
        Result::Ok(())
    }

    /// The foreign-key checks of creating a draft: a reply-to or
    /// forwarded-from reference may be absent, but one that is given
    /// must name an existing message record (existence as the storage
    /// layer reports it). Rejected, as a bad request, exactly when a
    /// given reference does not exist.
    pub fn validate_draft_references(
        reply_to: &Option<String>,
        reply_to_exists: bool,
        forwarded_from: &Option<String>,
        forwarded_from_exists: bool,
    ) -> (r: Result<(), ServiceError>)
        ensures
            r is Ok <==> {
                &&& (reply_to is Some ==> reply_to_exists)
                &&& (forwarded_from is Some ==> forwarded_from_exists)
            },
            r is Err ==> r == Result::<(), ServiceError>::Err(ServiceError::BadRequest),
    {
        if matches!(reply_to, Option::Some(_)) && !reply_to_exists {
            return Result::Err(ServiceError::BadRequest);
        }
        if matches!(forwarded_from, Option::Some(_)) && !forwarded_from_exists {
            return Result::Err(ServiceError::BadRequest);
        }
        Result::Ok(())
    }
}

} // verus!

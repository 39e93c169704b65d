use vstd::prelude::*;
use crate::lookup::LookupError;
use crate::store::StoreModel;
use crate::store::first_match;
use crate::store::lemma_absent_identifier_not_found;
use crate::store::lemma_single_record_token;
use crate::store::records_for;

verus! {

/// The status and body a request handler answers with. Presence of a
/// record is the only thing a caller can tell apart: a failed query and
/// an absent record both map to the not-found reply, so store internals
/// never leak.
pub struct HttpReply {
    pub status: u16,
    pub body: String,
}

/// The reply owed for a resolution outcome: the token itself with a
/// success status when found, otherwise the fixed not-found reply —
/// for an absent record and for a failed query alike.
pub fn account_reply(outcome: Result<String, LookupError>) -> (r: HttpReply)
    ensures
        outcome matches Ok(token) ==> r.status == 200 && r.body@ == token@,
        outcome is Err ==> r.status == 404 && r.body@ == "Account not found"@,
{
    match outcome {
        Ok(token) => HttpReply { status: 200, body: token },
        Err(_) => HttpReply { status: 404, body: "Account not found".to_owned() },
    }
}

/// The liveness reply: always a success status with the fixed body,
/// independent of any store — no store access is performed.
pub fn health_reply() -> (r: HttpReply)
    ensures
        r.status == 200,
        r.body@ == "OK"@,
{
    HttpReply { status: 200, body: "OK".to_owned() }
}

/// One account request, end to end against a store: resolve the
/// identifier, then map the outcome to the caller-facing reply. An
/// identifier with no record gets the fixed not-found reply; one with
/// exactly one record gets that record's token, untransformed.
pub fn serve_account(store: &StoreModel, account_id: &str) -> (r: HttpReply)
    ensures
        match first_match(store@, account_id@) {
            Some(t) => r.status == 200 && r.body@ == t,
            None => r.status == 404 && r.body@ == "Account not found"@,
        },
        records_for(store@, account_id@).len() == 0 ==> r.status == 404 && r.body@
            == "Account not found"@,
        records_for(store@, account_id@).len() == 1 ==> r.status == 200 && r.body@
            == records_for(store@, account_id@)[0].token@,
{
    let outcome = store.resolve(account_id);
    proof {
        if records_for(store@, account_id@).len() == 0 {
            lemma_absent_identifier_not_found(store@, account_id@, outcome);
        }
        if records_for(store@, account_id@).len() == 1 {
            lemma_single_record_token(store@, account_id@, outcome);
        }
    }
    account_reply(outcome)
}

} // verus!

use vstd::prelude::*;
use crate::lookup::LookupError;

verus! {

/// One stored association: an account identifier and the signed token
/// currently issued for it.
pub struct CredentialRecord {
    pub account_id: String,
    pub token: String,
}

/// An explicitly constructed, injectable store of credential records,
/// kept in insertion order. Handlers receive a store value as a
/// parameter — never an implicit global — so the lookup logic runs
/// against a scoped store in tests exactly as against the live one.
pub struct StoreModel {
    records: Vec<CredentialRecord>,
}

impl View for StoreModel {
    type V = Seq<CredentialRecord>;

    closed spec fn view(&self) -> Seq<CredentialRecord> {
        self.records@
    }
}

/// The token of the first record for `id`, in store order, if any: a
/// lookup reads at most the first matching row and ignores the rest.
pub open spec fn first_match(records: Seq<CredentialRecord>, id: Seq<char>) -> Option<Seq<char>>
    decreases records.len(),
{
    if records.len() == 0 {
        None
    } else if records[0].account_id@ == id {
        Some(records[0].token@)
    } else {
        first_match(records.skip(1), id)
    }
}

/// The records held for `id` alone, in store order.
pub open spec fn records_for(records: Seq<CredentialRecord>, id: Seq<char>) -> Seq<CredentialRecord>
    decreases records.len(),
{
    if records.len() == 0 {
        Seq::empty()
    } else if records[0].account_id@ == id {
        seq![records[0]] + records_for(records.skip(1), id)
    } else {
        records_for(records.skip(1), id)
    }
}

/// The records left once every record for `id` is removed, order kept.
pub open spec fn records_without(records: Seq<CredentialRecord>, id: Seq<char>) -> Seq<CredentialRecord>
    decreases records.len(),
{
    if records.len() == 0 {
        Seq::empty()
    } else if records[0].account_id@ == id {
        records_without(records.skip(1), id)
    } else {
        seq![records[0]] + records_without(records.skip(1), id)
    }
}

/// `r` is the outcome resolution owes for `id` against `records`: the
/// first matching record's token, or `NotFound` when none matches.
pub open spec fn resolution_of(
    records: Seq<CredentialRecord>,
    id: Seq<char>,
    r: Result<String, LookupError>,
) -> bool {
    match first_match(records, id) {
        Some(t) => r matches Ok(token) && token@ == t,
        None => r matches Err(LookupError::NotFound),
    }
}

proof fn lemma_first_match_characterized(records: Seq<CredentialRecord>, id: Seq<char>)
    ensures
        records_for(records, id).len() == 0 ==> first_match(records, id) is None,
        records_for(records, id).len() > 0 ==> first_match(records, id) == Some(
            records_for(records, id)[0].token@,
        ),
    decreases records.len(),
{
    if records.len() > 0 {
        lemma_first_match_characterized(records.skip(1), id);
        if records[0].account_id@ == id {
            assert((seq![records[0]] + records_for(records.skip(1), id))[0] == records[0]);
        }
    }
}

/// An identifier with no record in the store resolves to `NotFound`.
pub proof fn lemma_absent_identifier_not_found(
    records: Seq<CredentialRecord>,
    id: Seq<char>,
    r: Result<String, LookupError>,
)
    requires
        resolution_of(records, id, r),
        records_for(records, id).len() == 0,
    ensures
        r matches Err(LookupError::NotFound),
{
    lemma_first_match_characterized(records, id);
}

/// An identifier with exactly one record in the store resolves to that
/// record's token, returned without transformation.
pub proof fn lemma_single_record_token(
    records: Seq<CredentialRecord>,
    id: Seq<char>,
    r: Result<String, LookupError>,
)
    requires
        resolution_of(records, id, r),
        records_for(records, id).len() == 1,
    ensures
        r matches Ok(token) && token@ == records_for(records, id)[0].token@,
{
    lemma_first_match_characterized(records, id);
}

/// Resolving the same identifier against an unchanged store yields the
/// same outcome every time: the same token, or `NotFound` both times.
pub proof fn lemma_resolution_idempotent(
    records: Seq<CredentialRecord>,
    id: Seq<char>,
    r1: Result<String, LookupError>,
    r2: Result<String, LookupError>,
)
    requires
        resolution_of(records, id, r1),
        resolution_of(records, id, r2),
    ensures
        r1 is Ok <==> r2 is Ok,
        r1 matches Ok(t1) ==> (r2 matches Ok(t2) ==> t1@ == t2@),
        r1 is Err ==> r1 == r2,
{
}

/// What an identifier resolves to is fixed by its own records alone:
/// records held for other identifiers neither contribute a token nor
/// change the outcome, so resolutions running against one shared store
/// cannot interfere with one another.
pub proof fn lemma_resolution_independent(records: Seq<CredentialRecord>, id: Seq<char>)
    ensures
        first_match(records, id) == first_match(records_for(records, id), id),
    decreases records.len(),
{
    if records.len() > 0 {
        lemma_resolution_independent(records.skip(1), id);
        if records[0].account_id@ == id {
            let own = seq![records[0]] + records_for(records.skip(1), id);
            assert(own[0] == records[0]);
            assert(own.skip(1) =~= records_for(records.skip(1), id));
        }
    }
}

impl StoreModel {
    /// An empty store.
    pub fn new() -> (s: Self)
        ensures
            s@ == Seq::<CredentialRecord>::empty(),
    {
        StoreModel { records: Vec::new() }
    }

    /// Appends one credential record. The live write path is an external
    /// issuance process; this supports scoped stores in tests.
    pub fn insert(&mut self, account_id: String, token: String)
        ensures
            final(self)@ == old(self)@.push((CredentialRecord { account_id, token })),
    {
        self.records.push(CredentialRecord { account_id, token });
    }

    /// Removes every record held for `account_id`, keeping the rest in
    /// store order.
    pub fn delete(&mut self, account_id: &str)
        ensures
            final(self)@ == records_without(old(self)@, account_id@),
    {
        let key: String = account_id.to_owned();
        let mut kept: Vec<CredentialRecord> = Vec::new();
        let mut i: usize = 0;
        proof {
            assert(self.records@.skip(0) =~= self.records@);
        }
        while i < self.records.len()
            invariant
                i <= self.records@.len(),
                key@ == account_id@,
                kept@ + records_without(self.records@.skip(i as int), account_id@)
                    == records_without(self.records@, account_id@),
            decreases self.records@.len() - i,
        {
            proof {
                assert(self.records@.skip(i as int).skip(1) =~= self.records@.skip(i as int + 1));
                assert(self.records@.skip(i as int)[0] == self.records@[i as int]);
            }
            let keep_it = !(self.records[i].account_id == key);
            if keep_it {
                let rec = CredentialRecord {
                    account_id: self.records[i].account_id.clone(),
                    token: self.records[i].token.clone(),
                };
                proof {
                    assert(rec == self.records@[i as int]);
                    assert(kept@.push(rec)
                        + records_without(self.records@.skip(i as int + 1), account_id@)
                        =~= kept@
                        + records_without(self.records@.skip(i as int), account_id@));
                }
                kept.push(rec);
            }
            i = i + 1;
        }
        proof {
            assert(self.records@.skip(i as int).len() == 0);
            assert(kept@ + records_without(self.records@.skip(i as int), account_id@) =~= kept@);
        }
        self.records = kept;
    }

    /// Resolves `account_id` against this store: the token of the first
    /// matching record, or `NotFound` when no record matches. The store
    /// model is always reachable, so no query failure arises here.
    pub fn resolve(&self, account_id: &str) -> (r: Result<String, LookupError>)
        ensures
            resolution_of(self@, account_id@, r),
    {
        let key: String = account_id.to_owned();
        let mut i: usize = 0;
        proof {
            assert(self@.skip(0) =~= self@);
        }
        while i < self.records.len()
            invariant
                i <= self.records@.len(),
                key@ == account_id@,
                first_match(self@, account_id@) == first_match(self@.skip(i as int), account_id@),
            decreases self.records@.len() - i,
        {
            proof {
                assert(self@.skip(i as int)[0] == self@[i as int]);
            }
            let rec = &self.records[i];
            if rec.account_id == key {
                return Ok(rec.token.clone());
            }
            proof {
                assert(self@.skip(i as int).skip(1) =~= self@.skip(i as int + 1));
            }
            i = i + 1;
        }
        proof {
            assert(self@.skip(i as int).len() == 0);
        }
        Err(LookupError::NotFound)
    }
}

} // verus!

//! The auth side: the remote account response, its validation, and the
//! transactional key-value auth store updater. The upsert derives up to
//! four key/value pairs and applies them all-or-nothing: an interrupted
//! transaction leaves the store exactly as it was.

use vstd::prelude::*;

use crate::config::IdentityConfig;
use crate::jsontext::{
    entries_distinct, entries_map, json_obj, json_str_of, upsert_entry, view_entries,
};
use crate::textops::{contains_seq, contains_sub};

verus! {

/// The default usage limit reported for an account record that does not
/// carry one.
pub fn default_usage_limit() -> (r: String)
    ensures
        r@ == "unlimited"@,
{
    "unlimited".to_owned()
}

/// One account record fetched from the remote credential service.
#[derive(Debug)]
pub struct AccountData {
    pub email: String,
    pub password: String,
    pub token: String,
    pub user: String,
    pub usage_limit: String,
}

impl AccountData {
    /// A record is usable when it carries an email and a token.
    pub fn validate(&self) -> (r: Result<(), String>)
        ensures
            r is Ok <==> (self.email@.len() > 0 && self.token@.len() > 0),
            (r is Err && self.email@.len() == 0) ==> r->Err_0@
                == "authConfig.errors.missingEmail"@,
            (r is Err && self.email@.len() > 0) ==> r->Err_0@ == "authConfig.errors.missingToken"@,
    {
        if self.email.as_str().is_empty() {
            return Err("authConfig.errors.missingEmail".to_owned());
        }
        if self.token.as_str().is_empty() {
            return Err("authConfig.errors.missingToken".to_owned());
        }
        Ok(())
    }
}

/// The remote service's response envelope.
#[derive(Debug)]
pub struct ApiResponse {
    pub success: bool,
    pub data: AccountData,
    pub message: String,
}

impl ApiResponse {
    /// Classifies the response: an unsuccessful response whose message
    /// speaks of no accounts being available is the no-accounts error;
    /// any other unsuccessful response is a generic API error carrying
    /// the message; a successful response is checked for a usable record.
    pub fn validate(&self) -> (r: Result<(), String>)
        ensures
            r is Ok <==> (self.success && self.data.email@.len() > 0 && self.data.token@.len()
                > 0),
            (!self.success && contains_seq(self.message@, "No accounts available"@)) ==> (r is Err
                && r->Err_0@ == "authConfig.errors.noAccounts"@),
            (!self.success && !contains_seq(self.message@, "No accounts available"@)) ==> (r is Err
                && r->Err_0@ == "authConfig.errors.apiError: "@ + self.message@),
            (self.success && self.data.email@.len() == 0) ==> (r is Err && r->Err_0@
                == "authConfig.errors.missingEmail"@),
            (self.success && self.data.email@.len() > 0 && self.data.token@.len() == 0) ==> (
            r is Err && r->Err_0@ == "authConfig.errors.missingToken"@),
    {
        if !self.success {
            if contains_sub(self.message.as_str(), "No accounts available") {
                return Err("authConfig.errors.noAccounts".to_owned());
            }
            let mut msg = "authConfig.errors.apiError: ".to_owned();
            msg.append(self.message.as_str());
            return Err(msg);
        }
        self.data.validate()
    }
}

/// Whether a response body has the shape the client accepts: a JSON object
/// with a boolean `success`, a string `message`, and a `data` object
/// carrying string `email` and `token`, whose optional `password`, `user`
/// and `usage_limit` fields, when present, are strings.
pub open spec fn spec_response_ok(body: Seq<char>) -> bool {
    &&& json_obj(body) is Some
    &&& {
        let m = json_obj(body)->0;
        &&& m.contains_key("success"@)
        &&& (m["success"@] == "true"@ || m["success"@] == "false"@)
        &&& m.contains_key("message"@)
        &&& json_str_of(m["message"@]) is Some
        &&& m.contains_key("data"@)
        &&& json_obj(m["data"@]) is Some
        &&& {
            let d = json_obj(m["data"@])->0;
            &&& d.contains_key("email"@)
            &&& json_str_of(d["email"@]) is Some
            &&& d.contains_key("token"@)
            &&& json_str_of(d["token"@]) is Some
            &&& (d.contains_key("password"@) ==> json_str_of(d["password"@]) is Some)
            &&& (d.contains_key("user"@) ==> json_str_of(d["user"@]) is Some)
            &&& (d.contains_key("usage_limit"@) ==> json_str_of(d["usage_limit"@]) is Some)
        }
    }
}

/// An optional string field: the field's string when present, the default
/// otherwise.
pub open spec fn spec_opt_field(
    d: Map<Seq<char>, Seq<char>>,
    k: Seq<char>,
    dflt: Seq<char>,
) -> Seq<char> {
    if d.contains_key(k) {
        json_str_of(d[k])->0
    } else {
        dflt
    }
}

fn opt_field(cfg: &IdentityConfig, key: &str, dflt: String) -> (r: Result<String, ()>)
    requires
        cfg.wf(),
    ensures
        r is Ok <==> (cfg.map_view().contains_key(key@) ==> json_str_of(
            cfg.map_view()[key@],
        ) is Some),
        r is Ok ==> r->Ok_0@ == spec_opt_field(cfg.map_view(), key@, dflt@),
{
    if cfg.contains_key(key) {
        match cfg.get_string_key(key) {
            Some(v) => Ok(v),
            None => Err(()),
        }
    } else {
        Ok(dflt)
    }
}

/// Parses a remote response body. Accepts exactly the bodies of the shape
/// above; anything else is the parse error.
pub fn parse_api_response(body: &str) -> (r: Result<ApiResponse, String>)
    ensures
        r is Ok <==> spec_response_ok(body@),
        r is Ok ==> {
            let m = json_obj(body@)->0;
            let d = json_obj(m["data"@])->0;
            &&& r->Ok_0.success == (m["success"@] == "true"@)
            &&& r->Ok_0.message@ == json_str_of(m["message"@])->0
            &&& r->Ok_0.data.email@ == json_str_of(d["email"@])->0
            &&& r->Ok_0.data.token@ == json_str_of(d["token"@])->0
            &&& r->Ok_0.data.password@ == spec_opt_field(d, "password"@, Seq::empty())
            &&& r->Ok_0.data.user@ == spec_opt_field(d, "user"@, Seq::empty())
            &&& r->Ok_0.data.usage_limit@ == spec_opt_field(d, "usage_limit"@, "unlimited"@)
        },
        r is Err ==> r->Err_0@ == "authConfig.errors.parseError"@,
{
    let parse_err = "authConfig.errors.parseError";
    let top = match IdentityConfig::from_text(body) {
        Ok(c) => c,
        Err(_) => {
            return Err(parse_err.to_owned());
        },
    };
    let success_text = match top.get_value_text("success") {
        Some(t) => t,
        None => {
            return Err(parse_err.to_owned());
        },
    };
    let success = if crate::textops::str_eq(success_text.as_str(), "true") {
        true
    } else if crate::textops::str_eq(success_text.as_str(), "false") {
        false
    } else {
        return Err(parse_err.to_owned());
    };
    let message = match top.get_string_key("message") {
        Some(v) => v,
        None => {
            return Err(parse_err.to_owned());
        },
    };
    let data_text = match top.get_value_text("data") {
        Some(t) => t,
        None => {
            return Err(parse_err.to_owned());
        },
    };
    let data = match IdentityConfig::from_text(data_text.as_str()) {
        Ok(c) => c,
        Err(_) => {
            return Err(parse_err.to_owned());
        },
    };
    let email = match data.get_string_key("email") {
        Some(v) => v,
        None => {
            return Err(parse_err.to_owned());
        },
    };
    let token = match data.get_string_key("token") {
        Some(v) => v,
        None => {
            return Err(parse_err.to_owned());
        },
    };
    let password = match opt_field(&data, "password", String::new()) {
        Ok(v) => v,
        Err(_) => {
            return Err(parse_err.to_owned());
        },
    };
    let user = match opt_field(&data, "user", String::new()) {
        Ok(v) => v,
        Err(_) => {
            return Err(parse_err.to_owned());
        },
    };
    let usage_limit = match opt_field(&data, "usage_limit", default_usage_limit()) {
        Ok(v) => v,
        Err(_) => {
            return Err(parse_err.to_owned());
        },
    };
    Ok(ApiResponse {
        success,
        message,
        data: AccountData { email, password, token, user, usage_limit },
    })
}

/// The auth store transaction failed; nothing was changed.
#[derive(Clone, Copy, PartialEq, Eq, Structural, Debug)]
pub struct TransactionError;

/// Which steps of an upsert transaction the environment fails: one flag
/// per derived key/value pair, and one for the commit.
pub struct TxFaults {
    pub step_faults: Vec<bool>,
    pub commit: bool,
}

impl TxFaults {
    /// A plan on which every step succeeds.
    pub fn none() -> (r: TxFaults)
        ensures
            r.step_faults@ == Seq::<bool>::empty(),
            !r.commit,
    {
        TxFaults { step_faults: Vec::new(), commit: false }
    }
}

/// Whether step `i` of the plan faults; steps beyond the plan's length
/// succeed.
pub open spec fn tx_step_faults(f: TxFaults, i: int) -> bool {
    0 <= i < f.step_faults@.len() && f.step_faults@[i]
}

/// The map after upserting a list of pairs in order; a later pair for the
/// same key wins.
pub open spec fn spec_upserted(
    m: Map<Seq<char>, Seq<char>>,
    us: Seq<(Seq<char>, Seq<char>)>,
) -> Map<Seq<char>, Seq<char>>
    decreases us.len(),
{
    if us.len() == 0 {
        m
    } else {
        spec_upserted(m, us.drop_last()).insert(us.last().0, us.last().1)
    }
}

/// The key/value pairs an upsert writes: email, access token, refresh
/// token, and the fixed sign-up type exactly when a refresh token is set.
pub open spec fn spec_update_plan(
    email: Option<String>,
    access_token: Option<String>,
    refresh_token: Option<String>,
) -> Seq<(Seq<char>, Seq<char>)> {
    let s0 = Seq::<(Seq<char>, Seq<char>)>::empty();
    let s1 = if email is Some {
        s0.push(("cursorAuth/cachedEmail"@, email->0@))
    } else {
        s0
    };
    let s2 = if access_token is Some {
        s1.push(("cursorAuth/accessToken"@, access_token->0@))
    } else {
        s1
    };
    if refresh_token is Some {
        s2.push(("cursorAuth/refreshToken"@, refresh_token->0@)).push(
            ("cursorAuth/cachedSignUpType"@, "Auth_0"@),
        )
    } else {
        s2
    }
}

/// Derives the key/value pairs an upsert writes.
pub fn update_plan(
    email: &Option<String>,
    access_token: &Option<String>,
    refresh_token: &Option<String>,
) -> (r: Vec<(String, String)>)
    ensures
        view_entries(r@) == spec_update_plan(*email, *access_token, *refresh_token),
{
    let mut updates: Vec<(String, String)> = Vec::new();
    if let Some(e) = email {
        updates.push(("cursorAuth/cachedEmail".to_owned(), e.clone()));
    }
    if let Some(t) = access_token {
        updates.push(("cursorAuth/accessToken".to_owned(), t.clone()));
    }
    if let Some(t) = refresh_token {
        updates.push(("cursorAuth/refreshToken".to_owned(), t.clone()));
        updates.push(("cursorAuth/cachedSignUpType".to_owned(), "Auth_0".to_owned()));
    }
    proof {
        assert(view_entries(updates@) =~= spec_update_plan(*email, *access_token, *refresh_token));
    }
    updates
}

/// The key-value auth table: rows with distinct keys.
pub struct AuthStore {
    pub rows: Vec<(String, String)>,
}

impl AuthStore {
    /// Well-formedness: row keys are pairwise distinct.
    pub open spec fn wf(self) -> bool {
        entries_distinct(self.rows@)
    }

    /// The key/value map the table holds.
    pub open spec fn map_view(self) -> Map<Seq<char>, Seq<char>> {
        entries_map(self.rows@)
    }

    /// An empty table.
    pub fn new() -> (r: Self)
        ensures
            r.wf(),
            r.map_view() == Map::<Seq<char>, Seq<char>>::empty(),
    {
        AuthStore { rows: Vec::new() }
    }

    /// The value stored under a key.
    pub fn get(&self, key: &str) -> (r: Option<String>)
        requires
            self.wf(),
        ensures
            r is Some <==> self.map_view().contains_key(key@),
            r is Some ==> r->0@ == self.map_view()[key@],
    {
        proof {
            crate::jsontext::lemma_entries_map_contains(self.rows@, key@);
        }
        match crate::jsontext::find_entry(&self.rows, key) {
            Some(i) => {
                proof {
                    crate::jsontext::lemma_entries_map_index(self.rows@, i as int);
                }
                Some(self.rows[i].1.clone())
            },
            None => None,
        }
    }

    /// Applies a list of key/value pairs in one transaction. All-or-
    /// nothing: on any step or commit fault the table is left exactly as
    /// it was.
    pub fn apply_updates(&mut self, updates: &Vec<(String, String)>, faults: &TxFaults) -> (r:
        Result<(), TransactionError>)
        requires
            old(self).wf(),
        ensures
            final(self).wf(),
            r is Ok <==> (!faults.commit && forall|i: int|
                0 <= i < updates@.len() ==> !tx_step_faults(*faults, i)),
            r is Ok ==> final(self).map_view() == spec_upserted(
                old(self).map_view(),
                view_entries(updates@),
            ),
            r is Err ==> *final(self) == *old(self),
    {
        let mut work: Vec<(String, String)> = Vec::new();
        let mut i: usize = 0;
        while i < self.rows.len()
            invariant
                0 <= i <= self.rows@.len(),
                work@ =~= self.rows@.take(i as int),
            decreases self.rows@.len() - i,
        {
            let k = self.rows[i].0.clone();
            let v = self.rows[i].1.clone();
            work.push((k, v));
            proof {
                assert(work@ =~= self.rows@.take(i + 1));
            }
            i += 1;
        }
        proof {
            assert(self.rows@.take(self.rows@.len() as int) =~= self.rows@);
        }

        let mut j: usize = 0;
        while j < updates.len()
            invariant
                0 <= j <= updates@.len(),
                old(self).wf(),
                *self == *old(self),
                entries_distinct(work@),
                entries_map(work@) =~= spec_upserted(
                    old(self).map_view(),
                    view_entries(updates@).take(j as int),
                ),
                forall|i: int| 0 <= i < j ==> !tx_step_faults(*faults, i),
            decreases updates@.len() - j,
        {
            if j < faults.step_faults.len() && faults.step_faults[j] {
                assert(tx_step_faults(*faults, j as int));
                return Err(TransactionError);
            }
            let key = updates[j].0.clone();
            let value = updates[j].1.clone();
            upsert_entry(&mut work, key.as_str(), value.as_str());
            proof {
                assert(view_entries(updates@).take(j + 1).drop_last() =~= view_entries(
                    updates@,
                ).take(j as int));
            }
            j += 1;
        }
        if faults.commit {
            return Err(TransactionError);
        }
        proof {
            assert(view_entries(updates@).take(updates@.len() as int) =~= view_entries(updates@));
        }
        self.rows = work;
        Ok(())
    }

    /// Derives the pairs for the given credential fields and applies them
    /// in one transaction; reports plain success or failure, and changes
    /// nothing on failure.
    pub fn update_auth(
        &mut self,
        email: Option<String>,
        access_token: Option<String>,
        refresh_token: Option<String>,
        faults: &TxFaults,
    ) -> (r: bool)
        requires
            old(self).wf(),
        ensures
            final(self).wf(),
            r <==> (!faults.commit && forall|i: int|
                0 <= i < spec_update_plan(email, access_token, refresh_token).len()
                    ==> !tx_step_faults(*faults, i)),
            r ==> final(self).map_view() == spec_upserted(
                old(self).map_view(),
                spec_update_plan(email, access_token, refresh_token),
            ),
            !r ==> *final(self) == *old(self),
    {
        let updates = update_plan(&email, &access_token, &refresh_token);
        proof {
            assert(updates@.len() == view_entries(updates@).len());
        }
        match self.apply_updates(&updates, faults) {
            Ok(()) => true,
            Err(_) => false,
        }
    }
}

} // verus!

//! The request layer: the raw envelope, the positional-parameter parsing
//! algorithm with its exact error policy, and the two method request
//! builders.

use vstd::prelude::*;

verus! {

use crate::config::{AccountInfoConfig, ParamsConfig, ProgramAccountsConfig};
use crate::decimal::{dec_digits, u64_to_dec};
use crate::hashing::{fingerprint_of, fingerprint_str};
use crate::jsonext::{
    base58_of,
    entries_view,
    find_key,
    json_array_elems,
    json_array_of,
    json_is_null,
    json_null_of,
    json_object_entries,
    json_object_of,
    json_string,
    json_string_of,
    json_u64,
    json_u64_of,
    lookup,
};
use crate::types::{
    clone_filters,
    commitment_label,
    commitment_label_spec,
    decode_pubkey,
    pubkey_span_ok,
    resolved_commitment,
    Commitment,
    Filter,
    Filters,
    Id,
    IdView,
    MaybeFilters,
    Pubkey,
};

/// The outer JSON-RPC frame: protocol tag, request id, method name and the
/// raw, not yet interpreted `params` span.
#[derive(Clone, Debug, PartialEq)]
pub struct Request {
    pub jsonrpc: String,
    pub id: Id,
    pub method: String,
    pub params: Option<String>,
}

/// Spec-level value of a [`Request`].
pub struct RequestView {
    pub jsonrpc: Seq<char>,
    pub id: IdView,
    pub method: Seq<char>,
    pub params: Option<Seq<char>>,
}

impl View for Request {
    type V = RequestView;

    open spec fn view(&self) -> RequestView {
        RequestView {
            jsonrpc: self.jsonrpc@,
            id: self.id@,
            method: self.method@,
            params: match self.params {
                None => None,
                Some(p) => Some(p@),
            },
        }
    }
}

/// The outer shape of the request does not match the JSON-RPC frame.
#[derive(Clone, Copy, Debug, PartialEq, Eq, Structural)]
pub struct MalformedEnvelope;

/// The id a raw JSON span stands for, tried in order: `null`, an unsigned
/// number, a string.
pub open spec fn spec_id(s: Seq<char>) -> Option<IdView> {
    if json_null_of(s) {
        Some(IdView::Null)
    } else if json_u64_of(s) is Some {
        Some(IdView::Num(json_u64_of(s).unwrap()))
    } else {
        match json_string_of(s) {
            Some(t) => Some(IdView::Str(t)),
            None => None,
        }
    }
}

/// The envelope a raw request stands for: a JSON object with a string
/// `jsonrpc` tag, an `id`, a string `method`, and an optional raw `params`
/// span.  Extra keys are ignored; `params` is never inspected here.
pub open spec fn spec_envelope(s: Seq<char>) -> Option<RequestView> {
    match json_object_of(s) {
        None => None,
        Some(obj) => match (lookup(obj, "jsonrpc"@), lookup(obj, "id"@), lookup(obj, "method"@)) {
            (Some(j), Some(i), Some(m)) => match (json_string_of(j), spec_id(i), json_string_of(
                m,
            )) {
                (Some(jv), Some(iv), Some(mv)) => Some(
                    RequestView { jsonrpc: jv, id: iv, method: mv, params: lookup(obj, "params"@) },
                ),
                _ => None,
            },
            _ => None,
        },
    }
}

impl Request {
    /// Decodes the outer JSON-RPC frame.  Only the outer shape is judged;
    /// the contents of `params` never are.
    pub fn parse(s: &str) -> (r: Result<Request, MalformedEnvelope>)
        ensures
            r is Ok <==> spec_envelope(s@) is Some,
            r matches Ok(req) ==> Some(req@) == spec_envelope(s@),
    {
        let entries = match json_object_entries(s) {
            Some(e) => e,
            None => {
                return Err(MalformedEnvelope);
            },
        };
        proof {
            assert(entries_view(entries@) =~= json_object_of(s@).unwrap());
        }
        let jsonrpc = match find_key(&entries, &String::from_str("jsonrpc")) {
            Some(sp) => match json_string(sp.as_str()) {
                Some(t) => t,
                None => {
                    return Err(MalformedEnvelope);
                },
            },
            None => {
                return Err(MalformedEnvelope);
            },
        };
        let id = match find_key(&entries, &String::from_str("id")) {
            Some(sp) => {
                if json_is_null(sp.as_str()) {
                    Id::Null
                } else {
                    match json_u64(sp.as_str()) {
                        Some(n) => Id::Num(n),
                        None => match json_string(sp.as_str()) {
                            Some(t) => Id::Str(t),
                            None => {
                                return Err(MalformedEnvelope);
                            },
                        },
                    }
                }
            },
            None => {
                return Err(MalformedEnvelope);
            },
        };
        let method = match find_key(&entries, &String::from_str("method")) {
            Some(sp) => match json_string(sp.as_str()) {
                Some(t) => t,
                None => {
                    return Err(MalformedEnvelope);
                },
            },
            None => {
                return Err(MalformedEnvelope);
            },
        };
        let params = match find_key(&entries, &String::from_str("params")) {
            Some(sp) => Some(sp.clone()),
            None => None,
        };
        Ok(Request { jsonrpc, id, method, params })
    }
}

/// What a request parse answers when it fails.  Every error that judges the
/// parameters carries the request id, so the caller can echo it; a failure
/// of the array decoder itself is passed through with its own message.
#[derive(Clone, Debug, PartialEq)]
pub enum Error {
    /// No `params`, or an empty params array.
    NotEnoughArguments(Id),
    /// Wrong arity, malformed identifier argument or malformed config.
    InvalidParam { req_id: Id, message: String, data: Option<String> },
    /// The params payload is not a JSON array; the decoder's own message.
    ParseError(String),
}

/// Spec-level value of an [`Error`].
pub enum ErrorView {
    NotEnoughArguments(IdView),
    InvalidParam { req_id: IdView, message: Seq<char>, data: Option<Seq<char>> },
    ParseError(Seq<char>),
}

impl View for Error {
    type V = ErrorView;

    open spec fn view(&self) -> ErrorView {
        match self {
            Error::NotEnoughArguments(id) => ErrorView::NotEnoughArguments(id@),
            Error::InvalidParam { req_id, message, data } => ErrorView::InvalidParam {
                req_id: req_id@,
                message: message@,
                data: match data {
                    None => None,
                    Some(d) => Some(d@),
                },
            },
            Error::ParseError(m) => ErrorView::ParseError(m@),
        }
    }
}

/// The message of the arity error.
pub open spec fn arity_message() -> Seq<char> {
    "Invalid parameters: Expected from 1 to 2 parameters"@
}

/// The message of a malformed identifier argument.  Deliberately generic:
/// it does not disclose which decode rule failed.
pub open spec fn wrong_size_message() -> Seq<char> {
    "Invalid param: WrongSize"@
}

/// The message of a malformed config object.
pub open spec fn config_message() -> Seq<char> {
    "Invalid params: invalid configuration object"@
}

/// The supplementary datum of the arity error: the observed length.
pub open spec fn got_data(n: nat) -> Seq<char> {
    "Got "@ + dec_digits(n)
}

/// Whether the parameter parsing algorithm accepts this request: a params
/// array of one or two elements, a well-formed identifier argument, and —
/// when present — a well-formed config object.
pub open spec fn spec_params_accepts<T: ParamsConfig>(req: RequestView) -> bool {
    match req.params {
        None => false,
        Some(s) => match json_array_of(s) {
            None => false,
            Some(elems) => {
                &&& 1 <= elems.len() <= 2
                &&& pubkey_span_ok(elems[0])
                &&& (elems.len() == 2 ==> T::spec_decode(elems[1]) is Some)
            },
        },
    }
}

/// What a successful parse returns: the decoded identifier argument, the
/// decoded (or default) configuration, and the fingerprint of the raw
/// params span.
pub open spec fn spec_params_ok<T: ParamsConfig>(
    req: RequestView,
    pk: Pubkey,
    cfg: T::V,
    fp: u64,
) -> bool {
    &&& spec_params_accepts::<T>(req)
    &&& {
        let s = req.params.unwrap();
        let elems = json_array_of(s).unwrap();
        &&& pk.wf()
        &&& pk.text@ == json_string_of(elems[0]).unwrap()
        &&& pk.bytes@ == base58_of(pk.text@).unwrap()
        &&& cfg == if elems.len() == 2 {
            T::spec_decode(elems[1]).unwrap()
        } else {
            T::spec_default()
        }
        &&& fp == fingerprint_of(s)
    }
}

/// Which error a rejected parse answers, for each way a request can be
/// rejected; the first violated rule wins.  On an accepted request no error
/// is permitted at all.
pub open spec fn spec_params_err<T: ParamsConfig>(req: RequestView, e: ErrorView) -> bool {
    match req.params {
        None => e == ErrorView::NotEnoughArguments(req.id),
        Some(s) => match json_array_of(s) {
            None => e is ParseError,
            Some(elems) => if elems.len() == 0 {
                e == ErrorView::NotEnoughArguments(req.id)
            } else if elems.len() > 2 {
                e == ErrorView::InvalidParam {
                    req_id: req.id,
                    message: arity_message(),
                    data: Some(got_data(elems.len())),
                }
            } else if !pubkey_span_ok(elems[0]) {
                e == ErrorView::InvalidParam {
                    req_id: req.id,
                    message: wrong_size_message(),
                    data: None,
                }
            } else if elems.len() == 2 && T::spec_decode(elems[1]) is None {
                e == ErrorView::InvalidParam {
                    req_id: req.id,
                    message: config_message(),
                    data: None,
                }
            } else {
                false
            },
        },
    }
}

/// Two successfully parsed requests whose raw `params` spans are identical
/// carry the same fingerprint, whatever their ids, methods or other fields,
/// and even across methods: the fingerprint is a function of the raw span
/// alone.
pub proof fn lemma_fingerprint_depends_on_params_alone<T: ParamsConfig, U: ParamsConfig>(
    r1: RequestView,
    r2: RequestView,
    pk1: Pubkey,
    cfg1: T::V,
    fp1: u64,
    pk2: Pubkey,
    cfg2: U::V,
    fp2: u64,
)
    requires
        spec_params_ok::<T>(r1, pk1, cfg1, fp1),
        spec_params_ok::<U>(r2, pk2, cfg2, fp2),
        r1.params == r2.params,
    ensures
        fp1 == fp2,
{
}

/// Any well-formed single-argument params array is accepted, and whatever a
/// successful parse then returns carries that method's default
/// configuration.
pub proof fn lemma_single_argument_gets_default<T: ParamsConfig>(req: RequestView)
    requires
        req.params is Some,
        json_array_of(req.params.unwrap()) is Some,
        json_array_of(req.params.unwrap()).unwrap().len() == 1,
        pubkey_span_ok(json_array_of(req.params.unwrap()).unwrap()[0]),
    ensures
        spec_params_accepts::<T>(req),
        forall|pk: Pubkey, cfg: T::V, fp: u64|
            spec_params_ok::<T>(req, pk, cfg, fp) ==> cfg == T::spec_default(),
{
}

/// A params array of length zero, or no params at all, is rejected — for
/// every method — and the only permitted error is `NotEnoughArguments`
/// carrying the request's own id.
pub proof fn lemma_no_arguments_rejected<T: ParamsConfig>(req: RequestView)
    requires
        req.params is None || (json_array_of(req.params.unwrap()) is Some && json_array_of(
            req.params.unwrap(),
        ).unwrap().len() == 0),
    ensures
        !spec_params_accepts::<T>(req),
        forall|e: ErrorView|
            spec_params_err::<T>(req, e) ==> e == ErrorView::NotEnoughArguments(req.id),
{
}

/// A params array of three or more elements is rejected — for every method
/// — and the only permitted error is the arity `InvalidParam`, whose datum
/// spells out the exact observed length.
pub proof fn lemma_too_many_arguments_rejected<T: ParamsConfig>(req: RequestView)
    requires
        req.params is Some,
        json_array_of(req.params.unwrap()) is Some,
        json_array_of(req.params.unwrap()).unwrap().len() >= 3,
    ensures
        !spec_params_accepts::<T>(req),
        forall|e: ErrorView|
            spec_params_err::<T>(req, e) ==> e == (ErrorView::InvalidParam {
                req_id: req.id,
                message: arity_message(),
                data: Some(got_data(json_array_of(req.params.unwrap()).unwrap().len())),
            }),
{
}

/// A copy of an id, for echoing it back in an error.
fn clone_id(id: &Id) -> (r: Id)
    ensures
        r@ == id@,
{
    match id {
        Id::Null => Id::Null,
        Id::Num(n) => Id::Num(*n),
        Id::Str(s) => Id::Str(s.clone()),
    }
}

/// The parameter parsing algorithm.  Extracts the positional params array,
/// enforces arity, decodes the identifier argument and the optional
/// trailing config object, and fingerprints the raw params span.  The steps
/// are strictly ordered; the first violated rule wins.
pub fn parse_params<T: ParamsConfig>(req: &Request) -> (r: Result<(Pubkey, T, u64), Error>)
    ensures
        r is Ok <==> spec_params_accepts::<T>(req@),
        r matches Ok(t) ==> spec_params_ok::<T>(req@, t.0, t.1@, t.2),
        r matches Err(e) ==> spec_params_err::<T>(req@, e@),
{
    let params: &String = match &req.params {
        Some(p) => p,
        None => {
            return Err(Error::NotEnoughArguments(clone_id(&req.id)));
        },
    };
    let arr = match json_array_elems(params.as_str()) {
        Ok(v) => v,
        Err(m) => {
            return Err(Error::ParseError(m));
        },
    };
    proof {
        assert(crate::config::spans_view(arr@) =~= json_array_of(params@).unwrap());
    }
    if arr.len() == 0 {
        return Err(Error::NotEnoughArguments(clone_id(&req.id)));
    }
    if arr.len() > 2 {
        let mut data = String::from_str("Got ");
        let n = u64_to_dec(arr.len() as u64);
        data.append(n.as_str());
        return Err(
            Error::InvalidParam {
                req_id: clone_id(&req.id),
                message: String::from_str("Invalid parameters: Expected from 1 to 2 parameters"),
                data: Some(data),
            },
        );
    }
    let pubkey = match decode_pubkey(arr[0].as_str()) {
        Some(pk) => pk,
        None => {
            return Err(
                Error::InvalidParam {
                    req_id: clone_id(&req.id),
                    message: String::from_str("Invalid param: WrongSize"),
                    data: None,
                },
            );
        },
    };
    let config: T = if arr.len() == 2 {
        match T::decode_config(arr[1].as_str()) {
            Some(c) => c,
            None => {
                return Err(
                    Error::InvalidParam {
                        req_id: clone_id(&req.id),
                        message: String::from_str("Invalid params: invalid configuration object"),
                        data: None,
                    },
                );
            },
        }
    } else {
        T::default_config()
    };
    let fingerprint = fingerprint_str(params.as_str());
    Ok((pubkey, config, fingerprint))
}

/// A decoded account-info request, paired with the fingerprint of the raw
/// params span that produced it.
#[derive(Clone, Debug, PartialEq)]
pub struct GetAccountInfo {
    pub pubkey: Pubkey,
    pub config: AccountInfoConfig,
    pub config_hash: u64,
}

impl GetAccountInfo {
    /// Builds an account-info request from a decoded envelope.
    pub fn from_request(req: &Request) -> (r: Result<GetAccountInfo, Error>)
        ensures
            r is Ok <==> spec_params_accepts::<AccountInfoConfig>(req@),
            r matches Ok(g) ==> spec_params_ok::<AccountInfoConfig>(
                req@,
                g.pubkey,
                g.config@,
                g.config_hash,
            ),
            r matches Err(e) ==> spec_params_err::<AccountInfoConfig>(req@, e@),
    {
        match parse_params::<AccountInfoConfig>(req) {
            Ok((pubkey, config, config_hash)) => Ok(
                GetAccountInfo { pubkey, config, config_hash },
            ),
            Err(e) => Err(e),
        }
    }

    /// The commitment this request resolves to: its own when one was given,
    /// `Finalized` otherwise.
    pub fn commitment(&self) -> (c: Commitment)
        ensures
            c == resolved_commitment(self.config.commitment),
    {
        match &self.config.commitment {
            None => Commitment::default(),
            Some(cc) => cc.commitment,
        }
    }

    /// A one-line diagnostic: pubkey and resolved commitment, safe to log.
    pub fn display_string(&self) -> (r: String)
        ensures
            r@ == "getAccountInfo { pubkey: "@ + self.pubkey.text@ + ", commitment: "@
                + commitment_label_spec(resolved_commitment(self.config.commitment)) + " }"@,
    {
        let mut s = String::from_str("getAccountInfo { pubkey: ");
        s.append(self.pubkey.text.as_str());
        s.append(", commitment: ");
        s.append(commitment_label(self.commitment()));
        s.append(" }");
        s
    }
}

/// The outcome of parsing a program-accounts request, before the filter
/// normalization verdict is in: identifier, configuration (raw filters
/// included) and fingerprint.
#[derive(Clone, Debug, PartialEq)]
pub struct ProgramAccountsParts {
    pub pubkey: Pubkey,
    pub config: ProgramAccountsConfig,
    pub fingerprint: u64,
}

impl ProgramAccountsParts {
    /// Parses a program-accounts request from a decoded envelope.
    pub fn from_request(req: &Request) -> (r: Result<ProgramAccountsParts, Error>)
        ensures
            r is Ok <==> spec_params_accepts::<ProgramAccountsConfig>(req@),
            r matches Ok(p) ==> spec_params_ok::<ProgramAccountsConfig>(
                req@,
                p.pubkey,
                p.config@,
                p.fingerprint,
            ),
            r matches Err(e) ==> spec_params_err::<ProgramAccountsConfig>(req@, e@),
    {
        match parse_params::<ProgramAccountsConfig>(req) {
            Ok((pubkey, config, fingerprint)) => Ok(
                ProgramAccountsParts { pubkey, config, fingerprint },
            ),
            Err(e) => Err(e),
        }
    }

    /// The raw filter list, to be handed to the normalization collaborator.
    pub fn raw_filters(&self) -> (r: &Option<Vec<Filter>>)
        ensures
            *r == self.config.filters,
    {
        &self.config.filters
    }
}

/// A decoded program-accounts request, with the filter normalization
/// outcome fixed once, at construction.
#[derive(Clone, Debug, PartialEq)]
pub struct GetProgramAccounts {
    pub pubkey: Pubkey,
    pub config: ProgramAccountsConfig,
    pub filters: Option<Filters>,
    pub valid_filters: bool,
}

impl GetProgramAccounts {
    /// Builds the request from parsed parts and the normalization
    /// collaborator's verdict on the raw filter list.  A rejected list is
    /// not an error: the request is built with `valid_filters == false` and
    /// the raw list stays untouched in its config.
    pub fn from_parts(parts: ProgramAccountsParts, verdict: Option<Filters>) -> (g:
        GetProgramAccounts)
        ensures
            g.pubkey == parts.pubkey,
            g.config == parts.config,
            match parts.config.filters {
                None => g.filters is None && g.valid_filters == true,
                Some(_) => match verdict {
                    Some(f) => g.filters == Some(f) && g.valid_filters == true,
                    None => g.filters is None && g.valid_filters == false,
                },
            },
    {
        let ProgramAccountsParts { pubkey, config, fingerprint: _ } = parts;
        let outcome: (Option<Filters>, bool) = match &config.filters {
            None => (None, true),
            Some(raw) => {
                match MaybeFilters::from_verdict(clone_filters(raw), verdict) {
                    MaybeFilters::Valid(f) => (Some(f), true),
                    MaybeFilters::Invalid(_) => (None, false),
                }
            },
        };
        GetProgramAccounts { pubkey, config, filters: outcome.0, valid_filters: outcome.1 }
    }

    /// The commitment this request resolves to: its own when one was given,
    /// `Finalized` otherwise.
    pub fn commitment(&self) -> (c: Commitment)
        ensures
            c == resolved_commitment(self.config.commitment),
    {
        match &self.config.commitment {
            None => Commitment::default(),
            Some(cc) => cc.commitment,
        }
    }

    /// A one-line diagnostic: pubkey and resolved commitment, safe to log.
    /// Filters are left out of the diagnostic on purpose.
    pub fn display_string(&self) -> (r: String)
        ensures
            r@ == "getProgramAccounts { pubkey: "@ + self.pubkey.text@ + ", commitment: "@
                + commitment_label_spec(resolved_commitment(self.config.commitment)) + " }"@,
    {
        let mut s = String::from_str("getProgramAccounts { pubkey: ");
        s.append(self.pubkey.text.as_str());
        s.append(", commitment: ");
        s.append(commitment_label(self.commitment()));
        s.append(" }");
        s
    }
}

} // verus!

//! Domain types that run through the request layer: identifiers, commitment
//! levels, encodings, data slices, public keys and filters.  This layer only
//! decodes them and hands them on; their deeper semantics live elsewhere.

use vstd::prelude::*;

verus! {

use crate::jsonext::{base58_decode, base58_of, json_string, json_string_of};

/// The `id` of a JSON-RPC request: echoed back in every response, never used
/// for routing or caching.
#[derive(Clone, Debug, PartialEq)]
pub enum Id {
    Null,
    Num(u64),
    Str(String),
}

/// Spec-level value of an [`Id`].
pub enum IdView {
    Null,
    Num(u64),
    Str(Seq<char>),
}

impl View for Id {
    type V = IdView;

    open spec fn view(&self) -> IdView {
        match self {
            Id::Null => IdView::Null,
            Id::Num(n) => IdView::Num(*n),
            Id::Str(s) => IdView::Str(s@),
        }
    }
}

/// Consistency level requested for a blockchain state read.
#[derive(Clone, Copy, Debug, PartialEq, Eq, Structural)]
pub enum Commitment {
    Finalized,
    Confirmed,
    Processed,
}

impl Default for Commitment {
    /// An absent commitment resolves to `Finalized`.
    fn default() -> (r: Self)
        ensures
            r == Commitment::Finalized,
    {
        Commitment::Finalized
    }
}

/// The label of a commitment level, as it appears in diagnostics.
pub open spec fn commitment_label_spec(c: Commitment) -> Seq<char> {
    match c {
        Commitment::Finalized => "Finalized"@,
        Commitment::Confirmed => "Confirmed"@,
        Commitment::Processed => "Processed"@,
    }
}

/// The diagnostic label of a commitment level.
pub fn commitment_label(c: Commitment) -> (r: &'static str)
    ensures
        r@ == commitment_label_spec(c),
{
    match c {
        Commitment::Finalized => "Finalized",
        Commitment::Confirmed => "Confirmed",
        Commitment::Processed => "Processed",
    }
}

/// How account data is rendered in a response.
#[derive(Clone, Copy, Debug, PartialEq, Eq, Structural)]
pub enum Encoding {
    Default,
    Base58,
    Base64,
    Base64Zstd,
    JsonParsed,
}

/// Optional commitment, as it appears inside a request's config object.
#[derive(Clone, Copy, Debug, PartialEq, Eq, Structural)]
pub struct CommitmentConfig {
    pub commitment: Commitment,
}

impl Default for CommitmentConfig {
    fn default() -> (r: Self)
        ensures
            r.commitment == Commitment::Finalized,
    {
        CommitmentConfig { commitment: Commitment::Finalized }
    }
}

/// The commitment a request resolves to: its own when one was given,
/// `Finalized` otherwise.
pub open spec fn resolved_commitment(c: Option<CommitmentConfig>) -> Commitment {
    match c {
        None => Commitment::Finalized,
        Some(cc) => cc.commitment,
    }
}

/// A byte-range descriptor limiting which part of account data is returned.
#[derive(Clone, Copy, Debug, PartialEq, Eq, Structural)]
pub struct Slice {
    pub offset: u64,
    pub length: u64,
}

/// The slot number a response's state corresponds to.
pub type Slot = u64;

/// Response metadata: the state version (slot) a value was read at.
#[derive(Clone, Copy, Debug, PartialEq, Eq, Structural)]
pub struct SolanaContext {
    pub slot: Slot,
}

/// A decoded account public key: exactly 32 bytes, kept together with the
/// base58 text it was decoded from.
#[derive(Clone, Debug, PartialEq)]
pub struct Pubkey {
    pub bytes: Vec<u8>,
    pub text: String,
}

impl Pubkey {
    /// A well-formed key holds the 32 bytes its base58 text stands for.
    pub open spec fn wf(&self) -> bool {
        &&& self.bytes@.len() == 32
        &&& base58_of(self.text@) == Some(self.bytes@)
    }
}

/// Whether a raw JSON span holds a well-formed identifier argument: a JSON
/// string whose base58 decoding yields exactly 32 bytes.
pub open spec fn pubkey_span_ok(s: Seq<char>) -> bool {
    &&& json_string_of(s) is Some
    &&& base58_of(json_string_of(s).unwrap()) is Some
    &&& base58_of(json_string_of(s).unwrap()).unwrap().len() == 32
}

/// Decodes the leading identifier argument from its raw JSON span.
pub fn decode_pubkey(s: &str) -> (r: Option<Pubkey>)
    ensures
        r is Some <==> pubkey_span_ok(s@),
        r matches Some(pk) ==> {
            &&& pk.wf()
            &&& pk.text@ == json_string_of(s@).unwrap()
            &&& pk.bytes@ == base58_of(pk.text@).unwrap()
        },
{
    match json_string(s) {
        None => None,
        Some(text) => match base58_decode(text.as_str()) {
            None => None,
            Some(bytes) => {
                if bytes.len() == 32 {
                    Some(Pubkey { bytes, text })
                } else {
                    None
                }
            },
        },
    }
}

/// A predicate over account content or size, used to narrow a
/// program-accounts scan.
#[derive(Clone, Debug, PartialEq)]
pub enum Filter {
    /// Keep accounts whose data is exactly this long.
    DataSize(u64),
    /// Keep accounts whose data at `offset` matches the base58 `bytes`.
    Memcmp { offset: u64, bytes: String },
}

/// Spec-level value of a [`Filter`].
pub enum FilterView {
    DataSize(u64),
    Memcmp { offset: u64, bytes: Seq<char> },
}

impl View for Filter {
    type V = FilterView;

    open spec fn view(&self) -> FilterView {
        match self {
            Filter::DataSize(n) => FilterView::DataSize(*n),
            Filter::Memcmp { offset, bytes } => FilterView::Memcmp {
                offset: *offset,
                bytes: bytes@,
            },
        }
    }
}

/// A copy of one filter descriptor.
pub fn clone_filter(f: &Filter) -> (r: Filter)
    ensures
        r == *f,
{
    match f {
        Filter::DataSize(n) => Filter::DataSize(*n),
        Filter::Memcmp { offset, bytes } => Filter::Memcmp {
            offset: *offset,
            bytes: bytes.clone(),
        },
    }
}

/// A copy of a raw filter list, so the original can stay untouched while
/// the copy is inspected.
pub fn clone_filters(v: &Vec<Filter>) -> (r: Vec<Filter>)
    ensures
        r@ == v@,
{
    let mut out: Vec<Filter> = Vec::new();
    let mut i: usize = 0;
    while i < v.len()
        invariant
            0 <= i <= v@.len(),
            out@ == v@.take(i as int),
        decreases v@.len() - i,
    {
        out.push(clone_filter(&v[i]));
        proof {
            assert(v@.take(i + 1) =~= v@.take(i as int).push(v@[i as int]));
        }
        i = i + 1;
    }
    proof {
        assert(v@.take(v@.len() as int) =~= v@);
    }
    out
}

/// A filter set that the normalization collaborator has blessed.  This layer
/// never builds one on its own: it only carries the collaborator's answer.
#[derive(Clone, Debug, PartialEq)]
pub struct Filters {
    pub entries: Vec<Filter>,
}

/// The outcome of the filter normalization gate: either the collaborator's
/// normalized set, or the original raw list, kept for diagnostics.  An
/// `Invalid` outcome is a legitimate value, not an error.
#[derive(Clone, Debug, PartialEq)]
pub enum MaybeFilters {
    Valid(Filters),
    Invalid(Vec<Filter>),
}

impl MaybeFilters {
    /// The filter normalization gate: wraps the collaborator's verdict,
    /// preserving the raw list untouched whenever the verdict was negative.
    pub fn from_verdict(raw: Vec<Filter>, verdict: Option<Filters>) -> (m: MaybeFilters)
        ensures
            match verdict {
                Some(f) => m == MaybeFilters::Valid(f),
                None => m == MaybeFilters::Invalid(raw),
            },
    {
        match verdict {
            Some(f) => MaybeFilters::Valid(f),
            None => MaybeFilters::Invalid(raw),
        }
    }
}

} // verus!

//! Method-specific configuration objects and their decoding.
//!
//! Each method's trailing `params` element is an optional JSON object.  A
//! missing key falls back to that method's own default; a present key that
//! does not decode fails the whole configuration.  The two methods pick
//! different default encodings, on purpose.

use vstd::prelude::*;

verus! {

use crate::jsonext::{
    entries_view,
    find_key,
    json_array_elems,
    json_array_of,
    json_bool,
    json_bool_of,
    json_object_entries,
    json_object_of,
    json_string,
    json_string_of,
    json_u64,
    json_u64_of,
    lookup,
};
use crate::types::{Commitment, CommitmentConfig, Encoding, Filter, FilterView, Slice};

/// The encoding a raw JSON span stands for.
pub open spec fn spec_encoding(s: Seq<char>) -> Option<Encoding> {
    match json_string_of(s) {
        None => None,
        Some(t) => if t == "base58"@ {
            Some(Encoding::Base58)
        } else if t == "base64"@ {
            Some(Encoding::Base64)
        } else if t == "base64+zstd"@ {
            Some(Encoding::Base64Zstd)
        } else if t == "jsonParsed"@ {
            Some(Encoding::JsonParsed)
        } else {
            None
        },
    }
}

/// Decodes an `encoding` value from its raw JSON span.
pub fn decode_encoding(s: &str) -> (r: Option<Encoding>)
    ensures
        r == spec_encoding(s@),
{
    match json_string(s) {
        None => None,
        Some(t) => {
            if t.eq(&String::from_str("base58")) {
                Some(Encoding::Base58)
            } else if t.eq(&String::from_str("base64")) {
                Some(Encoding::Base64)
            } else if t.eq(&String::from_str("base64+zstd")) {
                Some(Encoding::Base64Zstd)
            } else if t.eq(&String::from_str("jsonParsed")) {
                Some(Encoding::JsonParsed)
            } else {
                None
            }
        },
    }
}

/// The commitment level a raw JSON span stands for.
pub open spec fn spec_commitment_level(s: Seq<char>) -> Option<Commitment> {
    match json_string_of(s) {
        None => None,
        Some(t) => if t == "finalized"@ {
            Some(Commitment::Finalized)
        } else if t == "confirmed"@ {
            Some(Commitment::Confirmed)
        } else if t == "processed"@ {
            Some(Commitment::Processed)
        } else {
            None
        },
    }
}

/// Decodes a `commitment` value from its raw JSON span.
pub fn decode_commitment_level(s: &str) -> (r: Option<Commitment>)
    ensures
        r == spec_commitment_level(s@),
{
    match json_string(s) {
        None => None,
        Some(t) => {
            if t.eq(&String::from_str("finalized")) {
                Some(Commitment::Finalized)
            } else if t.eq(&String::from_str("confirmed")) {
                Some(Commitment::Confirmed)
            } else if t.eq(&String::from_str("processed")) {
                Some(Commitment::Processed)
            } else {
                None
            }
        },
    }
}

/// The data slice a raw JSON span stands for: an object with numeric
/// `offset` and `length`.
pub open spec fn spec_slice(s: Seq<char>) -> Option<Slice> {
    match json_object_of(s) {
        None => None,
        Some(obj) => match (lookup(obj, "offset"@), lookup(obj, "length"@)) {
            (Some(o), Some(l)) => match (json_u64_of(o), json_u64_of(l)) {
                (Some(o), Some(l)) => Some(Slice { offset: o, length: l }),
                _ => None,
            },
            _ => None,
        },
    }
}

/// Decodes a `dataSlice` value from its raw JSON span.
pub fn decode_slice(s: &str) -> (r: Option<Slice>)
    ensures
        r == spec_slice(s@),
{
    match json_object_entries(s) {
        None => None,
        Some(entries) => {
            proof {
                assert(entries_view(entries@) =~= json_object_of(s@).unwrap());
            }
            let o = match find_key(&entries, &String::from_str("offset")) {
                Some(sp) => match json_u64(sp.as_str()) {
                    Some(v) => v,
                    None => {
                        return None;
                    },
                },
                None => {
                    return None;
                },
            };
            let l = match find_key(&entries, &String::from_str("length")) {
                Some(sp) => match json_u64(sp.as_str()) {
                    Some(v) => v,
                    None => {
                        return None;
                    },
                },
                None => {
                    return None;
                },
            };
            Some(Slice { offset: o, length: l })
        },
    }
}

/// The filter a raw JSON span stands for: an object with exactly one key,
/// either `dataSize` with a count or `memcmp` with `offset` and `bytes`.
pub open spec fn spec_filter(s: Seq<char>) -> Option<FilterView> {
    match json_object_of(s) {
        None => None,
        Some(obj) => if obj.len() != 1 {
            None
        } else if obj[0].0 == "dataSize"@ {
            match json_u64_of(obj[0].1) {
                Some(n) => Some(FilterView::DataSize(n)),
                None => None,
            }
        } else if obj[0].0 == "memcmp"@ {
            match json_object_of(obj[0].1) {
                None => None,
                Some(m) => match (lookup(m, "offset"@), lookup(m, "bytes"@)) {
                    (Some(o), Some(b)) => match (json_u64_of(o), json_string_of(b)) {
                        (Some(o), Some(b)) => Some(FilterView::Memcmp { offset: o, bytes: b }),
                        _ => None,
                    },
                    _ => None,
                },
            }
        } else {
            None
        },
    }
}

/// Decodes one filter descriptor from its raw JSON span.
pub fn decode_filter(s: &str) -> (r: Option<Filter>)
    ensures
        r is Some <==> spec_filter(s@) is Some,
        r matches Some(f) ==> Some(f@) == spec_filter(s@),
{
    match json_object_entries(s) {
        None => None,
        Some(entries) => {
            proof {
                assert(entries_view(entries@) =~= json_object_of(s@).unwrap());
            }
            if entries.len() != 1 {
                return None;
            }
            proof {
                assert(entries_view(entries@)[0] == (entries@[0].0@, entries@[0].1@));
            }
            if entries[0].0.eq(&String::from_str("dataSize")) {
                match json_u64(entries[0].1.as_str()) {
                    Some(n) => Some(Filter::DataSize(n)),
                    None => None,
                }
            } else if entries[0].0.eq(&String::from_str("memcmp")) {
                match json_object_entries(entries[0].1.as_str()) {
                    None => None,
                    Some(inner) => {
                        proof {
                            assert(entries_view(inner@) =~= json_object_of(
                                entries@[0].1@,
                            ).unwrap());
                        }
                        let o = match find_key(&inner, &String::from_str("offset")) {
                            Some(sp) => match json_u64(sp.as_str()) {
                                Some(v) => v,
                                None => {
                                    return None;
                                },
                            },
                            None => {
                                return None;
                            },
                        };
                        let b = match find_key(&inner, &String::from_str("bytes")) {
                            Some(sp) => match json_string(sp.as_str()) {
                                Some(v) => v,
                                None => {
                                    return None;
                                },
                            },
                            None => {
                                return None;
                            },
                        };
                        Some(Filter::Memcmp { offset: o, bytes: b })
                    },
                }
            } else {
                None
            }
        },
    }
}

/// Spec-level contents of a vector of raw spans.
pub open spec fn spans_view(v: Seq<String>) -> Seq<Seq<char>> {
    v.map(|i: int, s: String| s@)
}

/// Spec-level contents of a vector of filters.
pub open spec fn filters_view(v: Seq<Filter>) -> Seq<FilterView> {
    v.map(|i: int, f: Filter| f@)
}

/// The filter list a sequence of raw spans stands for; `None` as soon as
/// one descriptor is malformed.
pub open spec fn spec_filter_list(elems: Seq<Seq<char>>) -> Option<Seq<FilterView>>
    decreases elems.len(),
{
    if elems.len() == 0 {
        Some(Seq::empty())
    } else {
        match spec_filter(elems[0]) {
            None => None,
            Some(f) => match spec_filter_list(elems.drop_first()) {
                None => None,
                Some(rest) => Some(seq![f] + rest),
            },
        }
    }
}

/// The filter list a raw JSON span stands for: an array of descriptors.
pub open spec fn spec_filters(s: Seq<char>) -> Option<Seq<FilterView>> {
    match json_array_of(s) {
        None => None,
        Some(elems) => spec_filter_list(elems),
    }
}

fn decode_filter_list(elems: &Vec<String>, i: usize) -> (r: Option<Vec<Filter>>)
    requires
        i <= elems@.len(),
    ensures
        match r {
            Some(v) => Some(filters_view(v@)) == spec_filter_list(spans_view(elems@).skip(i as int)),
            None => spec_filter_list(spans_view(elems@).skip(i as int)) is None,
        },
    decreases elems@.len() - i,
{
    proof {
        assert(spans_view(elems@).len() == elems@.len());
    }
    if i == elems.len() {
        let v: Vec<Filter> = Vec::new();
        proof {
            assert(spans_view(elems@).skip(i as int) =~= Seq::<Seq<char>>::empty());
            assert(filters_view(v@) =~= Seq::<FilterView>::empty());
        }
        Some(v)
    } else {
        proof {
            assert(spans_view(elems@).skip(i as int)[0] == spans_view(elems@)[i as int]);
            assert(spans_view(elems@).skip(i as int).drop_first() =~= spans_view(elems@).skip(
                i + 1,
            ));
        }
        match decode_filter(elems[i].as_str()) {
            None => None,
            Some(f) => match decode_filter_list(elems, i + 1) {
                None => None,
                Some(mut rest) => {
                    rest.insert(0, f);
                    proof {
                        assert(filters_view(rest@) =~= seq![f@] + filters_view(
                            rest@.drop_first(),
                        ));
                    }
                    Some(rest)
                },
            },
        }
    }
}

/// Decodes a `filters` value from its raw JSON span.
pub fn decode_filters(s: &str) -> (r: Option<Vec<Filter>>)
    ensures
        r is Some <==> spec_filters(s@) is Some,
        r matches Some(v) ==> Some(filters_view(v@)) == spec_filters(s@),
{
    match json_array_elems(s) {
        Err(_) => None,
        Ok(elems) => {
            proof {
                assert(spans_view(elems@) =~= json_array_of(s@).unwrap());
                assert(spans_view(elems@).skip(0) =~= spans_view(elems@));
            }
            decode_filter_list(&elems, 0)
        },
    }
}

/// A method-specific configuration object: its default and its decoding
/// from the raw span of the second positional parameter.
pub trait ParamsConfig: View + Sized {
    /// The configuration that an absent config object stands for.
    spec fn spec_default() -> Self::V;

    /// The configuration a raw JSON span stands for, or `None` when the
    /// span is not a well-formed config object for this method.
    spec fn spec_decode(s: Seq<char>) -> Option<Self::V>;

    /// The per-method default configuration.
    fn default_config() -> (r: Self)
        ensures
            r@ == Self::spec_default(),
    ;

    /// Decodes the config object from its raw JSON span.
    fn decode_config(s: &str) -> (r: Option<Self>)
        ensures
            r is Some <==> Self::spec_decode(s@) is Some,
            r matches Some(c) ==> Some(c@) == Self::spec_decode(s@),
    ;
}

/// Configuration of an account-info request.
#[derive(Clone, Copy, Debug, PartialEq)]
pub struct AccountInfoConfig {
    pub encoding: Encoding,
    pub commitment: Option<CommitmentConfig>,
    pub data_slice: Option<Slice>,
}

impl View for AccountInfoConfig {
    type V = AccountInfoConfig;

    open spec fn view(&self) -> AccountInfoConfig {
        *self
    }
}

impl Default for AccountInfoConfig {
    /// Account-info requests default to base58 encoding, no commitment and
    /// no data slice.
    fn default() -> (r: Self)
        ensures
            r == AccountInfoConfig::spec_default(),
    {
        AccountInfoConfig { encoding: Encoding::Base58, commitment: None, data_slice: None }
    }
}

/// Decodes the `encoding` key of a config object, with the given default
/// when the key is absent.
pub open spec fn spec_encoding_key(
    obj: Seq<(Seq<char>, Seq<char>)>,
    dflt: Encoding,
) -> Option<Encoding> {
    match lookup(obj, "encoding"@) {
        None => Some(dflt),
        Some(sp) => spec_encoding(sp),
    }
}

/// Decodes the `commitment` key of a config object; absent means unset.
pub open spec fn spec_commitment_key(obj: Seq<(Seq<char>, Seq<char>)>) -> Option<
    Option<CommitmentConfig>,
> {
    match lookup(obj, "commitment"@) {
        None => Some(None),
        Some(sp) => match spec_commitment_level(sp) {
            None => None,
            Some(c) => Some(Some(CommitmentConfig { commitment: c })),
        },
    }
}

/// Decodes the `dataSlice` key of a config object; absent means unset.
pub open spec fn spec_slice_key(obj: Seq<(Seq<char>, Seq<char>)>) -> Option<Option<Slice>> {
    match lookup(obj, "dataSlice"@) {
        None => Some(None),
        Some(sp) => match spec_slice(sp) {
            None => None,
            Some(sl) => Some(Some(sl)),
        },
    }
}

impl ParamsConfig for AccountInfoConfig {
    open spec fn spec_default() -> AccountInfoConfig {
        AccountInfoConfig { encoding: Encoding::Base58, commitment: None, data_slice: None }
    }

    open spec fn spec_decode(s: Seq<char>) -> Option<AccountInfoConfig> {
        match json_object_of(s) {
            None => None,
            Some(obj) => match (
                spec_encoding_key(obj, Encoding::Base58),
                spec_commitment_key(obj),
                spec_slice_key(obj),
            ) {
                (Some(e), Some(c), Some(d)) => Some(
                    AccountInfoConfig { encoding: e, commitment: c, data_slice: d },
                ),
                _ => None,
            },
        }
    }

    fn default_config() -> (r: Self) {
        AccountInfoConfig { encoding: Encoding::Base58, commitment: None, data_slice: None }
    }

    fn decode_config(s: &str) -> (r: Option<Self>) {
        match json_object_entries(s) {
            None => None,
            Some(entries) => {
                proof {
                    assert(entries_view(entries@) =~= json_object_of(s@).unwrap());
                }
                let encoding = match find_key(&entries, &String::from_str("encoding")) {
                    None => Encoding::Base58,
                    Some(sp) => match decode_encoding(sp.as_str()) {
                        Some(e) => e,
                        None => {
                            return None;
                        },
                    },
                };
                let commitment = match find_key(&entries, &String::from_str("commitment")) {
                    None => None,
                    Some(sp) => match decode_commitment_level(sp.as_str()) {
                        Some(c) => Some(CommitmentConfig { commitment: c }),
                        None => {
                            return None;
                        },
                    },
                };
                let data_slice = match find_key(&entries, &String::from_str("dataSlice")) {
                    None => None,
                    Some(sp) => match decode_slice(sp.as_str()) {
                        Some(sl) => Some(sl),
                        None => {
                            return None;
                        },
                    },
                };
                Some(AccountInfoConfig { encoding, commitment, data_slice })
            },
        }
    }
}

/// Configuration of a program-accounts request.  `filters` keeps the raw
/// filter descriptors exactly as decoded; the normalization verdict lives on
/// the built request, not here.
#[derive(Clone, Debug, PartialEq)]
pub struct ProgramAccountsConfig {
    pub encoding: Encoding,
    pub commitment: Option<CommitmentConfig>,
    pub data_slice: Option<Slice>,
    pub filters: Option<Vec<Filter>>,
    pub with_context: Option<bool>,
}

/// Spec-level value of a [`ProgramAccountsConfig`].
pub struct ProgramAccountsConfigView {
    pub encoding: Encoding,
    pub commitment: Option<CommitmentConfig>,
    pub data_slice: Option<Slice>,
    pub filters: Option<Seq<FilterView>>,
    pub with_context: Option<bool>,
}

impl View for ProgramAccountsConfig {
    type V = ProgramAccountsConfigView;

    open spec fn view(&self) -> ProgramAccountsConfigView {
        ProgramAccountsConfigView {
            encoding: self.encoding,
            commitment: self.commitment,
            data_slice: self.data_slice,
            filters: match self.filters {
                None => None,
                Some(v) => Some(filters_view(v@)),
            },
            with_context: self.with_context,
        }
    }
}

impl Default for ProgramAccountsConfig {
    /// Program-accounts requests default to the `Default` encoding tag —
    /// deliberately distinct from the account-info default.
    fn default() -> (r: Self)
        ensures
            r@ == ProgramAccountsConfig::spec_default(),
    {
        ProgramAccountsConfig {
            encoding: Encoding::Default,
            commitment: None,
            data_slice: None,
            filters: None,
            with_context: None,
        }
    }
}

/// Decodes the `filters` key of a config object; absent means unset.
pub open spec fn spec_filters_key(obj: Seq<(Seq<char>, Seq<char>)>) -> Option<
    Option<Seq<FilterView>>,
> {
    match lookup(obj, "filters"@) {
        None => Some(None),
        Some(sp) => match spec_filters(sp) {
            None => None,
            Some(fs) => Some(Some(fs)),
        },
    }
}

/// Decodes the `withContext` key of a config object; absent means unset.
pub open spec fn spec_with_context_key(obj: Seq<(Seq<char>, Seq<char>)>) -> Option<Option<bool>> {
    match lookup(obj, "withContext"@) {
        None => Some(None),
        Some(sp) => match json_bool_of(sp) {
            None => None,
            Some(b) => Some(Some(b)),
        },
    }
}

impl ParamsConfig for ProgramAccountsConfig {
    open spec fn spec_default() -> ProgramAccountsConfigView {
        ProgramAccountsConfigView {
            encoding: Encoding::Default,
            commitment: None,
            data_slice: None,
            filters: None,
            with_context: None,
        }
    }

    open spec fn spec_decode(s: Seq<char>) -> Option<ProgramAccountsConfigView> {
        match json_object_of(s) {
            None => None,
            Some(obj) => match (
                spec_encoding_key(obj, Encoding::Default),
                spec_commitment_key(obj),
                spec_slice_key(obj),
                spec_filters_key(obj),
                spec_with_context_key(obj),
            ) {
                (Some(e), Some(c), Some(d), Some(f), Some(w)) => Some(
                    ProgramAccountsConfigView {
                        encoding: e,
                        commitment: c,
                        data_slice: d,
                        filters: f,
                        with_context: w,
                    },
                ),
                _ => None,
            },
        }
    }

    fn default_config() -> (r: Self) {
        ProgramAccountsConfig {
            encoding: Encoding::Default,
            commitment: None,
            data_slice: None,
            filters: None,
            with_context: None,
        }
    }

    fn decode_config(s: &str) -> (r: Option<Self>) {
        match json_object_entries(s) {
            None => None,
            Some(entries) => {
                proof {
                    assert(entries_view(entries@) =~= json_object_of(s@).unwrap());
                }
                let encoding = match find_key(&entries, &String::from_str("encoding")) {
                    None => Encoding::Default,
                    Some(sp) => match decode_encoding(sp.as_str()) {
                        Some(e) => e,
                        None => {
                            return None;
                        },
                    },
                };
                let commitment = match find_key(&entries, &String::from_str("commitment")) {
                    None => None,
                    Some(sp) => match decode_commitment_level(sp.as_str()) {
                        Some(c) => Some(CommitmentConfig { commitment: c }),
                        None => {
                            return None;
                        },
                    },
                };
                let data_slice = match find_key(&entries, &String::from_str("dataSlice")) {
                    None => None,
                    Some(sp) => match decode_slice(sp.as_str()) {
                        Some(sl) => Some(sl),
                        None => {
                            return None;
                        },
                    },
                };
                let filters = match find_key(&entries, &String::from_str("filters")) {
                    None => None,
                    Some(sp) => match decode_filters(sp.as_str()) {
                        Some(fs) => Some(fs),
                        None => {
                            return None;
                        },
                    },
                };
                let with_context = match find_key(&entries, &String::from_str("withContext")) {
                    None => None,
                    Some(sp) => match json_bool(sp.as_str()) {
                        Some(b) => Some(b),
                        None => {
                            return None;
                        },
                    },
                };
                Some(
                    ProgramAccountsConfig {
                        encoding,
                        commitment,
                        data_slice,
                        filters,
                        with_context,
                    },
                )
            },
        }
    }
}

/// The two method defaults pick different encodings: account-info requests
/// fall back to base58, program-accounts requests to the distinct
/// `Default` tag.
pub proof fn lemma_encoding_defaults_differ()
    ensures
        AccountInfoConfig::spec_default().encoding == Encoding::Base58,
        ProgramAccountsConfig::spec_default().encoding == Encoding::Default,
        AccountInfoConfig::spec_default().encoding != ProgramAccountsConfig::spec_default().encoding,
{
}

} // verus!

use rpc_ingest::config::{AccountInfoConfig, ParamsConfig, ProgramAccountsConfig};
use rpc_ingest::context::{decode_context_wrapper, MaybeContext};
use rpc_ingest::request::{
    Error, GetAccountInfo, GetProgramAccounts, ProgramAccountsParts, Request,
};
use rpc_ingest::types::{
    Commitment, CommitmentConfig, Encoding, Filter, Filters, Id, MaybeFilters, Slice,
};

const PK: &str = "11111111111111111111111111111111";

fn envelope(params: &str) -> Request {
    let raw = format!(
        "{{\"jsonrpc\":\"2.0\",\"id\":1,\"method\":\"getAccountInfo\",\"params\":{}}}",
        params
    );
    Request::parse(&raw).expect("envelope should parse")
}

#[test]
fn envelope_fields_come_through() {
    let req = envelope("[\"abc\"]");
    assert_eq!(req.jsonrpc, "2.0");
    assert_eq!(req.id, Id::Num(1));
    assert_eq!(req.method, "getAccountInfo");
    assert_eq!(req.params.as_deref(), Some("[\"abc\"]"));
}

#[test]
fn envelope_id_shapes() {
    let r = Request::parse("{\"jsonrpc\":\"2.0\",\"id\":null,\"method\":\"m\"}").unwrap();
    assert_eq!(r.id, Id::Null);
    assert_eq!(r.params, None);
    let r = Request::parse("{\"jsonrpc\":\"2.0\",\"id\":\"seven\",\"method\":\"m\"}").unwrap();
    assert_eq!(r.id, Id::Str("seven".to_string()));
}

#[test]
fn envelope_outer_shape_is_enforced() {
    // not an object
    assert!(Request::parse("[1,2]").is_err());
    // method missing
    assert!(Request::parse("{\"jsonrpc\":\"2.0\",\"id\":1}").is_err());
    // id of an unsupported shape
    assert!(Request::parse("{\"jsonrpc\":\"2.0\",\"id\":-4,\"method\":\"m\"}").is_err());
    // params content is never judged by the envelope parser
    assert!(Request::parse("{\"jsonrpc\":\"2.0\",\"id\":1,\"method\":\"m\",\"params\":3}").is_ok());
}

#[test]
fn single_argument_gets_default_config() {
    let req = envelope(&format!("[\"{}\"]", PK));
    let g = GetAccountInfo::from_request(&req).expect("should parse");
    assert_eq!(g.config, AccountInfoConfig::default());
    assert_eq!(g.config.encoding, Encoding::Base58);
    assert_eq!(g.pubkey.text, PK);
    assert_eq!(g.pubkey.bytes, vec![0u8; 32]);
}

#[test]
fn empty_params_is_not_enough_arguments() {
    let req = envelope("[]");
    let e = GetAccountInfo::from_request(&req).unwrap_err();
    assert_eq!(e, Error::NotEnoughArguments(Id::Num(1)));
    let e = ProgramAccountsParts::from_request(&req).unwrap_err();
    assert_eq!(e, Error::NotEnoughArguments(Id::Num(1)));
}

#[test]
fn absent_params_is_not_enough_arguments() {
    let req = Request::parse("{\"jsonrpc\":\"2.0\",\"id\":7,\"method\":\"getAccountInfo\"}")
        .unwrap();
    let e = GetAccountInfo::from_request(&req).unwrap_err();
    assert_eq!(e, Error::NotEnoughArguments(Id::Num(7)));
    let e = ProgramAccountsParts::from_request(&req).unwrap_err();
    assert_eq!(e, Error::NotEnoughArguments(Id::Num(7)));
}

#[test]
fn three_params_report_the_observed_length() {
    let req = envelope("[\"abc\",\"not-an-object\",7]");
    let e = GetAccountInfo::from_request(&req).unwrap_err();
    assert_eq!(
        e,
        Error::InvalidParam {
            req_id: Id::Num(1),
            message: "Invalid parameters: Expected from 1 to 2 parameters".to_string(),
            data: Some("Got 3".to_string()),
        }
    );
}

#[test]
fn ten_params_report_got_ten() {
    let req = envelope("[1,2,3,4,5,6,7,8,9,10]");
    match GetAccountInfo::from_request(&req).unwrap_err() {
        Error::InvalidParam { data, .. } => assert_eq!(data, Some("Got 10".to_string())),
        other => panic!("unexpected error {:?}", other),
    }
}

#[test]
fn malformed_identifier_is_wrong_size() {
    // decodes in base58, but not to 32 bytes
    let req = envelope("[\"abc\"]");
    let e = GetAccountInfo::from_request(&req).unwrap_err();
    assert_eq!(
        e,
        Error::InvalidParam {
            req_id: Id::Num(1),
            message: "Invalid param: WrongSize".to_string(),
            data: None,
        }
    );
    // not base58 at all (0 is outside the alphabet)
    let req = envelope("[\"0000\"]");
    match GetAccountInfo::from_request(&req).unwrap_err() {
        Error::InvalidParam { message, .. } => assert_eq!(message, "Invalid param: WrongSize"),
        other => panic!("unexpected error {:?}", other),
    }
}

#[test]
fn non_array_params_pass_the_decoder_error_through() {
    let req = envelope("{\"a\":1}");
    match GetAccountInfo::from_request(&req).unwrap_err() {
        Error::ParseError(_) => {}
        other => panic!("unexpected error {:?}", other),
    }
}

#[test]
fn malformed_config_is_invalid_params() {
    let req = envelope(&format!("[\"{}\",\"not-an-object\"]", PK));
    let e = GetAccountInfo::from_request(&req).unwrap_err();
    assert_eq!(
        e,
        Error::InvalidParam {
            req_id: Id::Num(1),
            message: "Invalid params: invalid configuration object".to_string(),
            data: None,
        }
    );
}

#[test]
fn full_config_decodes_field_by_field() {
    let req = envelope(&format!(
        "[\"{}\",{{\"encoding\":\"base64\",\"commitment\":\"confirmed\",\"dataSlice\":{{\"offset\":4,\"length\":9}}}}]",
        PK
    ));
    let g = GetAccountInfo::from_request(&req).unwrap();
    assert_eq!(g.config.encoding, Encoding::Base64);
    assert_eq!(
        g.config.commitment,
        Some(CommitmentConfig { commitment: Commitment::Confirmed })
    );
    assert_eq!(g.config.data_slice, Some(Slice { offset: 4, length: 9 }));
    assert_eq!(g.commitment(), Commitment::Confirmed);
}

#[test]
fn bad_encoding_value_fails_the_config() {
    let req = envelope(&format!("[\"{}\",{{\"encoding\":\"base59\"}}]", PK));
    assert!(GetAccountInfo::from_request(&req).is_err());
}

#[test]
fn absent_encoding_defaults_differ_per_method() {
    let span = format!("[\"{}\",{{\"commitment\":\"processed\"}}]", PK);
    let req = envelope(&span);
    let g = GetAccountInfo::from_request(&req).unwrap();
    assert_eq!(g.config.encoding, Encoding::Base58);
    let p = ProgramAccountsParts::from_request(&req).unwrap();
    assert_eq!(p.config.encoding, Encoding::Default);
    assert_ne!(
        AccountInfoConfig::default().encoding,
        ProgramAccountsConfig::default().encoding
    );
}

#[test]
fn absent_commitment_resolves_to_finalized() {
    let req = envelope(&format!("[\"{}\"]", PK));
    let g = GetAccountInfo::from_request(&req).unwrap();
    assert_eq!(g.config.commitment, None);
    assert_eq!(g.commitment(), Commitment::Finalized);
    let p = ProgramAccountsParts::from_request(&req).unwrap();
    let gpa = GetProgramAccounts::from_parts(p, None);
    assert_eq!(gpa.commitment(), Commitment::Finalized);
}

#[test]
fn identical_param_spans_share_a_fingerprint() {
    let a = Request::parse(
        "{\"jsonrpc\":\"2.0\",\"id\":1,\"method\":\"getAccountInfo\",\"params\":[\"abc\", {}]}",
    )
    .unwrap();
    let b = Request::parse(
        "{\"jsonrpc\":\"2.0\",\"id\":99,\"method\":\"other\",\"params\":[\"abc\", {}]}",
    )
    .unwrap();
    assert_eq!(a.params, b.params);
    let req1 = envelope(&format!("[\"{}\"]", PK));
    let req2 = envelope(&format!("[\"{}\"]", PK));
    let g1 = GetAccountInfo::from_request(&req1).unwrap();
    let g2 = GetAccountInfo::from_request(&req2).unwrap();
    assert_eq!(g1.config_hash, g2.config_hash);
}

#[test]
fn whitespace_changes_the_fingerprint() {
    let tight = envelope(&format!("[\"{}\"]", PK));
    let spaced = envelope(&format!("[ \"{}\" ]", PK));
    let g1 = GetAccountInfo::from_request(&tight).unwrap();
    let g2 = GetAccountInfo::from_request(&spaced).unwrap();
    assert_ne!(g1.config_hash, g2.config_hash);
}

#[test]
fn hash_matches_the_published_fnv1a_vectors() {
    assert_eq!(rpc_ingest::hashing::hash_bytes(b""), 0xcbf29ce484222325);
    assert_eq!(rpc_ingest::hashing::hash_bytes(b"a"), 0xaf63dc4c8601ec8c);
    assert_eq!(rpc_ingest::hashing::hash_bytes(b"foobar"), 0x85944171f73967e8);
}

#[test]
fn filters_decode_and_survive_the_gate() {
    let req = envelope(&format!(
        "[\"{}\",{{\"filters\":[{{\"dataSize\":128}},{{\"memcmp\":{{\"offset\":0,\"bytes\":\"abc\"}}}}]}}]",
        PK
    ));
    let p = ProgramAccountsParts::from_request(&req).unwrap();
    let raw = vec![
        Filter::DataSize(128),
        Filter::Memcmp { offset: 0, bytes: "abc".to_string() },
    ];
    assert_eq!(p.raw_filters(), &Some(raw.clone()));

    // the collaborator rejects: not an error, raw list preserved
    let gpa = GetProgramAccounts::from_parts(p.clone(), None);
    assert!(!gpa.valid_filters);
    assert_eq!(gpa.filters, None);
    assert_eq!(gpa.config.filters, Some(raw.clone()));

    // the collaborator accepts: its set is taken over
    let blessed = Filters { entries: vec![Filter::DataSize(128)] };
    let gpa = GetProgramAccounts::from_parts(p, Some(blessed.clone()));
    assert!(gpa.valid_filters);
    assert_eq!(gpa.filters, Some(blessed));
}

#[test]
fn the_gate_itself_keeps_the_raw_list() {
    let raw = vec![Filter::DataSize(1), Filter::DataSize(2)];
    assert_eq!(
        MaybeFilters::from_verdict(raw.clone(), None),
        MaybeFilters::Invalid(raw.clone())
    );
    let blessed = Filters { entries: raw.clone() };
    assert_eq!(
        MaybeFilters::from_verdict(raw, Some(blessed.clone())),
        MaybeFilters::Valid(blessed)
    );
}

#[test]
fn malformed_filter_fails_the_config() {
    let req = envelope(&format!("[\"{}\",{{\"filters\":[{{\"sizeData\":128}}]}}]", PK));
    assert!(ProgramAccountsParts::from_request(&req).is_err());
}

#[test]
fn with_context_flag_decodes() {
    let req = envelope(&format!("[\"{}\",{{\"withContext\":true}}]", PK));
    let p = ProgramAccountsParts::from_request(&req).unwrap();
    assert_eq!(p.config.with_context, Some(true));
}

#[test]
fn extra_envelope_fields_are_ignored() {
    let r = Request::parse(
        "{\"jsonrpc\":\"2.0\",\"id\":1,\"method\":\"m\",\"extra\":[1,2],\"params\":[\"x\"]}",
    )
    .unwrap();
    assert_eq!(r.method, "m");
    assert_eq!(r.params.as_deref(), Some("[\"x\"]"));
}

#[test]
fn extra_config_keys_are_ignored() {
    let req = envelope(&format!("[\"{}\",{{\"encoding\":\"base58\",\"whatever\":3}}]", PK));
    let g = GetAccountInfo::from_request(&req).unwrap();
    assert_eq!(g.config.encoding, Encoding::Base58);
    assert_eq!(g.config.commitment, None);
}

#[test]
fn context_wrapper_splits_slot_and_value() {
    let r = decode_context_wrapper("{\"context\":{\"slot\":42},\"value\":{\"foo\":1}}");
    let (slot, value) = r.into_slot_and_value();
    assert_eq!(slot, Some(42));
    assert_eq!(value, "{\"foo\":1}");

    let r = decode_context_wrapper("{\"foo\":1}");
    let (slot, value) = r.into_slot_and_value();
    assert_eq!(slot, None);
    assert_eq!(value, "{\"foo\":1}");
}

#[test]
fn context_wrapper_falls_back_on_odd_shapes() {
    // context present but malformed: the whole span is the bare value
    let raw = "{\"context\":5,\"value\":1}";
    let (slot, value) = decode_context_wrapper(raw).into_slot_and_value();
    assert_eq!(slot, None);
    assert_eq!(value, raw);
    // not an object at all
    let (slot, value) = decode_context_wrapper("[4]").into_slot_and_value();
    assert_eq!(slot, None);
    assert_eq!(value, "[4]");
    // built wrappers behave like decoded ones
    let m = MaybeContext::Without(7u64);
    assert_eq!(m.into_slot_and_value(), (None, 7u64));
}

#[test]
fn diagnostics_name_method_pubkey_and_commitment() {
    let req = envelope(&format!("[\"{}\"]", PK));
    let g = GetAccountInfo::from_request(&req).unwrap();
    assert_eq!(
        g.display_string(),
        format!("getAccountInfo {{ pubkey: {}, commitment: Finalized }}", PK)
    );
    let p = ProgramAccountsParts::from_request(&req).unwrap();
    let gpa = GetProgramAccounts::from_parts(p, None);
    assert_eq!(
        gpa.display_string(),
        format!("getProgramAccounts {{ pubkey: {}, commitment: Finalized }}", PK)
    );
}

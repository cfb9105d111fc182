use asq::json::{find, Json};
use asq::model::{AsAsn, AsData, AsPrefix, AsResponse, LookupResult};
use asq::presenter::{format_line, format_listing, present, report_failure, ExitStatus};
use asq::resolver::{check_status, parse_failed, resolve_parsed};
use asq::schema::{
    decode_array, decode_asn, decode_data, decode_item, decode_number, decode_object,
    decode_prefix, decode_prefixes, decode_response, decode_text, SchemaError,
};

fn text(value: &str) -> Json {
    Json::Text(value.to_string())
}

fn object(members: Vec<(&str, Json)>) -> Json {
    Json::Object(members.into_iter().map(|(name, value)| (name.to_string(), value)).collect())
}

fn members(members: Vec<(&str, Json)>) -> Vec<(String, Json)> {
    members.into_iter().map(|(name, value)| (name.to_string(), value)).collect()
}

fn asn_members(name: &str) -> Vec<(&'static str, Json)> {
    vec![
        ("asn", Json::Unsigned(2686)),
        ("name", text(name)),
        ("description", text("IBM - Events Infrastructure")),
        ("country_code", text("US")),
    ]
}

fn prefix_members(name: &str) -> Vec<(&'static str, Json)> {
    vec![
        ("prefix", text("129.42.0.0/16")),
        ("ip", text("129.42.0.0")),
        ("cidr", Json::Unsigned(16)),
        ("asn", object(asn_members(name))),
        ("name", text("IBM")),
        ("description", text("International Business Machines")),
        ("country_code", text("US")),
    ]
}

fn asn(name: &str) -> AsAsn {
    AsAsn {
        asn: 2686,
        name: name.to_string(),
        description: "IBM - Events Infrastructure".to_string(),
        country_code: "US".to_string(),
    }
}

fn prefix(name: &str) -> AsPrefix {
    AsPrefix {
        prefix: "129.42.0.0/16".to_string(),
        ip: "129.42.0.0".to_string(),
        cidr: 16,
        asn: asn(name),
        name: "IBM".to_string(),
        description: "International Business Machines".to_string(),
        country_code: "US".to_string(),
    }
}

fn reply(status: &str, prefixes: Vec<Json>) -> Json {
    object(vec![
        ("status", text(status)),
        ("status_message", text("Query was successful")),
        ("data", object(vec![("prefixes", Json::Array(prefixes))])),
    ])
}

fn without(members: Vec<(&'static str, Json)>, name: &str) -> Vec<(&'static str, Json)> {
    members.into_iter().filter(|(key, _)| *key != name).collect()
}

#[test]
fn find_gives_the_first_member_of_a_name() {
    let all = members(vec![("a", Json::Unsigned(1)), ("b", Json::Null), ("a", Json::Unsigned(2))]);
    assert_eq!(find(&all, "a"), Some(&Json::Unsigned(1)));
    assert_eq!(find(&all, "b"), Some(&Json::Null));
    assert_eq!(find(&all, "c"), None);
    assert_eq!(find(&all, ""), None);
    assert_eq!(find(&all, "A"), None);
    assert_eq!(find(&Vec::new(), "a"), None);
}

#[test]
fn accessors_tell_the_kinds_apart() {
    let docs = [
        Json::Null,
        Json::Bool(true),
        Json::Unsigned(7),
        Json::Negative(-7),
        Json::Decimal,
        text("seven"),
        Json::Array(vec![Json::Null]),
        object(vec![("seven", Json::Null)]),
    ];
    let seven = "seven".to_string();
    let items = vec![Json::Null];
    let members = vec![("seven".to_string(), Json::Null)];
    for (i, doc) in docs.iter().enumerate() {
        assert_eq!(doc.unsigned(), if i == 2 { Some(7) } else { None });
        assert_eq!(doc.text(), if i == 5 { Some(&seven) } else { None });
        assert_eq!(doc.items(), if i == 6 { Some(&items) } else { None });
        assert_eq!(doc.members(), if i == 7 { Some(&members) } else { None });
    }
}

#[test]
fn member_decoders_report_absence_and_type() {
    let all = members(vec![
        ("t", text("x")),
        ("n", Json::Unsigned(4294967295)),
        ("big", Json::Unsigned(4294967296)),
        ("neg", Json::Negative(-1)),
        ("dec", Json::Decimal),
        ("o", object(vec![("k", Json::Null)])),
        ("a", Json::Array(vec![Json::Bool(false)])),
    ]);
    assert_eq!(decode_text(&all, "t"), Ok("x".to_string()));
    assert_eq!(decode_text(&all, "n"), Err(SchemaError::Mismatch("n".to_string())));
    assert_eq!(decode_text(&all, "zz"), Err(SchemaError::Missing("zz".to_string())));
    assert_eq!(decode_number(&all, "n"), Ok(4294967295));
    assert_eq!(decode_number(&all, "big"), Err(SchemaError::Mismatch("big".to_string())));
    assert_eq!(decode_number(&all, "neg"), Err(SchemaError::Mismatch("neg".to_string())));
    assert_eq!(decode_number(&all, "dec"), Err(SchemaError::Mismatch("dec".to_string())));
    assert_eq!(decode_number(&all, "t"), Err(SchemaError::Mismatch("t".to_string())));
    assert_eq!(decode_number(&all, "zz"), Err(SchemaError::Missing("zz".to_string())));
    assert_eq!(decode_object(&all, "o"), Ok(&vec![("k".to_string(), Json::Null)]));
    assert_eq!(decode_object(&all, "a"), Err(SchemaError::Mismatch("a".to_string())));
    assert_eq!(decode_object(&all, "zz"), Err(SchemaError::Missing("zz".to_string())));
    assert_eq!(decode_array(&all, "a"), Ok(&vec![Json::Bool(false)]));
    assert_eq!(decode_array(&all, "o"), Err(SchemaError::Mismatch("o".to_string())));
    assert_eq!(decode_array(&all, "zz"), Err(SchemaError::Missing("zz".to_string())));
}

#[test]
fn asn_is_decoded_field_by_field() {
    assert_eq!(decode_asn(&members(asn_members("IBM-EI"))), Ok(asn("IBM-EI")));
    for name in ["asn", "name", "description", "country_code"] {
        assert_eq!(
            decode_asn(&members(without(asn_members("IBM-EI"), name))),
            Err(SchemaError::Missing(name.to_string()))
        );
    }
    assert_eq!(decode_asn(&Vec::new()), Err(SchemaError::Missing("asn".to_string())));
}

#[test]
fn prefix_is_decoded_field_by_field() {
    assert_eq!(decode_prefix(&members(prefix_members("IBM-EI"))), Ok(prefix("IBM-EI")));
    for name in ["prefix", "ip", "cidr", "asn", "name", "description", "country_code"] {
        assert_eq!(
            decode_prefix(&members(without(prefix_members("IBM-EI"), name))),
            Err(SchemaError::Missing(name.to_string()))
        );
    }
    let mut inner_broken = without(prefix_members("IBM-EI"), "asn");
    inner_broken.push(("asn", object(without(asn_members("IBM-EI"), "country_code"))));
    assert_eq!(
        decode_prefix(&members(inner_broken)),
        Err(SchemaError::Missing("country_code".to_string()))
    );
    let mut asn_is_text = without(prefix_members("IBM-EI"), "asn");
    asn_is_text.push(("asn", text("IBM-EI")));
    assert_eq!(
        decode_prefix(&members(asn_is_text)),
        Err(SchemaError::Mismatch("asn".to_string()))
    );
}

#[test]
fn the_first_missing_member_in_order_is_reported() {
    let two_missing = without(without(prefix_members("IBM-EI"), "description"), "ip");
    assert_eq!(
        decode_prefix(&members(two_missing)),
        Err(SchemaError::Missing("ip".to_string()))
    );
    let mut wrong_then_missing = without(without(prefix_members("IBM-EI"), "prefix"), "name");
    wrong_then_missing.push(("prefix", Json::Unsigned(1)));
    assert_eq!(
        decode_prefix(&members(wrong_then_missing)),
        Err(SchemaError::Mismatch("prefix".to_string()))
    );
}

#[test]
fn items_must_be_objects() {
    assert_eq!(decode_item(&object(prefix_members("A"))), Ok(prefix("A")));
    assert_eq!(decode_item(&text("A")), Err(SchemaError::Mismatch("prefixes".to_string())));
    assert_eq!(
        decode_item(&Json::Array(Vec::new())),
        Err(SchemaError::Mismatch("prefixes".to_string()))
    );
}

#[test]
fn prefixes_keep_their_order() {
    let items = vec![
        object(prefix_members("A")),
        object(prefix_members("B")),
        object(prefix_members("C")),
    ];
    assert_eq!(
        decode_prefixes(&items),
        Ok(AsData { prefixes: vec![prefix("A"), prefix("B"), prefix("C")] })
    );
    assert_eq!(decode_prefixes(&Vec::new()), Ok(AsData { prefixes: Vec::new() }));
    let broken = vec![
        object(prefix_members("A")),
        object(without(prefix_members("B"), "cidr")),
        Json::Null,
    ];
    assert_eq!(decode_prefixes(&broken), Err(SchemaError::Missing("cidr".to_string())));
}

#[test]
fn data_needs_an_array_of_prefixes() {
    let good = members(vec![("data", object(vec![("prefixes", Json::Array(Vec::new()))]))]);
    assert_eq!(decode_data(&good), Ok(AsData { prefixes: Vec::new() }));
    assert_eq!(decode_data(&Vec::new()), Err(SchemaError::Missing("data".to_string())));
    let no_list = members(vec![("data", object(Vec::new()))]);
    assert_eq!(decode_data(&no_list), Err(SchemaError::Missing("prefixes".to_string())));
    let not_a_list = members(vec![("data", object(vec![("prefixes", Json::Null)]))]);
    assert_eq!(decode_data(&not_a_list), Err(SchemaError::Mismatch("prefixes".to_string())));
}

#[test]
fn response_is_decoded_whole() {
    let doc = reply("ok", vec![object(prefix_members("IBM-EI"))]);
    assert_eq!(
        decode_response(&doc),
        Ok(AsResponse {
            status: "ok".to_string(),
            status_message: "Query was successful".to_string(),
            data: AsData { prefixes: vec![prefix("IBM-EI")] },
        })
    );
    assert_eq!(decode_response(&Json::Null), Err(SchemaError::NotAnObject));
    assert_eq!(decode_response(&Json::Array(Vec::new())), Err(SchemaError::NotAnObject));
    assert_eq!(
        decode_response(&object(Vec::new())),
        Err(SchemaError::Missing("status".to_string()))
    );
}

#[test]
fn errors_are_described_in_words() {
    assert_eq!(SchemaError::NotAnObject.message(), "expected an object");
    assert_eq!(
        SchemaError::Missing("country_code".to_string()).message(),
        "missing field `country_code`"
    );
    assert_eq!(
        SchemaError::Mismatch("cidr".to_string()).message(),
        "invalid type for field `cidr`"
    );
}

#[test]
fn status_check_passes_the_data_on() {
    let response = AsResponse {
        status: "ok".to_string(),
        status_message: "m".to_string(),
        data: AsData { prefixes: vec![prefix("A"), prefix("B")] },
    };
    assert_eq!(
        check_status(response),
        LookupResult::Success(AsData { prefixes: vec![prefix("A"), prefix("B")] })
    );
    let refused = AsResponse {
        status: "error".to_string(),
        status_message: "Malformed input".to_string(),
        data: AsData { prefixes: vec![prefix("A")] },
    };
    assert_eq!(
        check_status(refused),
        LookupResult::Failure("Server responded error".to_string())
    );
}

#[test]
fn parsed_documents_are_resolved_without_the_parser() {
    let doc = reply("ok", vec![object(prefix_members("IBM-EI"))]);
    assert_eq!(
        resolve_parsed("the body", Ok(doc)),
        LookupResult::Success(AsData { prefixes: vec![prefix("IBM-EI")] })
    );
    assert_eq!(
        resolve_parsed("the body", Err("expected value at line 1 column 1".to_string())),
        LookupResult::Failure(
            "Could not parse response: expected value at line 1 column 1, the body".to_string()
        )
    );
    assert_eq!(
        resolve_parsed("the body", Ok(Json::Decimal)),
        LookupResult::Failure("Could not parse response: expected an object, the body".to_string())
    );
    assert_eq!(
        resolve_parsed("the body", Ok(reply("down", Vec::new()))),
        LookupResult::Failure("Server responded down".to_string())
    );
    assert_eq!(
        parse_failed("why", "what"),
        LookupResult::Failure("Could not parse response: why, what".to_string())
    );
}

#[test]
fn lines_name_description_and_country() {
    assert_eq!(format_line(&prefix("IBM-EI")), "IBM-EI - IBM - Events Infrastructure - US");
    let bare = AsPrefix {
        asn: AsAsn {
            asn: 0,
            name: String::new(),
            description: String::new(),
            country_code: String::new(),
        },
        ..prefix("x")
    };
    assert_eq!(format_line(&bare), " -  - ");
}

#[test]
fn listing_follows_the_prefixes() {
    assert_eq!(format_listing(&AsData { prefixes: Vec::new() }), "");
    let first = AsData { prefixes: vec![prefix("A"), prefix("B")] };
    let second = AsData { prefixes: vec![prefix("C")] };
    let both = AsData { prefixes: vec![prefix("A"), prefix("B"), prefix("C")] };
    assert_eq!(
        format_listing(&both),
        format!("{}{}", format_listing(&first), format_listing(&second))
    );
    assert_eq!(format_listing(&second), "C - IBM - Events Infrastructure - US\n");
}

#[test]
fn output_uses_the_nested_record_only() {
    let mut odd = prefix("NESTED");
    odd.name = "TOP".to_string();
    odd.description = "top description".to_string();
    odd.country_code = "ZZ".to_string();
    let result = LookupResult::Success(AsData { prefixes: vec![odd] });
    assert_eq!(present(&result, false).stdout, "NESTED\n");
    assert_eq!(present(&result, true).stdout, "NESTED - IBM - Events Infrastructure - US\n");
}

#[test]
fn failures_are_reported_on_the_error_stream() {
    let report = report_failure("Server responded error");
    assert_eq!(report.stdout, "");
    assert_eq!(report.stderr, "Server responded error\n");
    assert_eq!(report.status, ExitStatus::Unavailable);
    let failure = LookupResult::Failure("Server responded error".to_string());
    assert_eq!(present(&failure, false), report);
    assert_eq!(present(&failure, true), report);
}

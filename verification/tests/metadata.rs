use tonic::metadata::MetadataMap;

use grpcknock::metadata::apply_metadata;
use grpcknock::metadata::metadata_fits;
use grpcknock::metadata::MetaPair;
use grpcknock::metadata::MetaParseError;

#[test]
fn metadata_parses_key_and_value() {
    let pair = MetaPair::parse("authorization=Bearer token").unwrap();
    assert_eq!(pair.key(), "authorization");
    assert_eq!(pair.value(), "Bearer token");
}

#[test]
fn metadata_keeps_equals_in_value() {
    let pair = MetaPair::parse("token=a=b=c").unwrap();
    assert_eq!(pair.value(), "a=b=c");
}

#[test]
fn metadata_rejects_missing_equals() {
    assert!(matches!(
        MetaPair::parse("noeq"),
        Err(MetaParseError::MissingEquals(_))
    ));
}

#[test]
fn metadata_rejects_empty_key() {
    assert!(matches!(
        MetaPair::parse("=value"),
        Err(MetaParseError::EmptyKey(_))
    ));
}

#[test]
fn metadata_keys_are_put_in_lower_case() {
    let pair = MetaPair::parse("X-Request-ID=Abc").unwrap();
    assert_eq!(pair.key(), "x-request-id");
    assert_eq!(pair.value(), "Abc");
}

#[test]
fn metadata_rejects_bad_keys() {
    for raw in ["a b=1", "ké=1", "k:=1", "k(=1", "\tk=1", "data-bin=1", "Data-BIN=1"] {
        assert!(
            matches!(
                MetaPair::parse(raw),
                Err(MetaParseError::InvalidKey { .. })
            ),
            "{raw:?}"
        );
    }
}

#[test]
fn metadata_accepts_every_token_character() {
    let key = "!#$%&'*+-.^_`|~0123456789abcdefghijklmnopqrstuvwxyz";
    let pair = MetaPair::parse(&format!("{key}=1")).unwrap();
    assert_eq!(pair.key(), key);
    let pair = MetaPair::parse("ABCDEFGHIJKLMNOPQRSTUVWXYZ=1").unwrap();
    assert_eq!(pair.key(), "abcdefghijklmnopqrstuvwxyz");
}

#[test]
fn metadata_keys_have_a_longest_length() {
    let longest = "k".repeat(65535);
    assert_eq!(
        MetaPair::parse(&format!("{longest}=v")).unwrap().key(),
        longest
    );
    assert!(matches!(
        MetaPair::parse(&format!("{longest}k=v")),
        Err(MetaParseError::InvalidKey { .. })
    ));
}

#[test]
fn metadata_values_hold_tabs_but_no_other_controls() {
    assert_eq!(MetaPair::parse("k=a\tb").unwrap().value(), "a\tb");
    assert_eq!(MetaPair::parse("k=").unwrap().value(), "");
    assert_eq!(MetaPair::parse("k= ~").unwrap().value(), " ~");
    assert_eq!(MetaPair::parse("k=é𝄞\u{80}").unwrap().value(), "é𝄞\u{80}");
    for raw in ["k=a\nb", "k=\u{0}", "k=\u{1f}", "k=\u{7f}", "k=\r"] {
        assert!(
            matches!(
                MetaPair::parse(raw),
                Err(MetaParseError::InvalidValue { .. })
            ),
            "{raw:?}"
        );
    }
}

#[test]
fn metadata_errors_say_what_is_wrong() {
    let message = |raw: &str| MetaPair::parse(raw).unwrap_err().to_string();
    assert_eq!(message("noeq"), "metadata \"noeq\" must be key=value");
    assert_eq!(message("=value"), "metadata \"=value\" has an empty key");
    assert_eq!(
        message("a b=1"),
        "metadata key \"a b\" is not a valid header name: invalid gRPC metadata key name"
    );
    // The value error names the key in its normal form.
    assert_eq!(
        message("Key=a\nb"),
        "metadata value for \"key\" is not valid: failed to parse metadata value"
    );
}

#[test]
fn a_written_pair_reads_back() {
    for raw in ["a=1", "x-y=a=b", "k="] {
        let pair = MetaPair::parse(raw).unwrap();
        assert_eq!(format!("{}={}", pair.key(), pair.value()), raw);
        let copy = pair.clone();
        assert_eq!(copy.key(), pair.key());
        assert_eq!(copy.value(), pair.value());
    }
}

fn pairs(raws: &[&str]) -> Vec<MetaPair> {
    raws.iter().map(|raw| MetaPair::parse(raw).unwrap()).collect()
}

fn headers(pairs: &Vec<MetaPair>) -> MetadataMap {
    let mut md = MetadataMap::new();
    apply_metadata(&mut md, pairs);
    md
}

fn values(md: &MetadataMap, name: &str) -> Vec<String> {
    md.get_all(name)
        .iter()
        .map(|v| v.to_str().unwrap().to_string())
        .collect()
}

#[test]
fn metadata_follows_the_headers_of_a_request() {
    let mut request = tonic::Request::new("message");
    request.metadata_mut().append("k", "0".parse().unwrap());
    request.metadata_mut().append("k", "1".parse().unwrap());
    request.metadata_mut().append("kept", "x".parse().unwrap());
    apply_metadata(
        request.metadata_mut(),
        &pairs(&["k=2", "new=n", "k=1", "new=m"]),
    );
    assert_eq!(values(request.metadata(), "k"), vec!["0", "1", "2", "1"]);
    assert_eq!(values(request.metadata(), "kept"), vec!["x"]);
    assert_eq!(values(request.metadata(), "new"), vec!["n", "m"]);
    assert_eq!(request.metadata().keys_len(), 3);
    assert_eq!(*request.get_ref(), "message");
}

#[test]
fn metadata_may_be_attached_in_two_steps() {
    let mut md = headers(&pairs(&["a=1", "b=2"]));
    apply_metadata(&mut md, &pairs(&["a=3"]));
    let at_once = headers(&pairs(&["a=1", "b=2", "a=3"]));
    for name in ["a", "b"] {
        assert_eq!(values(&md, name), values(&at_once, name));
    }
    assert_eq!(md.len(), at_once.len());
}

#[test]
fn no_pairs_leave_the_headers_as_they_are() {
    let mut md = headers(&pairs(&["a=1"]));
    apply_metadata(&mut md, &Vec::new());
    assert_eq!(md.len(), 1);
    assert_eq!(values(&md, "a"), vec!["1"]);
}

#[test]
fn headers_carry_every_pair() {
    let md = headers(&pairs(&["a=1", "B=2"]));
    assert_eq!(md.len(), 2);
    assert_eq!(md.get("a").unwrap().to_str().unwrap(), "1");
    assert_eq!(md.get("b").unwrap().to_str().unwrap(), "2");
    assert!(md.get("c").is_none());
}

#[test]
fn repeated_headers_keep_their_values_in_order() {
    let md = headers(&pairs(&["k=1", "other=x", "K=2", "k=1"]));
    let values: Vec<&[u8]> = md.get_all("k").iter().map(|v| v.as_bytes()).collect();
    assert_eq!(values, vec![b"1".as_slice(), b"2".as_slice(), b"1".as_slice()]);
    assert_eq!(md.get_all("other").iter().count(), 1);
}

#[test]
fn header_values_are_sent_as_utf8() {
    let md = headers(&pairs(&["k=é"]));
    assert_eq!(md.get("k").unwrap().as_bytes(), "é".as_bytes());
}

#[test]
fn no_pairs_make_no_headers() {
    assert!(headers(&Vec::new()).is_empty());
}

fn numbered(from: usize, to: usize) -> Vec<MetaPair> {
    (from..to)
        .map(|i| MetaPair::parse(&format!("k{i}=v{i}")).unwrap())
        .collect()
}

#[test]
fn the_limit_counts_different_names() {
    let md = headers(&numbered(0, 4000));
    // Names that the headers have already, and names that repeat, do not count.
    assert!(metadata_fits(&md, &numbered(0, 6553)));
    assert!(!metadata_fits(&md, &numbered(0, 6554)));
    assert!(metadata_fits(&md, &numbered(4000, 6553)));
    assert!(!metadata_fits(&md, &numbered(4000, 6554)));
    let mut repeated = numbered(0, 6553);
    repeated.extend(numbered(0, 6553));
    assert!(metadata_fits(&MetadataMap::new(), &repeated));
    assert!(!metadata_fits(&MetadataMap::new(), &numbered(0, 6554)));
}

#[test]
fn full_headers_take_no_other_name() {
    let mut md = headers(&numbered(0, 6553));
    assert!(metadata_fits(&md, &Vec::new()));
    assert!(metadata_fits(&md, &pairs(&["k0=again"])));
    assert!(!metadata_fits(&md, &pairs(&["other=x"])));
    md.insert("other", "x".parse().unwrap());
    assert!(!metadata_fits(&md, &Vec::new()));
}

#[test]
fn many_header_names_fit() {
    let many = numbered(0, 6553);
    assert!(metadata_fits(&MetadataMap::new(), &many));
    let md = headers(&many);
    assert_eq!(md.len(), 6553);
    assert_eq!(md.get("k6552").unwrap().to_str().unwrap(), "v6552");
}

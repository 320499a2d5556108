use vault_iam_auth::headers::{merge_headers, write_json_array, SignedHeaders};
use vault_iam_auth::request::canonical_request;

fn pairs(list: &[(&str, &str)]) -> Vec<(String, String)> {
    list.iter().map(|(name, value)| (String::from(*name), String::from(*value))).collect()
}

fn entry(name: &str, values: &[&str]) -> (String, Vec<String>) {
    (String::from(name), values.iter().map(|v| String::from(*v)).collect())
}

fn distinct_names(list: &[(String, String)]) -> usize {
    let mut names: Vec<&str> = list.iter().map(|p| p.0.as_str()).collect();
    names.sort();
    names.dedup();
    names.len()
}

#[test]
fn merging_nothing_gives_nothing() {
    let merged = merge_headers(&Vec::new(), &Vec::new());
    assert!(merged.entries.is_empty());
    assert_eq!(merged.to_json(), "{}");
}

#[test]
fn merging_lists_the_signers_headers_first() {
    let signed = pairs(&[("x-amz-date", "20150830T123600Z"), ("authorization", "sig")]);
    let canonical = pairs(&[("Host", "sts.amazonaws.com"), ("Content-Length", "43")]);
    let merged = merge_headers(&signed, &canonical);
    assert_eq!(
        merged.entries,
        vec![
            entry("x-amz-date", &["20150830T123600Z"]),
            entry("authorization", &["sig"]),
            entry("Host", &["sts.amazonaws.com"]),
            entry("Content-Length", &["43"]),
        ]
    );
}

#[test]
fn merging_appends_the_values_of_a_shared_name() {
    let signed = pairs(&[("a", "1")]);
    let canonical = pairs(&[("b", "2"), ("a", "3")]);
    let merged = merge_headers(&signed, &canonical);
    assert_eq!(merged.entries, vec![entry("a", &["1", "3"]), entry("b", &["2"])]);
}

#[test]
fn merging_keeps_repeated_values() {
    let signed = pairs(&[("a", "1"), ("a", "1")]);
    let canonical = pairs(&[("a", "1")]);
    let merged = merge_headers(&signed, &canonical);
    assert_eq!(merged.entries, vec![entry("a", &["1", "1", "1"])]);
}

#[test]
fn merging_tells_names_apart_by_case() {
    let signed = pairs(&[("host", "a")]);
    let canonical = pairs(&[("Host", "b")]);
    let merged = merge_headers(&signed, &canonical);
    assert_eq!(merged.entries, vec![entry("host", &["a"]), entry("Host", &["b"])]);
}

#[test]
fn merging_loses_no_header() {
    let signed = pairs(&[("x", "1"), ("y", "2"), ("x", "3"), ("z", "4")]);
    let canonical = pairs(&[("y", "5"), ("w", "6"), ("w", "7")]);
    let merged = merge_headers(&signed, &canonical);

    for (name, value) in signed.iter().chain(canonical.iter()) {
        let listed: Vec<&(String, Vec<String>)> =
            merged.entries.iter().filter(|e| &e.0 == name).collect();
        assert_eq!(listed.len(), 1);
        assert!(listed[0].1.contains(value));
    }
    assert!(merged.entries.len() >= distinct_names(&signed));
    assert!(merged.entries.len() >= distinct_names(&canonical));
    assert_eq!(merged.entries.len(), 4);
    let values: usize = merged.entries.iter().map(|e| e.1.len()).sum();
    assert_eq!(values, signed.len() + canonical.len());
}

#[test]
fn merging_keeps_the_order_of_values_under_a_name() {
    let signed = pairs(&[("k", "first"), ("other", "x"), ("k", "second")]);
    let canonical = pairs(&[("k", "third")]);
    let merged = merge_headers(&signed, &canonical);
    assert_eq!(merged.entries[0], entry("k", &["first", "second", "third"]));
}

#[test]
fn merging_the_identity_check_keeps_the_tag() {
    let request = canonical_request(&Some(String::from("vault.example.com")));
    let signed = pairs(&[("x-amz-date", "20150830T123600Z"), ("authorization", "sig")]);
    let merged = merge_headers(&signed, &request.headers);
    assert_eq!(merged.entries.len(), 6);
    assert_eq!(merged.entries[5], entry("X-Vault-AWS-IAM-Server-ID", &["vault.example.com"]));
}

#[test]
fn append_adds_under_an_old_name_or_lists_a_new_one() {
    let mut headers = SignedHeaders::new();
    headers.append("a", "1");
    headers.append("b", "2");
    headers.append("a", "3");
    assert_eq!(headers.entries, vec![entry("a", &["1", "3"]), entry("b", &["2"])]);
    assert_eq!(headers.find("a"), Some(0));
    assert_eq!(headers.find("b"), Some(1));
    assert_eq!(headers.find("c"), None);
}

#[test]
fn headers_are_written_as_arrays_even_when_single() {
    let merged = merge_headers(&pairs(&[("a", "1")]), &pairs(&[("b", "2"), ("a", "3")]));
    assert_eq!(merged.to_json(), r#"{"a":["1","3"],"b":["2"]}"#);
}

#[test]
fn headers_json_escapes_what_json_must() {
    let merged = merge_headers(&pairs(&[("quo\"te", "back\\slash")]), &pairs(&[("tab", "a\tb")]));
    assert_eq!(merged.to_json(), r#"{"quo\"te":["back\\slash"],"tab":["a\tb"]}"#);
}

#[test]
fn headers_json_reads_back_as_the_same_map() {
    let signed = pairs(&[("x-amz-date", "20150830T123600Z"), ("authorization", "AWS4 a=b, c=d")]);
    let canonical = canonical_request(&Some(String::from("tag \"quoted\""))).headers;
    let merged = merge_headers(&signed, &canonical);
    let parsed: serde_json::Value = serde_json::from_str(&merged.to_json()).unwrap();
    let object = parsed.as_object().unwrap();
    assert_eq!(object.len(), merged.entries.len());
    for (name, values) in merged.entries.iter() {
        let array = object.get(name).unwrap().as_array().unwrap();
        let read: Vec<&str> = array.iter().map(|v| v.as_str().unwrap()).collect();
        assert_eq!(read, values.iter().map(|v| v.as_str()).collect::<Vec<&str>>());
    }
}

#[test]
fn json_array_of_strings() {
    assert_eq!(write_json_array(&Vec::new()), "[]");
    assert_eq!(write_json_array(&vec![String::from("one")]), r#"["one"]"#);
    assert_eq!(
        write_json_array(&vec![String::from("one"), String::from("t\"wo")]),
        r#"["one","t\"wo"]"#
    );
}

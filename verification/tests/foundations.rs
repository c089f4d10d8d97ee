//! Texts, trees, orders, paths, digests and addresses.

use milkdrift_evidence::application::{joined_path, parent_directory};
use milkdrift_evidence::digest::{content_identity, hash_file, is_preserved};
use milkdrift_evidence::endpoint::{
    destination, eq_ignore_case, host_port, loopback, model_destination, profile_destination, UrlHost,
    UrlParts,
};
use milkdrift_evidence::failure::{ensure, Checked};
use milkdrift_evidence::order::{comes_before, file_text, ordered_texts};
use milkdrift_evidence::paths::{
    check_empty, external_output, has_parent_step, is_within, path_components, prepare_output,
    validate_output_path,
};
use milkdrift_evidence::text::{
    contains, contains_bytes, ends_with, join, lines, number_text, parse_number, parse_unsigned, replace, split,
    split_once, split_once_at, starts_with, strip_prefix, strip_suffix, trim, trim_prefixes,
};
use milkdrift_evidence::json::Json;
use serde_json::Value;

fn converted(value: &Value) -> Json {
    match value {
        Value::Null => Json::Null,
        Value::Bool(b) => Json::flag(*b),
        Value::Number(n) => match (n.as_u64(), n.as_i64()) {
            (Some(n), _) => Json::number(n),
            (None, Some(n)) => Json::Negative(n),
            (None, None) => Json::Real(n.to_string()),
        },
        Value::String(s) => Json::text(s),
        Value::Array(v) => Json::List(v.iter().map(converted).collect()),
        Value::Object(m) => {
            Json::Object(m.iter().map(|(k, v)| (k.clone(), converted(v))).collect())
        }
    }
}

fn value(json: &Json) -> Value {
    match json {
        Json::Null => Value::Null,
        Json::Bool(b) => Value::Bool(*b),
        Json::Unsigned(n) => Value::from(*n),
        Json::Negative(n) => Value::from(*n),
        Json::Real(text) => serde_json::from_str(text).unwrap_or(Value::Null),
        Json::Text(text) => Value::String(text.clone()),
        Json::List(items) => Value::Array(items.iter().map(value).collect()),
        Json::Object(entries) => {
            Value::Object(entries.iter().map(|(k, v)| (k.clone(), value(v))).collect())
        }
    }
}

fn parsed(text: &str) -> Value {
    match serde_json::from_str(text) {
        Ok(value) => value,
        Err(error) => panic!("{error}: {text}"),
    }
}

fn json(text: &str) -> Json {
    converted(&parsed(text))
}

fn words(v: &[&str]) -> Vec<String> {
    v.iter().map(|w| (*w).to_owned()).collect()
}

fn message<T>(r: Checked<T>) -> String {
    match r {
        Ok(_) => String::new(),
        Err(failure) => failure.message,
    }
}

fn good<T>(r: Checked<T>) -> T {
    match r {
        Ok(value) => value,
        Err(failure) => panic!("{}", failure.message),
    }
}

#[test]
fn texts_agree_with_the_standard_library() {
    for s in ["", " a b ", "\n\u{2003}x\u{a0}", "a\r\nb\n", "a\rb", "no", "\u{fc}\u{20ac}"] {
        assert_eq!(trim(s), s.trim());
        assert_eq!(lines(s), s.lines().map(str::to_owned).collect::<Vec<String>>());
        assert_eq!(split(s, 'a'), s.split('a').map(str::to_owned).collect::<Vec<String>>());
        assert_eq!(contains(s, "a"), s.contains("a"));
        assert_eq!(starts_with(s, "a"), s.starts_with("a"));
        assert_eq!(ends_with(s, "\n"), s.ends_with("\n"));
        assert_eq!(strip_prefix(s, "a"), s.strip_prefix("a").map(str::to_owned));
        assert_eq!(strip_suffix(s, "\n"), s.strip_suffix("\n").map(str::to_owned));
        assert_eq!(
            split_once(s, 'b'),
            s.split_once('b').map(|(a, b)| (a.to_owned(), b.to_owned()))
        );
        assert_eq!(
            split_once_at(s, "\r\n"),
            s.split_once("\r\n").map(|(a, b)| (a.to_owned(), b.to_owned()))
        );
        assert_eq!(replace(s, "a", "xa"), s.replace("a", "xa"));
    }
    assert_eq!(trim_prefixes("sha256:sha256:x", "sha256:"), "x");
    assert_eq!(join(&words(&["a", "b"]), ", "), "a, b");
    assert!(contains_bytes(b"abc", b"bc") && contains_bytes(b"a", b"") && !contains_bytes(b"a", b"ab"));
}

#[test]
fn numbers_are_read_as_the_standard_library_reads_them() {
    for s in ["", "+", "-", "+7", "65535", "65536", "x", "1x", "99999x", "x99999", "-1", "+65536", "\u{fc}"] {
        let expected = s.parse::<u16>().map(u64::from).map_err(|e| e.to_string());
        assert_eq!(parse_number(s, 65_535).map_err(str::to_owned), expected, "{s}");
    }
    for s in ["0", "007", "+7", "-7", "", "+", "255", "256", "1a", "18446744073709551615", "18446744073709551616"] {
        assert_eq!(parse_unsigned(s, u64::MAX), s.parse::<u64>().ok(), "{s}");
        assert_eq!(parse_unsigned(s, 255), s.parse::<u8>().ok().map(u64::from), "{s}");
    }
    for n in [0, 9, 10, 123_456, u64::MAX] {
        assert_eq!(number_text(n), n.to_string());
    }
}

#[test]
fn trees_are_found_and_changed_by_path() {
    let tree = json("{\"a\":{\"b\":[1,{\"c\":\"x\"}]},\"n\":-1}");
    assert_eq!(tree.text_at("a,b,#1,c"), Some("x".to_owned()));
    assert_eq!(tree.number_at("a,b,#0"), Some(1));
    assert_eq!(tree.number_at("n"), None);
    assert!(tree.find("a,b,#2").is_none() && tree.is_null("a,b,#2"));
    assert_eq!(value(&tree.get("")), value(&tree));
    assert_eq!((tree.count("a,b"), tree.keys("")), (2, 2));
    assert!(tree.is_list("a,b") && tree.is_object("a") && !tree.is_object("n"));
    let changed = tree.copy().set("a,b,#1,d", Json::flag(true));
    assert!(changed.is_flag("a,b,#1,d", true));
    assert!(changed.is_text("a,b,#1,c", "x"));
    assert!(tree.agrees("a,b,#1,c", &changed, "a,b,#1,c") && !tree.same(&changed));
    let placed = Json::Null.set("x,y", Json::number(3));
    assert_eq!(value(&placed), parsed("{\"x\":{\"y\":3}}"));
    assert!(!tree.takes("n,x") && !tree.takes("a,b,#9,x") && tree.takes("a,z"));
}

#[test]
fn objects_are_compared_without_their_order() {
    let a = json("{\"a\":1,\"b\":[2]}");
    let b = Json::object().with("b", Json::list().and(Json::number(2))).with("a", Json::number(1));
    assert!(a.same(&b));
    assert!(!a.same(&b.with("a", Json::number(2))));
    assert!(!json("[1,2]").same(&json("[2,1]")));
    assert!(a.item_with("none", "x", "y").is_none());
    let items = json("{\"l\":[{\"k\":\"a\"},{\"k\":\"b\",\"n\":1},{\"k\":\"b\",\"n\":2}]}");
    assert_eq!(items.item_with("l", "k", "b").and_then(|i| i.number_at("n")), Some(1));
}

#[test]
fn orders_are_total_and_lists_of_sets_unique() {
    for (a, b) in [("", "a"), ("a", "b"), ("a", "aa"), ("Z", "a"), ("a", "a")] {
        assert_eq!(comes_before(a, b), a < b);
        assert_eq!(comes_before(b, a), b < a);
    }
    assert_eq!(ordered_texts(&words(&["b", "a", "b", "c"])), words(&["a", "b", "c"]));
    assert_eq!(ordered_texts(&words(&["c", "b", "a"])), words(&["a", "b", "c"]));
    let mut filed = words(&["a", "c"]);
    file_text(&mut filed, "b");
    file_text(&mut filed, "b");
    assert_eq!(filed, words(&["a", "b", "c"]));
}

#[test]
fn paths_agree_with_the_standard_library() {
    for p in [
        "/", "", "a", "/a", "a/", "/a/b", "/a//b/", "//b", "./a", "a/.", "/a/./b", "..", "a/../b", "./.",
    ] {
        let path = std::path::Path::new(p);
        let parent = path.parent().and_then(|p| p.to_str()).map(str::to_owned);
        assert_eq!(parent_directory(p), parent, "{p}");
        for q in ["/", "", "a", "/a", "a/", "/a/b", ".", "./a"] {
            assert_eq!(is_within(p, q), path.starts_with(q), "{p} in {q}");
            assert_eq!(Some(joined_path(p, q).as_str()), path.join(q).to_str(), "{p} with {q}");
        }
        let climbs = path.components().any(|c| c == std::path::Component::ParentDir);
        assert_eq!(has_parent_step(p), climbs, "{p}");
    }
    assert_eq!(path_components("/a//b/./c"), words(&["a", "b", "c"]));
}

#[test]
fn outputs_stay_outside_the_sources() {
    assert_eq!(good(prepare_output("/repo", "target/x")), "/repo/target/x");
    assert_eq!(good(prepare_output("/repo", "/else")), "/else");
    assert_eq!(
        message(prepare_output("/repo", "src/x")),
        "evidence output inside the checkout must remain under target/"
    );
    assert_eq!(
        message(prepare_output("/repo", "target/../src")),
        "evidence output cannot contain parent traversal"
    );
    assert_eq!(good(external_output("/repo", "x")), "/repo/x");
    assert_eq!(
        message(external_output("/repo", "../x")),
        "output path must not contain parent traversal"
    );
    let checked = |output: &str, missing: usize, ancestor: &str| {
        validate_output_path(output, missing, ancestor, "/repo", "/repo/target")
    };
    assert_eq!(good(checked("/link/a/b", 2, "/repo/target")), "/repo/target/a/b");
    assert_eq!(good(checked("/else/a", 1, "/else")), "/else/a");
    assert!(message(checked("/repo/src", 0, "/repo/src")).starts_with("evidence output inside tracked"));
    assert_eq!(message(checked("/a", 2, "/")), "output path has no existing ancestor");
    assert!(check_empty(0, "m").is_ok());
    assert_eq!(message(check_empty(1, "m")), "m");
}

#[test]
fn hashed_files_keep_their_size() {
    let (identity, size) = good(hash_file(b"abc", 3));
    assert_eq!((identity, size), (content_identity(b"abc"), 3));
    assert_eq!(
        message(hash_file(b"abc", 4)),
        "evidence executable changed while it was hashed"
    );
    let digest = "6437b3ac38465133ffb63b75273a8db548c558465d79db03fd359c6cd5bd9d85";
    assert!(is_preserved(b"abc", 3, digest));
    assert!(!is_preserved(b"abc", 2, digest) && !is_preserved(b"abd", 3, digest));
}

#[test]
fn addresses_are_parsed_as_urls() {
    assert_eq!(good(profile_destination("http://127.0.0.1:8080/v1")), "127.0.0.1:8080");
    assert_eq!(good(profile_destination("https://Example.org")), "example.org:443");
    assert_eq!(good(profile_destination("http://[::1]/")), "[::1]:80");
    assert_eq!(
        message(profile_destination("mailto:a@b")),
        "model endpoint origin has no host"
    );
    assert_eq!(message(profile_destination("no url")), "relative URL without a base");
    assert_eq!(good(model_destination("http://localhost")), "localhost:80");
    assert_eq!(message(model_destination("data:x")), "model host absent");
    assert_eq!(message(model_destination("custom://host")), "model port absent");
}

#[test]
fn parsed_addresses_decide_what_is_local() {
    assert!(loopback(&UrlHost::V4 { bits: 0x7f00_0001, text: String::new() }));
    assert!(loopback(&UrlHost::V4 { bits: 0x7fff_ffff, text: String::new() }));
    assert!(!loopback(&UrlHost::V4 { bits: 0x8000_0000, text: String::new() }));
    assert!(loopback(&UrlHost::V6 { wide: 1, text: String::new() }));
    assert!(!loopback(&UrlHost::V6 { wide: 2, text: String::new() }));
    assert!(loopback(&UrlHost::Domain { name: "LocalHost".to_owned() }));
    assert!(eq_ignore_case("aZ", "Az") && !eq_ignore_case("a", "b"));
    let url = Ok(UrlParts {
        scheme: "http".to_owned(),
        host: Some(UrlHost::V6 { wide: 1, text: "::1".to_owned() }),
        host_text: Some("[::1]".to_owned()),
        port: None,
        known_port: Some(80),
    });
    assert_eq!(good(destination(&url)), "[::1]:80");
    assert_eq!(good(host_port(&url, "h", "p")), "[::1]:80");
    assert_eq!(message(destination(&Err("e".to_owned()))), "e");
}

#[test]
fn checks_carry_their_message() {
    assert!(ensure(true, "m").is_ok());
    assert_eq!(message(ensure(false, "m")), "m");
}

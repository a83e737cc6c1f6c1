use rssust::json::{json_debug_string, json_to_string, parse_i64, parse_usize, quote, Json, JsonNumber};

fn from_serde(v: &serde_json::Value) -> Json {
    match v {
        serde_json::Value::Null => Json::Null,
        serde_json::Value::Bool(b) => Json::Bool(*b),
        serde_json::Value::Number(n) => {
            if let Some(u) = n.as_u64() {
                Json::Number(JsonNumber::PosInt(u))
            } else if let Some(i) = n.as_i64() {
                Json::Number(JsonNumber::NegInt(i))
            } else {
                Json::Number(JsonNumber::Float(n.to_string()))
            }
        }
        serde_json::Value::String(s) => Json::Str(s.clone()),
        serde_json::Value::Array(a) => Json::Array(a.iter().map(from_serde).collect()),
        serde_json::Value::Object(m) => {
            Json::Object(m.iter().map(|(k, v)| (k.clone(), from_serde(v))).collect())
        }
    }
}

fn sample() -> serde_json::Value {
    serde_json::from_str(
        r#"{"data":{"records":[{"title":"a\"b\\c\n","n":-5,"big":18446744073709551615},{"x":[1,2.5,null,true]}]},"ctl":"\u0001\t"}"#,
    )
    .unwrap()
}

#[test]
fn to_string_matches_serde_json() {
    let v = sample();
    assert_eq!(json_to_string(&from_serde(&v)), v.to_string());
}

#[test]
fn debug_matches_serde_json() {
    let v = sample();
    assert_eq!(json_debug_string(&from_serde(&v)), format!("{:?}", v));
}

#[test]
fn quote_escapes_like_serde_json() {
    let s = "tab\there \"quoted\" back\\slash \u{1f} 中文";
    assert_eq!(quote(s), serde_json::Value::String(s.to_string()).to_string());
}

#[test]
fn pointer_reads_nested_values() {
    let j = from_serde(&sample());
    assert_eq!(j.pointer("/data/records/0/n").and_then(|x| x.as_i64()), Some(-5));
    assert_eq!(j.pointer("/data/records/0/big").and_then(|x| x.as_u64()), Some(u64::MAX));
    assert_eq!(j.pointer("/data/records/1/x/3").and_then(|x| x.as_bool()), Some(true));
    assert!(j.pointer("/data/records/2").is_none());
    assert!(j.pointer("/data/records/01").is_none());
    assert!(j.pointer("data").is_none());
    assert_eq!(j.pointer("").map(json_to_string), Some(sample().to_string()));
    assert_eq!(j.str_or_empty("/data/records/0/title"), "a\"b\\c\n");
    assert_eq!(j.str_or_empty("/nothing"), "");
}

#[test]
fn pointer_unescapes_tokens() {
    let v: serde_json::Value = serde_json::from_str(r#"{"a/b":{"m~n":7}}"#).unwrap();
    let j = from_serde(&v);
    assert_eq!(j.pointer("/a~1b/m~0n").and_then(|x| x.as_u64()), Some(7));
    assert_eq!(
        j.pointer("/a~1b/m~0n").and_then(|x| x.as_u64()),
        v.pointer("/a~1b/m~0n").and_then(|x| x.as_u64())
    );
}

#[test]
fn parse_i64_follows_str_parse() {
    for t in ["0", "+12", "-12", "9223372036854775807", "-9223372036854775808",
        "9223372036854775808", "", "-", "+", "1a", " 1", "0012"] {
        assert_eq!(parse_i64(t), t.parse::<i64>().ok(), "input {:?}", t);
    }
}

#[test]
fn parse_usize_follows_str_parse() {
    for t in ["0", "+7", "-7", "18446744073709551615", "18446744073709551616", "", "+", "12x"] {
        assert_eq!(parse_usize(t), t.parse::<usize>().ok(), "input {:?}", t);
    }
}

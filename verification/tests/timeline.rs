//! The observation of a followed timeline.

use milkdrift_evidence::json::Json;
use milkdrift_evidence::timeline::{observe, Observations, StreamLine};
use serde_json::Value;

fn converted(value: &Value) -> Json {
    match value {
        Value::Null => Json::Null,
        Value::Bool(b) => Json::flag(*b),
        Value::Number(n) => match n.as_u64() {
            Some(n) => Json::number(n),
            None => Json::Real(n.to_string()),
        },
        Value::String(s) => Json::text(s),
        Value::Array(v) => Json::List(v.iter().map(converted).collect()),
        Value::Object(m) => {
            Json::Object(m.iter().map(|(k, v)| (k.clone(), converted(v))).collect())
        }
    }
}

fn lines(stream: &str) -> Vec<StreamLine> {
    stream
        .split_inclusive('\n')
        .map(|line| StreamLine {
            size: line.len() as u64,
            document: match serde_json::from_str::<Value>(line) {
                Ok(value) => Ok(converted(&value)),
                Err(error) => Err(error.to_string()),
            },
        })
        .collect()
}

fn observed(stream: &str) -> Result<Observations, String> {
    observe(&lines(stream)).map_err(|failure| failure.message)
}

#[test]
fn long_stream_is_consumed_through_its_last_document() {
    let mut stream = String::from("{\"status\":\"success\",\"type\":\"run.timeline\"}\n");
    stream.push_str(&"{\"status\":\"success\",\"type\":\"run.observation\",\"value\":{\"observation\":{\"type\":\"timeline\"}}}\n".repeat(200));
    assert!(matches!(observed(&stream), Ok(o) if o.page && o.update));
    stream.push_str("{\"status\":\"error\",\"type\":\"run.observation\"}\n");
    assert!(observed(&stream).is_err());
}

#[test]
fn oversized_line_is_refused() {
    assert!(observed(&"x".repeat(131_073)).is_err());
}

#[test]
fn reconnect_requires_a_subsequent_observation() {
    let mut stream = String::from(
        "{\"status\":\"success\",\"type\":\"run.timeline\"}\n\
         {\"status\":\"success\",\"type\":\"run.observation\",\"value\":{\"observation\":{\"type\":\"timeline\"}}}\n\
         {\"status\":\"reconnecting\",\"type\":\"run.timeline\",\"final\":false,\"error\":{\"retryable\":true}}\n",
    );
    assert!(matches!(observed(&stream), Ok(o) if !o.update));
    stream.push_str("{\"status\":\"success\",\"type\":\"run.observation\",\"value\":{\"observation\":{\"type\":\"timeline\"}}}\n");
    assert!(matches!(observed(&stream), Ok(o) if o.update));
}

#[test]
fn a_refused_document_is_not_outlived() {
    let stream = "{\"status\":\"error\",\"type\":\"run.timeline\"}\n{\"status\":\"success\",\"type\":\"run.timeline\"}\n";
    assert!(observed(stream).is_err());
    assert!(observed("not json\n").is_err());
}

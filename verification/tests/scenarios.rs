//! Every scenario is played to its end with answers that meet its checks, and fails where an answer
//! breaks one of them.

use std::collections::{BTreeMap, BTreeSet};

use milkdrift_evidence::json::Json;
use milkdrift_evidence::makers::make;
use milkdrift_evidence::scenario::{evaluate, Line, Scenario, Step};
use milkdrift_evidence::scripts::{
    controller, external, headless, independent, learning, local_model, slotbook,
};
use milkdrift_evidence::scripts::controller::{
    CONTROLLER, ENTERED_PROCESS, MODEL_REFUSAL, PRELUDE, RACE, RACE_HEALTH, RACE_RESERVED, RACE_START,
};
use milkdrift_evidence::scripts::external::{
    EXTERNAL_MODEL, EXTERNAL_MODEL_COMPLETED, EXTERNAL_MODEL_FAILED, EXTERNAL_MODEL_JUDGED,
    EXTERNAL_PROCESS, EXTERNAL_SCENARIOS, MODEL_FIXTURE, MODEL_REAL, PROCESS_FIXTURE, PROCESS_REAL,
};
use milkdrift_evidence::scripts::headless::{HEADLESS, MODEL_EXAMPLE, STARTER};
use milkdrift_evidence::scripts::independent::{
    INDEPENDENT, REMOTE_CLOSE, REMOTE_LOST, REMOTE_MODEL, REMOTE_OPEN, REMOTE_PROCESS, REMOTE_UNCERTAIN,
};
use milkdrift_evidence::scripts::learning::{
    EVALUATE_COMPARED, EVALUATE_DEPLOYED, EVALUATE_INVOKE, EVALUATE_NOT_PROMOTED,
    EVALUATE_PROMOTED, EVALUATE_RETAINED, EVALUATE_SELECTED, EVALUATE_VARIANT, LEARN_IMPORT,
    LEARN_PREAUTHORIZED, LEARN_PREPARE, LEARN_PREPARE_SLOT, LEARN_REDECLARED, LEARN_RESUMED, LEARN_SLOT, LEARN_SOURCE,
    PROPOSAL_DENIED, PROPOSAL_RUN, PROPOSAL_SUBMITTED, TOOLS,
};
use milkdrift_evidence::scripts::local_model::{
    ACCEPTANCE, CONTINUATION, CONTINUATION_REJECTED, CONTINUATION_START, LOCAL_MODEL, PREPARATION,
};
use milkdrift_evidence::scripts::slotbook::{
    AUTHENTICATED_MUTATION, CANCELLATION_POLICY, CAPACITY_AND_INTERVALS, DURABLE_BOOKINGS,
    PUBLIC_AVAILABILITY, QUALIFY_COMPLETED, QUALIFY_DIRECT, QUALIFY_HANDOFF, QUALIFY_LINK,
    QUALIFY_NO_DEPLOYMENT, QUALIFY_OPEN, QUALIFY_OUTER_REPLAY, QUALIFY_OUTER_RESULT,
    QUALIFY_PEER, QUALIFY_PUBLIC_REPLAY, QUALIFY_PUBLIC_RESULT, QUALIFY_PUBLISH, QUALIFY_RENEWED, QUALIFY_REPAIR,
    QUALIFY_RUN, QUALIFY_SERVED, QUALIFY_WORKFLOW, SESSION_PEER, SESSION_PLAIN, SESSION_PUBLISHED,
    SLOTBOOK_PREPARE, SLOTBOOK_SESSION,
};
use milkdrift_evidence::slotbook::client::InvocationMode;
use milkdrift_evidence::slotbook::study::slots;
use serde_json::Value;

type Place = (usize, String);

fn converted(value: &Value) -> Json {
    match value {
        Value::Null => Json::Null,
        Value::Bool(b) => Json::flag(*b),
        Value::Number(n) => match n.as_u64() {
            Some(n) => Json::number(n),
            None => Json::Real(n.to_string()),
        },
        Value::String(s) => Json::text(s),
        Value::Array(v) => Json::List(v.iter().map(converted).collect()),
        Value::Object(m) => {
            Json::Object(m.iter().map(|(k, v)| (k.clone(), converted(v))).collect())
        }
    }
}

fn shown(json: &Json) -> Value {
    match json {
        Json::Null => Value::Null,
        Json::Bool(b) => Value::Bool(*b),
        Json::Unsigned(n) => Value::from(*n),
        Json::Negative(n) => Value::from(*n),
        Json::Real(s) => text(s),
        Json::Text(s) => text(s),
        Json::List(v) => Value::Array(v.iter().map(shown).collect()),
        Json::Object(m) => Value::Object(m.iter().map(|(k, v)| (k.clone(), shown(v))).collect()),
    }
}

fn text(s: &str) -> Value {
    Value::String(s.to_owned())
}

fn position(segment: &str) -> Option<usize> {
    segment.strip_prefix('#').and_then(|n| n.parse().ok())
}

fn get(value: &Value, path: &str) -> Value {
    let mut current = value;
    if path.is_empty() {
        return current.clone();
    }
    for segment in path.split(',') {
        let next = match current {
            Value::Object(m) => m.get(segment),
            Value::Array(v) => position(segment).and_then(|i| v.get(i)),
            _ => None,
        };
        match next {
            Some(next) => current = next,
            None => return Value::Null,
        }
    }
    current.clone()
}

fn set(value: &mut Value, path: &str, new: Value) {
    if path.is_empty() {
        *value = new;
        return;
    }
    let (first, rest) = match path.split_once(',') {
        Some((first, rest)) => (first, rest),
        None => (path, ""),
    };
    if let Some(i) = position(first) {
        if !value.is_array() {
            *value = Value::Array(Vec::new());
        }
        if let Value::Array(v) = value {
            while v.len() <= i {
                v.push(Value::Object(serde_json::Map::new()));
            }
            set(&mut v[i], rest, new);
        }
        return;
    }
    if !value.is_object() {
        *value = Value::Object(serde_json::Map::new());
    }
    if let Value::Object(m) = value {
        set(m.entry(first.to_owned()).or_insert(Value::Null), rest, new);
    }
}

fn below(path: &str, rest: &str) -> String {
    if path.is_empty() {
        rest.to_owned()
    } else if rest.is_empty() {
        path.to_owned()
    } else {
        format!("{path},{rest}")
    }
}

fn words(line: &str) -> Vec<String> {
    line.split(' ').map(str::to_owned).collect()
}

fn statement(line: Line) -> Vec<String> {
    let mut all = vec![line.0.to_owned()];
    if !line.1.is_empty() {
        all.push(line.1.to_owned());
    }
    if !line.2.is_empty() {
        all.extend(words(line.2));
    }
    all
}

fn holds(condition: &[String], env: &Value) -> bool {
    match evaluate(&condition.to_vec(), &converted(env)) {
        Some(truth) => truth,
        None => panic!("no condition: {condition:?}"),
    }
}

/// A value that a script had made, and what of.
struct Made {
    maker: String,
    args: Vec<(Option<Place>, Value)>,
    value: Value,
}

/// The first number of the places inside of made values.
const MADE: usize = 1000;

fn listed(value: &Value, path: &str) -> Vec<Value> {
    get(value, path).as_array().cloned().unwrap_or_default()
}

fn entries(pairs: &[(&str, Value)]) -> Value {
    let mut all = Value::Object(serde_json::Map::new());
    for (path, value) in pairs {
        set(&mut all, path, value.clone());
    }
    all
}

/// Finds answers under which a script runs to its end.
struct Player {
    lines: Vec<Vec<String>>,
    known: Value,
    replies: Vec<Value>,
    fixed: BTreeSet<Place>,
    fresh: u64,
    reached: usize,
    seed: u64,
    made: Vec<Made>,
}

impl Player {
    fn new(script: &[Line], known: Value) -> Player {
        let lines = script.iter().map(|line| statement(*line)).collect();
        Player { lines, known, replies: Vec::new(), fixed: BTreeSet::new(), fresh: 0, reached: 0, seed: 7, made: Vec::new() }
    }

    fn value(&self, place: &Place) -> Value {
        if place.0 >= MADE {
            get(&self.made[place.0 - MADE].value, &place.1)
        } else if place.0 == 0 {
            get(&self.known, &place.1)
        } else {
            get(&self.replies[place.0 - 1], &place.1)
        }
    }

    fn put(&mut self, place: &Place, value: Value) {
        if place.0 >= MADE {
            self.unmake(place.0 - MADE, &place.1, value);
        } else if place.0 == 0 {
            set(&mut self.known, &place.1, value);
        } else {
            set(&mut self.replies[place.0 - 1], &place.1, value);
        }
    }

    /// Makes sure that there are so many answers.
    fn answer(&mut self, asked: usize) {
        while self.replies.len() < asked {
            self.replies.push(entries(&[
                ("exit", Value::from(0)),
                ("stdout", text("{}\n")),
                ("stderr", text("")),
                ("document", entries(&[])),
                ("value", entries(&[])),
            ]));
        }
    }

    fn source(&self, i: usize, k: usize, path: &str) -> Place {
        match &self.made[i].args[k].0 {
            Some(place) => (place.0, below(&place.1, path)),
            None => panic!("{} was made of something computed", self.made[i].maker),
        }
    }

    /// Changes what a value was made of, so that the value changes at a path.
    fn unmake(&mut self, i: usize, path: &str, new: Value) {
        set(&mut self.made[i].value, path, new.clone());
        let wanted = self.made[i].value.clone();
        let args: Vec<Value> = self.made[i].args.iter().map(|a| a.1.clone()).collect();
        let rows = wanted.as_array().cloned().unwrap_or_default();
        match self.made[i].maker.as_str() {
            "children" => {
                let mut items = listed(&args[0], "value,items");
                items.retain(|e| get(e, "workflow_id") != args[1]);
                for (k, row) in rows.into_iter().enumerate() {
                    let run = if row.is_string() { row } else { text(&format!("child-{k}")) };
                    items.push(entries(&[("workflow_id", args[1].clone()), ("run_id", run)]));
                }
                self.put(&self.source(i, 0, "value,items"), Value::Array(items));
            }
            "linked-runs" => {
                let mut items = Vec::new();
                for mut row in rows {
                    if args[1].is_string() {
                        set(&mut row, "published_source,execution", args[1].clone());
                    } else if args[2] == text("peer") {
                        set(&mut row, "published_source,type", text("serving"));
                    } else {
                        set(&mut row, "published_source,run", text("slotbook-caller"));
                    }
                    items.push(row);
                }
                self.put(&self.source(i, 0, "value,items"), Value::Array(items));
            }
            "active" => {
                self.put(&self.source(i, 0, "status"), Value::from(200));
                self.put(&self.source(i, 0, "body"), Value::Array(listed(&wanted, "items")));
            }
            "remaining" => {
                let left = get(&wanted, "count").as_u64().unwrap_or(0);
                let body = entries(&[
                    ("resource", args[1].clone()),
                    ("start", args[2].clone()),
                    ("end", args[3].clone()),
                    ("remaining", Value::from(left)),
                ]);
                self.put(&self.source(i, 0, "status"), Value::from(200));
                self.put(&self.source(i, 0, "body"), body);
            }
            "failed-checks" => {
                let failed = |name: &Value| {
                    let name = if name.is_string() { name.clone() } else { text("some-check") };
                    entries(&[("name", name), ("passed", Value::Bool(false))])
                };
                let checks = rows.iter().map(failed).collect();
                self.put(&self.source(i, 0, "checks"), Value::Array(checks));
            }
            "rendered-elements" => {
                let told = |row: &Value| {
                    entries(&[("role", get(row, "role")), ("content", get(row, "text"))])
                };
                let list = rows.iter().map(told).collect();
                self.put(&self.source(i, 0, ""), Value::Array(list));
            }
            "rendered" => self.put(&self.source(i, 0, ""), wanted),
            "first-booking" => self.put(&self.source(i, 0, "#0"), wanted),
            "last" => {
                let last = listed(&args[0], "").len() - 1;
                self.put(&self.source(i, 0, &format!("#{last}")), wanted);
            }
            "grant-slot" | "trust-slot" => self.put(&self.source(i, 0, path), new),
            other => panic!("nothing to change for a value of {other}"),
        }
    }

    /// Changes what a value could not be made of.
    fn amend(&mut self, i: usize, message: &str) {
        let none = || Value::Object(serde_json::Map::new());
        let name = self.name();
        let changes: Vec<(usize, &str, Value)> = match self.made[i].maker.as_str() {
            "failed-checks" => vec![(0, "checks", Value::Array(Vec::new()))],
            "forged-checks" => vec![(0, "evaluation,checks", Value::Array(vec![none()]))],
            "linked-runs" => vec![(0, "value,items", Value::Array(Vec::new()))],
            "children" if self.made[i].args[1].1.is_string() => {
                vec![(0, "value,items", Value::Array(Vec::new()))]
            }
            "children" | "promotion-approval" => vec![(1, "", name)],
            "peer-capability" => {
                let peer = entries(&[("locality", text("peer")), ("capability_id", name)]);
                vec![(0, "", Value::Array(vec![peer]))]
            }
            "method-mutations" => vec![(1, "", Value::from(1))],
            "learning-mutations" => vec![
                (0, "revision,semantic,nodes,repair.begin,kind,config,requirement", none()),
                (0, "revision,semantic,nodes,verify-candidate", none()),
            ],
            "model-destination" => vec![(0, "", text("http://127.0.0.1:8080/v1"))],
            "grant-slot" | "trust-slot" => {
                vec![(1, "", name.clone()), (2, "", text(&format!("{name}-2")))]
            }
            "last" => vec![(0, "", Value::Array(vec![none()]))],
            "pages" => vec![(0, "completed_run,sequence", Value::from(9))],
            "including" | "rendered-elements" => vec![(0, "", Value::Array(Vec::new()))],
            "held-out-pair" => vec![(2, "", Value::Array(vec![none(); slots().len()]))],
            "booking-path" => vec![(0, "id", name)],
            "proposal-prompt" => vec![
                (0, "id", name.clone()),
                (0, "content_digest", name),
                (0, "semantic,nodes", none()),
                (1, "selection,artifacts", Value::Array(Vec::new())),
            ],
            "source-inputs" => vec![(0, "data_inputs", none())],
            "first-booking" => vec![(0, "", Value::Array(vec![none()]))],
            "guidance-note" => vec![
                (0, "digest", name.clone()),
                (1, "generation", Value::from(5)),
                (2, "selected_method", name.clone()),
                (3, "", name),
            ],
            other => panic!("{other}: {message}"),
        };
        for (k, path, value) in changes {
            self.put(&self.source(i, k, path), value);
        }
    }

    /// Makes a value, or changes what it could not be made of.
    fn made(&mut self, call: &[String], env: &Value, aliases: &BTreeMap<String, Option<Place>>) -> Option<usize> {
        let mut args = Vec::new();
        let mut values = Vec::new();
        for word in &call[1..] {
            let (place, value) = match word.strip_prefix('=') {
                Some(rest) => (None, text(rest)),
                None => (Player::origin(aliases, word), get(env, word)),
            };
            values.push(converted(&value));
            args.push((place, value));
        }
        let i = self.made.len();
        let maker = call[0].clone();
        let result = make(&maker, &values, &converted(env));
        self.made.push(Made { maker, args, value: Value::Null });
        match result {
            Ok(json) => {
                self.made[i].value = shown(&json);
                Some(i)
            }
            Err(failure) => {
                self.amend(i, &failure.message);
                None
            }
        }
    }

    fn fix(&mut self, place: &Place, value: Value) {
        self.fixed.insert(place.clone());
        self.put(place, value);
    }

    /// The next number of a fixed sequence, below a bound.
    fn roll(&mut self, bound: usize) -> usize {
        self.seed = self.seed.wrapping_mul(6364136223846793005).wrapping_add(1442695040888963407);
        (self.seed >> 33) as usize % bound
    }

    fn name(&mut self) -> Value {
        self.fresh += 1;
        text(&format!("value-{}", self.fresh))
    }

    fn element(&mut self, condition: &[String], element: &Value, place: &Place) {
        let alternatives: Vec<&[String]> = condition.split(|w| w == "else").collect();
        let alternative = alternatives[self.roll(alternatives.len())];
        let place_of = |path: &str| Some((place.0, below(&place.1, path)));
        for part in alternative.split(|w| w == "plus") {
            if !holds(part, element) {
                self.repair(part, element, &place_of);
            }
        }
    }

    fn meets(&self, condition: &[String], element: &Value) -> bool {
        condition.split(|w| w == "else").any(|alternative| {
            alternative.split(|w| w == "plus").all(|part| holds(part, element))
        })
    }

    /// Changes one answer so that a condition comes nearer to holding.
    fn repair(&mut self, condition: &[String], env: &Value, at: &dyn Fn(&str) -> Option<Place>) {
        let op = condition[0].as_str();
        let path = condition[1].as_str();
        let current = get(env, path);
        let Some(place) = at(path) else {
            assert_eq!(op, "matching", "nothing to change for {condition:?}");
            let elements = current.as_array().cloned().unwrap_or_default();
            let unmet = elements.iter().position(|e| !self.meets(&condition[3..], e));
            let inner = unmet.and_then(|i| at(&format!("{path},#{i}")).map(|p| (i, p)));
            match inner {
                Some((i, inner)) => self.element(&condition[3..], &elements[i], &inner),
                None => panic!("nothing to change for {condition:?}"),
            }
            return;
        };
        let rest = if condition.len() > 2 { condition[2..].join(" ") } else { String::new() };
        let number: u64 = rest.parse().unwrap_or(0);
        match op {
            "is" | "trims" => self.fix(&place, text(&rest)),
            "isnot" => {
                let name = self.name();
                self.put(&place, name);
            }
            "true" => self.fix(&place, Value::Bool(true)),
            "false" => self.fix(&place, Value::Bool(false)),
            "null" => self.fix(&place, Value::Null),
            "some" | "string" => {
                let name = self.name();
                self.put(&place, name);
            }
            "object" => self.put(&place, Value::Object(serde_json::Map::new())),
            "list" => self.put(&place, Value::Array(Vec::new())),
            "whole" | "positive" => self.put(&place, Value::from(7)),
            "nonempty" => self.put(&place, Value::Array(vec![Value::Object(serde_json::Map::new())])),
            "empty" => self.fix(&place, Value::Array(Vec::new())),
            "num" => self.fix(&place, Value::from(number)),
            "below" => self.put(&place, Value::from(number - 1)),
            "len" => {
                let mut v = current.as_array().cloned().unwrap_or_default();
                while (v.len() as u64) < number {
                    self.fresh += 1;
                    let mut m = serde_json::Map::new();
                    m.insert("fresh".to_owned(), Value::from(self.fresh));
                    v.push(Value::Object(m));
                }
                v.truncate(number as usize);
                self.put(&place, Value::Array(v));
            }
            "keys" => {
                let mut m = current.as_object().cloned().unwrap_or_default();
                while (m.len() as u64) < number {
                    self.fresh += 1;
                    m.insert(format!("key-{}", self.fresh), Value::Null);
                }
                while m.len() as u64 > number {
                    let last = m.keys().last().cloned().unwrap_or_default();
                    m.remove(&last);
                }
                self.put(&place, Value::Object(m));
            }
            "same" => {
                let other = get(env, &rest);
                let target = at(&rest);
                let keep = current.is_null() || !other.is_null();
                if keep && !self.fixed.contains(&place) {
                    self.put(&place, other);
                } else if let Some(target) = target.filter(|t| !self.fixed.contains(t)) {
                    self.put(&target, current);
                } else {
                    self.put(&place, other);
                }
            }
            "differs" => {
                let name = match get(env, &rest).as_u64() {
                    Some(n) => Value::from(n + 1),
                    None => self.name(),
                };
                self.put(&place, name);
            }
            "reaches" | "exceeds" | "follows" => {
                let other = get(env, &rest).as_u64();
                match (other, at(&rest)) {
                    (Some(n), _) => self.put(&place, Value::from(n + 1)),
                    (None, Some(target)) => self.put(&target, Value::from(3)),
                    (None, None) => panic!("no number for {condition:?}"),
                }
            }
            "contains" | "starts" | "ends" => {
                let before = current.as_str().unwrap_or("").to_owned();
                let all = if op == "starts" {
                    format!("{rest}{before}")
                } else {
                    format!("{before}{rest}")
                };
                self.put(&place, text(&all));
            }
            "lacks" => self.put(&place, text("")),
            "mentions" | "omits" => match (get(env, &rest), at(&rest)) {
                (Value::String(other), _) => {
                    let before = current.as_str().unwrap_or("").to_owned();
                    let all = if op == "mentions" {
                        format!("{before} {other}")
                    } else {
                        before.replace(&other, "")
                    };
                    self.put(&place, text(&all));
                }
                (_, Some(target)) => {
                    let name = self.name();
                    self.put(&target, name);
                }
                (_, None) => panic!("no text for {condition:?}"),
            },
            "member" | "holds" => {
                let wanted = if op == "member" { text(&rest) } else { get(env, &rest) };
                let mut v = current.as_array().cloned().unwrap_or_default();
                v.push(wanted);
                self.put(&place, Value::Array(v));
            }
            "ascending" => {
                let n = current.as_array().map_or(0, Vec::len);
                if !current.is_array() {
                    self.put(&place, Value::Array(Vec::new()));
                }
                for i in 0..n {
                    let inner = (place.0, below(&place.1, &format!("#{i},{rest}")));
                    self.put(&inner, Value::from(i as u64 + 1));
                }
            }
            "each" => match current.as_array() {
                Some(v) => {
                    for (i, element) in v.iter().enumerate() {
                        let inner = (place.0, below(&place.1, &format!("#{i}")));
                        self.element(&condition[2..], element, &inner);
                    }
                }
                None => self.put(&place, Value::Array(Vec::new())),
            },
            "any" | "matching" => {
                let (wanted, inner) = if op == "any" {
                    (1, &condition[2..])
                } else {
                    (condition[2].parse().unwrap_or(0), &condition[3..])
                };
                let mut v = current.as_array().cloned().unwrap_or_default();
                let met = v.iter().filter(|e| self.meets(inner, e)).count();
                if met > wanted {
                    let last = v.iter().rposition(|e| self.meets(inner, e)).unwrap_or(0);
                    v.remove(last);
                    self.put(&place, Value::Array(v));
                } else if met < wanted {
                    let change = self.roll(4) == 0;
                    let unmet = v.iter().rposition(|e| !self.meets(inner, e));
                    let n = match unmet {
                        Some(i) if change => i,
                        _ => {
                            v.push(Value::Object(serde_json::Map::new()));
                            v.len() - 1
                        }
                    };
                    self.put(&place, Value::Array(v));
                    let new = (place.0, below(&place.1, &format!("#{n}")));
                    for _ in 0..8 {
                        let element = self.value(&new);
                        if !self.meets(inner, &element) {
                            self.element(inner, &element, &new);
                        }
                    }
                } else {
                    self.put(&place, Value::Array(v));
                }
            }
            "none" => {
                let mut v = current.as_array().cloned().unwrap_or_default();
                v.retain(|e| !self.meets(&condition[2..], e));
                self.put(&place, Value::Array(v));
            }
            "where" => {
                let mut v = current.as_array().cloned().unwrap_or_default();
                let field = &condition[2];
                let found = v.iter().position(|e| get(e, field) == text(&condition[3]));
                let i = found.unwrap_or(v.len());
                if found.is_none() {
                    let mut new = Value::Object(serde_json::Map::new());
                    set(&mut new, field, text(&condition[3]));
                    v.push(new);
                    self.put(&place, Value::Array(v));
                }
                let inner = (place.0, below(&place.1, &format!("#{i}")));
                let element = self.value(&inner);
                self.element(&condition[4..], &element, &inner);
            }
            _ => panic!("unknown condition {condition:?}"),
        }
    }

    /// Where the value at a path of the environment comes from, if it is not computed.
    fn origin(aliases: &BTreeMap<String, Option<Place>>, path: &str) -> Option<Place> {
        let mut prefix = path.to_owned();
        loop {
            if let Some(found) = aliases.get(&prefix) {
                let rest = path[prefix.len()..].trim_start_matches(',');
                return found.as_ref().map(|place| (place.0, below(&place.1, rest)));
            }
            match prefix.rfind(',') {
                Some(i) => prefix.truncate(i),
                None => return Some((0, path.to_owned())),
            }
        }
    }

    fn settle_words(
        &mut self,
        line: &[String],
        env: &Value,
        aliases: &BTreeMap<String, Option<Place>>,
    ) -> bool {
        for word in line {
            if let Some(path) = word.strip_prefix('$') {
                let value = get(env, path);
                if !(value.is_string() || value.is_u64()) {
                    let Some(place) = Player::origin(aliases, path) else {
                        panic!("computed word {word} is absent");
                    };
                    let name = self.name();
                    self.put(&place, name);
                    return false;
                }
            }
        }
        true
    }

    /// One pass over the script: whether everything held.
    fn pass(&mut self) -> bool {
        let mut env = self.known.clone();
        let mut aliases: BTreeMap<String, Option<Place>> = BTreeMap::new();
        self.made.clear();
        let mut asked = 0;
        let mut i = 0;
        while i < self.lines.len() {
            let line = self.lines[i].clone();
            self.reached = i;
            i += 1;
            let op = line[0].as_str();
            if op.is_empty() || op == "--" {
                continue;
            }
            match op {
                "do" | "wait" | "watch" | "poll" => {
                    let arguments = if op == "do" { &line[1..] } else { &line[2..] };
                    if !self.settle_words(arguments, &env, &aliases) {
                        return false;
                    }
                    asked += 1;
                    self.answer(asked);
                    let reply = self.replies[asked - 1].clone();
                    set(&mut env, "reply", reply.clone());
                    aliases.retain(|k, _| !k.starts_with("reply,"));
                    aliases.insert("reply".to_owned(), Some((asked, String::new())));
                    if op != "do" {
                        let part = if op == "wait" { "document" } else { "value" };
                        self.bind(&mut env, &mut aliases, &line[1], Some((asked, part.to_owned())));
                    }
                }
                "success" => {
                    if get(&env, "reply,exit") != Value::from(0) {
                        self.put(&(asked, "exit".to_owned()), Value::from(0));
                        return false;
                    }
                    let place = Some((asked, "document".to_owned()));
                    self.bind(&mut env, &mut aliases, &line[1], place);
                }
                "ok" => {
                    let place = Some((asked, "value".to_owned()));
                    self.bind(&mut env, &mut aliases, &line[1], place);
                }
                "refused" => {
                    if get(&env, "reply,exit") == Value::from(0) {
                        self.put(&(asked, "exit".to_owned()), Value::from(1));
                        return false;
                    }
                }
                "error" | "typed" => {
                    let exit: u64 = line[1].parse().unwrap_or(0);
                    let mut wanted = self.replies[asked - 1].clone();
                    set(&mut wanted, "exit", Value::from(exit));
                    let (document, part) = if op == "error" {
                        set(&mut wanted, "document,status", text("failure"));
                        set(&mut wanted, "document,schema_version", Value::from(2));
                        set(&mut wanted, "document,final", Value::Bool(true));
                        ("document", "error")
                    } else {
                        set(&mut wanted, "stdout", text(""));
                        let stderr = get(&wanted, "stderr");
                        if stderr == text("") {
                            set(&mut wanted, "stderr", text("{}\n"));
                        }
                        set(&mut wanted, "diagnostic,type", text("error"));
                        ("diagnostic", "value")
                    };
                    set(&mut wanted, &format!("{document},{part},classification"), text(&line[2]));
                    if line.len() > 3 {
                        set(&mut wanted, &format!("{document},{part},daemon_code"), text(&line[3]));
                    }
                    if wanted != self.replies[asked - 1] {
                        self.replies[asked - 1] = wanted;
                        return false;
                    }
                }
                "keep" => {
                    let place = Player::origin(&aliases, &line[2]);
                    let value = get(&env, &line[2]);
                    set(&mut env, &line[1], value);
                    self.alias(&mut aliases, &line[1], place);
                }
                "text" | "need" | "number" => {
                    let value = get(&env, &line[2]);
                    let fits = if op == "number" { value.is_u64() } else { value.is_string() };
                    if !fits {
                        let Some(place) = Player::origin(&aliases, &line[2]) else {
                            panic!("computed value is unfit: {line:?}");
                        };
                        self.fresh += 1;
                        let new = if op == "number" {
                            Value::from(40 + self.fresh)
                        } else {
                            text(&format!("value-{}", self.fresh))
                        };
                        self.put(&place, new);
                        return false;
                    }
                    let place = Player::origin(&aliases, &line[2]);
                    set(&mut env, &line[1], value);
                    self.alias(&mut aliases, &line[1], place);
                }
                "pick" | "first" => {
                    let list = get(&env, &line[2]).as_array().cloned().unwrap_or_default();
                    let found = if op == "pick" {
                        list.iter().position(|e| get(e, &line[3]) == text(&line[4]))
                    } else {
                        list.iter().position(|e| self.meets(&line[3..], e))
                    };
                    let Some(place) = Player::origin(&aliases, &line[2]) else {
                        panic!("computed list: {line:?}");
                    };
                    match found {
                        Some(k) => {
                            let inner = (place.0, below(&place.1, &format!("#{k}")));
                            set(&mut env, &line[1], list[k].clone());
                            self.alias(&mut aliases, &line[1], Some(inner));
                        }
                        None => {
                            let condition = if op == "pick" {
                                words(&format!("any {} is {} {}", line[2], line[3], line[4]))
                            } else {
                                let mut all = words(&format!("any {}", line[2]));
                                all.extend_from_slice(&line[3..]);
                                all
                            };
                            let origins = aliases.clone();
                            self.repair(&condition, &env, &|p| Player::origin(&origins, p));
                            return false;
                        }
                    }
                }
                "make" => {
                    let origins = aliases.clone();
                    let Some(k) = self.made(&line[2..], &env, &origins) else {
                        return false;
                    };
                    set(&mut env, &line[1], self.made[k].value.clone());
                    self.alias(&mut aliases, &line[1], Some((MADE + k, String::new())));
                }
                "until" if line[1] == "yields" => {
                    let origins = aliases.clone();
                    let Some(k) = self.made(&line[2..], &env, &origins) else {
                        return false;
                    };
                    if self.made[k].value == Value::Array(Vec::new()) {
                        self.unmake(k, "", Value::Array(vec![Value::Object(serde_json::Map::new())]));
                        return false;
                    }
                }
                "put" => {
                    let place = Player::origin(&aliases, &line[2]);
                    let value = get(&env, &line[2]);
                    set(&mut env, &line[1], value);
                    self.alias(&mut aliases, &line[1], place);
                }
                "say" | "tell" | "mark" | "void" | "names" | "gather" | "glue" | "size" => {
                    if op == "glue" && !self.settle_words(&line[2..], &env, &aliases) {
                        return false;
                    }
                    let rest = if line.len() > 2 { line[2..].join(" ") } else { String::new() };
                    let value = match op {
                        "say" => text(&rest),
                        "tell" => Value::from(rest.parse::<u64>().unwrap_or(0)),
                        "mark" if rest == "null" => Value::Null,
                        "mark" => Value::Bool(rest == "true"),
                        "void" => Value::Object(serde_json::Map::new()),
                        "names" => Value::Array(line[2..].iter().map(|w| text(w)).collect()),
                        "gather" => Value::Array(line[2..].iter().map(|p| get(&env, p)).collect()),
                        "size" => {
                            Value::from(get(&env, &rest).as_array().map_or(0, Vec::len) as u64)
                        }
                        _ => {
                            let mut all = String::new();
                            for word in &line[2..] {
                                match word.strip_prefix('$') {
                                    Some(path) => match get(&env, path) {
                                        Value::String(s) => all.push_str(&s),
                                        other => all.push_str(&other.to_string()),
                                    },
                                    None => all.push_str(word),
                                }
                            }
                            text(&all)
                        }
                    };
                    set(&mut env, &line[1], value);
                    let sources: Vec<Option<Place>> = if op == "gather" {
                        line[2..].iter().map(|p| Player::origin(&aliases, p)).collect()
                    } else {
                        Vec::new()
                    };
                    self.alias(&mut aliases, &line[1], None);
                    for (k, source) in sources.into_iter().enumerate() {
                        aliases.insert(format!("{},#{k}", line[1]), source);
                    }
                }
                "add" => {
                    let mut list = match get(&env, &line[1]) {
                        Value::Array(v) => v,
                        _ => {
                            let Some(place) = Player::origin(&aliases, &line[1]) else {
                                panic!("computed list: {line:?}");
                            };
                            self.put(&place, Value::Array(Vec::new()));
                            return false;
                        }
                    };
                    list.push(get(&env, &line[2]));
                    set(&mut env, &line[1], Value::Array(list));
                    self.alias(&mut aliases, &line[1], None);
                }
                _ => {
                    let condition = if op == "until" || op == "either" { &line[1..] } else { &line[..] };
                    if !holds(condition, &env) {
                        let alternatives: Vec<&[String]> =
                            condition.split(|w| w == "or").collect();
                        let chosen = alternatives[self.roll(alternatives.len())];
                        let origins = aliases.clone();
                        let computed = Player::origin(&origins, &chosen[1]).is_none();
                        let chosen = if computed && chosen[0] == "same" {
                            vec!["same".to_owned(), chosen[2].clone(), chosen[1].clone()]
                        } else {
                            chosen.to_vec()
                        };
                        self.repair(&chosen, &env, &|p| Player::origin(&origins, p));
                        return false;
                    }
                }
            }
        }
        true
    }

    fn alias(
        &self,
        aliases: &mut BTreeMap<String, Option<Place>>,
        name: &str,
        place: Option<Place>,
    ) {
        let inner = format!("{name},");
        aliases.retain(|k, _| !k.starts_with(&inner));
        aliases.insert(name.to_owned(), place);
    }

    fn bind(
        &self,
        env: &mut Value,
        aliases: &mut BTreeMap<String, Option<Place>>,
        name: &str,
        place: Option<Place>,
    ) {
        if let Some(place) = &place {
            set(env, name, self.value(place));
        }
        self.alias(aliases, name, place);
    }

    fn solve(&mut self) {
        let mut tried = BTreeSet::new();
        for round in 0..6000 {
            if self.pass() {
                return;
            }
            if round > 5000 {
                tried.insert(self.lines[self.reached].join(" "));
            }
        }
        panic!("no answers found among {tried:?}");
    }

    fn play(&self, start: &dyn Fn(Json) -> Scenario) -> Step {
        let mut scenario = start(converted(&self.known));
        let mut step = scenario.begin();
        let mut asked = 0;
        while let Step::Perform { again, .. } = step {
            if again || asked >= self.replies.len() {
                return Step::Failed { message: "unanswered".to_owned() };
            }
            step = scenario.resume(converted(&self.replies[asked]), true);
            asked += 1;
        }
        step
    }

    /// Breaks the answers one check at a time: no broken run reaches the end.
    fn break_checks(&mut self, start: &dyn Fn(Json) -> Scenario) -> usize {
        let simple = [
            "is", "true", "false", "num", "object", "list", "whole", "positive", "nonempty",
            "contains", "starts", "ends", "member", "len", "keys", "null", "empty",
        ];
        let mut broken = 0;
        let lines = self.lines.clone();
        for line in &lines {
            if !simple.contains(&line[0].as_str()) || line.iter().any(|w| w == "or") {
                continue;
            }
            let Some(place) = self.place_before_end(line) else {
                continue;
            };
            let kept = self.value(&place);
            self.put(&place, text("\u{1}broken"));
            let step = self.play(start);
            assert!(!matches!(step, Step::Done), "a broken answer passed: {line:?}");
            self.put(&place, kept);
            broken += 1;
        }
        broken
    }

    /// The origin of a check's value, where its name is bound exactly once.
    fn place_before_end(&self, line: &[String]) -> Option<Place> {
        let root = line[1].split(',').next()?.to_owned();
        let mut asked = 0;
        let mut bound = Vec::new();
        for other in &self.lines {
            match other[0].as_str() {
                "do" => asked += 1,
                "wait" | "watch" | "poll" => {
                    asked += 1;
                    if other[1] == root {
                        bound.push((asked, if other[0] == "wait" { "document" } else { "value" }));
                    }
                }
                "ok" if other[1] == root => bound.push((asked, "value")),
                "success" if other[1] == root => bound.push((asked, "document")),
                "keep" | "text" | "need" | "number" | "pick" | "first" | "put" | "say"
                | "gather" | "add" | "tell" | "void" | "mark" | "glue" | "make"
                    if other[1].split(',').next() == Some(root.as_str()) =>
                {
                    return None;
                }
                _ => {}
            }
        }
        match (bound.as_slice(), line[1].split_once(',')) {
            ([(asked, part)], Some((_, rest))) => Some((*asked, format!("{part},{rest}"))),
            ([(asked, part)], None) => Some((*asked, (*part).to_owned())),
            _ => None,
        }
    }
}

fn succeeded() -> Json {
    Json::object().with("terminal", Json::text("succeeded"))
}

fn eligible() -> Json {
    Json::object().set("result,outcome", Json::text("eligible"))
}

fn started(scenario: Option<Scenario>) -> Scenario {
    match scenario {
        Some(scenario) => scenario,
        None => panic!("no such scenario"),
    }
}

fn check(name: &str, known: Json) -> Scenario {
    started(slotbook::observe(name, known))
}

fn part(name: &str, known: Json) -> Scenario {
    started(slotbook::qualify(name, known))
}

fn parsed(text: &str) -> Value {
    match serde_json::from_str(text) {
        Ok(value) => value,
        Err(error) => panic!("{error}"),
    }
}

fn played(script: &[Line], known: &str, start: impl Fn(Json) -> Scenario) -> usize {
    played_after(script, known, 0, Value::Null, start)
}

/// A configuration with its first actor and lists for what is granted.
fn configured() -> Value {
    parsed(
        "{\"runtime\":{},\"actors\":[{\"authority\":{\"resources\":{\"capability\":{\"identities\":{\"values\":[]},\"operations\":{\"values\":[]}},\"network\":{\"profiles\":[],\"destinations\":[]}}}}],\"adapters\":{\"managed_linux\":{\"recipes\":[]}}}",
    )
}

/// The script is played with one of its answers given.
fn played_after(
    script: &[Line],
    known: &str,
    reply: usize,
    value: Value,
    start: impl Fn(Json) -> Scenario,
) -> usize {
    let mut player = Player::new(script, parsed(known));
    if reply > 0 {
        player.answer(reply);
        player.put(&(reply, "value".to_owned()), value);
    }
    player.solve();
    match player.play(&start) {
        Step::Done => {}
        other => panic!("{other:?}"),
    }
    player.break_checks(&start)
}

#[test]
fn headless_plays_to_its_end() {
    played(&HEADLESS, "{}", headless::run);
}

#[test]
fn starter_plays_to_its_end() {
    played(&STARTER, "{}", headless::exercise_starter);
}

#[test]
fn model_example_plays_to_its_end() {
    played(&MODEL_EXAMPLE, "{}", headless::exercise_model);
}

#[test]
fn controller_plays_to_its_end() {
    played(&CONTROLLER, "{}", controller::run);
}

#[test]
fn prelude_plays_to_its_end() {
    played(&PRELUDE, "{}", controller::prelude);
}

#[test]
fn model_refusal_plays_to_its_end() {
    played(&MODEL_REFUSAL, "{}", controller::exercise);
}

#[test]
fn race_plays_to_its_end() {
    played(&RACE_START, "{}", controller::race_start);
    played(&RACE_RESERVED, "{\"child\":\"c\"}", controller::race_reserved);
    played(&RACE_HEALTH, "{}", controller::race_health);
    played(&RACE, "{\"child\":\"c\"}", controller::race);
}

#[test]
fn entered_process_plays_to_its_end() {
    played(&ENTERED_PROCESS, "{}", controller::entered_process);
}

#[test]
fn local_model_plays_to_its_end() {
    played(&LOCAL_MODEL, "{}", local_model::run);
}

#[test]
fn acceptance_plays_to_its_end() {
    played(&ACCEPTANCE, "{}", local_model::acceptance);
}

#[test]
fn continuation_plays_to_its_end() {
    played(&joined(&CONTINUATION_START, &CONTINUATION), "{}", |k| local_model::run_case(false, k));
}

#[test]
fn continuation_rejected_plays_to_its_end() {
    played(&joined(&CONTINUATION_START, &CONTINUATION_REJECTED), "{}", |k| local_model::run_case(true, k));
}

#[test]
fn preparation_plays_to_its_end() {
    played(&PREPARATION, "{}", local_model::preparation);
}

#[test]
fn external_scenarios_plays_to_its_end() {
    played(&EXTERNAL_SCENARIOS, "{}", external::run_scenarios);
}

#[test]
fn external_process_plays_to_its_end() {
    let fixture = joined(&EXTERNAL_PROCESS, &PROCESS_FIXTURE);
    let real = joined(&EXTERNAL_PROCESS, &PROCESS_REAL);
    played(&fixture, "{}", |k| external::run_process_scenario(true, k));
    played(&real, "{}", |k| external::run_process_scenario(false, k));
}

fn joined(first: &[Line], second: &[Line]) -> Vec<Line> {
    let mut all = first.to_vec();
    all.extend_from_slice(second);
    all
}

fn evidence(script: &[Line], start: impl Fn(Json) -> Scenario) -> Json {
    let mut player = Player::new(script, Value::Object(serde_json::Map::new()));
    player.solve();
    let mut scenario = start(converted(&player.known));
    let mut step = scenario.begin();
    for reply in &player.replies {
        assert!(matches!(step, Step::Perform { again: false, .. }));
        step = scenario.resume(converted(reply), true);
    }
    assert!(matches!(step, Step::Done));
    scenario.known().get("evidence")
}

#[test]
fn fixture_evidence_never_qualifies() {
    for (fixture, process, model) in [
        (true, &PROCESS_FIXTURE, &MODEL_FIXTURE),
        (false, &PROCESS_REAL, &MODEL_REAL),
    ] {
        let found = evidence(&joined(&EXTERNAL_PROCESS, process), |k| {
            external::run_process_scenario(fixture, k)
        });
        assert!(found.is_flag("qualifying", !fixture));
        assert!(found.is_flag("profile,fixture_rejected_for_qualification", fixture));
        assert!(found.is_text("outcome", "succeeded") && found.is_null("failure_reason"));
        assert_eq!((found.count("attempts"), found.count("revisions")), (5, 2));
        assert_eq!(found.count("restart_boundaries"), 1);
        let boundary = found.get("restart_boundaries,#0");
        assert!(boundary.get("sequence_before").same(&boundary.get("sequence_after")));
        assert!(found.is_number("facts,distinct_process_invocations", 5));
        let found = evidence(&joined(&EXTERNAL_MODEL_COMPLETED, model), |k| {
            external::finish_model_scenario(fixture, &succeeded(), k)
        });
        assert!(found.is_flag("qualifying", !fixture) && found.is_text("outcome", "succeeded"));
        assert_eq!((found.count("attempts"), found.count("revisions")), (1, 1));
    }
}

#[test]
fn external_model_plays_to_its_end() {
    played(&EXTERNAL_MODEL, "{}", external::run_model_scenario);
}

#[test]
fn failed_models_end_with_their_reason() {
    let mut player = Player::new(
        &EXTERNAL_MODEL_FAILED[..EXTERNAL_MODEL_FAILED.len() - 2],
        entries(&[]),
    );
    player.solve();
    for (reply, path, value) in [
        (1, "value,last_failure", text("worker \"lost\"")),
        (2, "value,terminal", text("failed")),
        (2, "value,state", text("running")),
        (2, "value,progress_observations", Value::from(4)),
        (2, "value,outputs", Value::Array(vec![entries(&[("name", text("response"))])])),
        (3, "value", Value::from(1)),
        (4, "value", Value::Array(vec![text("POST /v1"), text("{}")])),
    ] {
        player.put(&(reply, path.to_owned()), value);
    }
    let step = player.play(&|k| external::finish_model_scenario(true, &Json::object(), k));
    match step {
        Step::Failed { message } => assert_eq!(
            message,
            "model attempt did not complete; fixture_requests=1; \
             fixture_request_lines=[\"POST /v1\", \"{}\"]; \
             worker_failure=Some(\"worker \\\"lost\\\"\"); attempt_state=running; progress=4; \
             terminal=Some(\"failed\"); outputs=[\"response\"]",
        ),
        other => panic!("{other:?}"),
    }
}

#[test]
fn judged_models_end_with_the_refusal_of_their_result() {
    let completed = parsed(
        "{\"nodes\":[{\"node_id\":\"model-acceptance\",\"latest_attempt_id\":\"a\"}]}",
    );
    let known = entries(&[("completed", completed.clone())]);
    let mut player =
        Player::new(&EXTERNAL_MODEL_JUDGED[..EXTERNAL_MODEL_JUDGED.len() - 2], known);
    player.solve();
    player.put(&(3, "value,result_acceptance,accepted".to_owned()), Value::Bool(false));
    player.put(&(3, "value,result_acceptance,reason".to_owned()), text("too short"));
    let step =
        player.play(&|k| external::finish_model_scenario(true, &converted(&completed), k));
    match step {
        Step::Failed { message } => assert_eq!(
            message,
            "model result not accepted: too short; invocation terminal=unobserved",
        ),
        other => panic!("{other:?}"),
    }
}

#[test]
fn external_model_completed_plays_to_its_end() {
    let script = joined(&EXTERNAL_MODEL_COMPLETED, &MODEL_REAL);
    played(&script, "{}", |k| external::finish_model_scenario(false, &succeeded(), k));
}

#[test]
fn independent_plays_to_its_end() {
    played(&INDEPENDENT, "{}", independent::run);
}

#[test]
fn remote_open_plays_to_its_end() {
    played(&REMOTE_OPEN, "{}", independent::remote_open);
}

#[test]
fn remote_process_plays_to_its_end() {
    played(&REMOTE_PROCESS, "{}", independent::remote_process);
}

#[test]
fn remote_model_plays_to_its_end() {
    played(&REMOTE_MODEL, "{}", independent::remote_model);
}

#[test]
fn remote_uncertain_plays_to_its_end() {
    played(&REMOTE_UNCERTAIN, "{}", independent::remote_uncertain);
}

#[test]
fn remote_close_plays_to_its_end() {
    played(&REMOTE_CLOSE, "{}", independent::remote_close);
}

#[test]
fn lost_steps_end_with_what_was_retained() {
    let known = "{\"root\":\"r\",\"child_run\":\"c\",\"error\":\"late\"}";
    let checked = &REMOTE_LOST[..REMOTE_LOST.len() - 2];
    let mut player = Player::new(checked, parsed(known));
    player.solve();
    let told = entries(&[("value,lifecycle", text("running"))]);
    player.put(&(2, "document,value,lifecycle".to_owned()), get(&told, "value,lifecycle"));
    player.put(&(6, "value,invocations".to_owned()), Value::from(2));
    player.put(&(5, "value".to_owned()), text("nothing"));
    match player.play(&independent::remote_lost) {
        Step::Failed { message } => {
            assert!(message.starts_with("late; child={"), "{message}");
            assert!(message.contains("\"lifecycle\":\"running\""), "{message}");
            assert!(message.ends_with("; model requests=2; serving=nothing"), "{message}");
        }
        other => panic!("{other:?}"),
    }
}

#[test]
fn public_availability_plays_to_its_end() {
    played(&PUBLIC_AVAILABILITY, "{\"resource\":\"pottery\"}", |k| check("public-availability", k));
}

#[test]
fn authenticated_mutation_plays_to_its_end() {
    played(&AUTHENTICATED_MUTATION, "{\"resource\":\"pottery\"}", |k| check("authenticated-mutation", k));
}

#[test]
fn capacity_and_intervals_plays_to_its_end() {
    played(&CAPACITY_AND_INTERVALS, "{\"resource\":\"pottery\"}", |k| check("capacity-and-intervals", k));
}

#[test]
fn durable_bookings_plays_to_its_end() {
    played(&DURABLE_BOOKINGS, "{\"resource\":\"pottery\"}", |k| check("durable-bookings", k));
}

#[test]
fn cancellation_policy_plays_to_its_end() {
    played(&CANCELLATION_POLICY, "{\"resource\":\"pottery\"}", |k| check("cancellation-policy", k));
}

#[test]
fn slotbook_prepare_plays_to_its_end() {
    played(&SLOTBOOK_PREPARE, "{}", slotbook::prepare);
}

#[test]
fn slotbook_session_plays_to_its_end() {
    for (published, mode, end) in [
        (false, InvocationMode::Direct, &SESSION_PLAIN[..]),
        (true, InvocationMode::Direct, &SESSION_PUBLISHED[..]),
        (true, InvocationMode::Peer, &SESSION_PEER[..]),
    ] {
        let script = joined(&SLOTBOOK_SESSION, end);
        played_after(&script, "{}", 4, configured(), |k| slotbook::session(published, mode, k));
    }
}

#[test]
fn qualify_open_plays_to_its_end() {
    played(&QUALIFY_OPEN, "{}", |k| part("open", k));
}

#[test]
fn qualify_run_plays_to_its_end() {
    played(&QUALIFY_RUN, "{}", |k| part("run", k));
}

#[test]
fn qualify_direct_plays_to_its_end() {
    played(&joined(&QUALIFY_PUBLISH, &QUALIFY_DIRECT), "{}", |k| part("direct", k));
}

#[test]
fn qualify_workflow_plays_to_its_end() {
    played(&joined(&QUALIFY_PUBLISH, &QUALIFY_WORKFLOW), "{}", |k| part("workflow", k));
}

#[test]
fn qualify_peer_plays_to_its_end() {
    played(&joined(&QUALIFY_PUBLISH, &QUALIFY_PEER), "{}", |k| part("peer", k));
}

#[test]
fn qualify_link_plays_to_its_end() {
    played(&QUALIFY_LINK, "{}", |k| part("link", k));
}

#[test]
fn qualify_repair_plays_to_its_end() {
    played(&QUALIFY_REPAIR, "{}", |k| part("repair", k));
}

#[test]
fn qualify_handoff_plays_to_its_end() {
    played(&QUALIFY_HANDOFF, "{}", |k| part("handoff", k));
}

#[test]
fn qualify_completed_plays_to_its_end() {
    played(&QUALIFY_COMPLETED, "{}", |k| part("completed", k));
}

#[test]
fn qualify_outer_result_plays_to_its_end() {
    played(&QUALIFY_OUTER_RESULT, "{}", |k| part("outer-result", k));
}

#[test]
fn qualify_public_result_plays_to_its_end() {
    played(&QUALIFY_PUBLIC_RESULT, "{}", |k| part("public-result", k));
}

#[test]
fn qualify_served_plays_to_its_end() {
    played(&QUALIFY_SERVED, "{}", |k| part("served", k));
}

#[test]
fn qualify_outer_replay_plays_to_its_end() {
    played(&QUALIFY_OUTER_REPLAY, "{}", |k| part("outer-replay", k));
}

#[test]
fn qualify_public_replay_plays_to_its_end() {
    played(&QUALIFY_PUBLIC_REPLAY, "{}", |k| part("public-replay", k));
}

#[test]
fn qualify_no_deployment_plays_to_its_end() {
    played(&QUALIFY_NO_DEPLOYMENT, "{}", |k| part("no-deployment", k));
}

#[test]
fn qualify_renewed_plays_to_its_end() {
    played(&QUALIFY_RENEWED, "{}", |k| part("renewed", k));
}

#[test]
fn learn_prepare_plays_to_its_end() {
    played_after(&LEARN_PREPARE, "{}", 12, configured(), learning::prepare);
}

#[test]
fn learn_prepare_slot_plays_to_its_end() {
    played(&LEARN_PREPARE_SLOT, "{}", learning::prepare_slot);
}

#[test]
fn the_authored_method_is_imported_before_its_slots() {
    played(&LEARN_IMPORT, "{}", learning::import_method);
}

#[test]
fn learn_slot_plays_to_its_end() {
    played(&LEARN_SLOT, "{}", learning::setup_slot);
}

#[test]
fn learn_source_plays_to_its_end() {
    played(&LEARN_SOURCE, "{}", learning::select_source);
}

#[test]
fn learn_resumed_plays_to_its_end() {
    played(&LEARN_RESUMED, "{}", learning::resume);
}

#[test]
fn learn_redeclared_plays_to_its_end() {
    played(&LEARN_REDECLARED, "{}", learning::redeclare);
}

#[test]
fn learn_preauthorized_plays_to_its_end() {
    played(&LEARN_PREAUTHORIZED, "{}", learning::preauthorize);
}

#[test]
fn proposal_run_plays_to_its_end() {
    played(&PROPOSAL_RUN, "{}", learning::propose);
}

#[test]
fn proposal_denied_plays_to_its_end() {
    played(&PROPOSAL_DENIED, "{}", learning::deny_input);
}

#[test]
fn proposal_submitted_plays_to_its_end() {
    played(&PROPOSAL_SUBMITTED, "{}", learning::submit);
}

#[test]
fn evaluate_invoke_plays_to_its_end() {
    played(&EVALUATE_INVOKE, "{}", learning::invoke);
}

#[test]
fn evaluate_compared_plays_to_its_end() {
    played(&EVALUATE_COMPARED, "{}", learning::compare_arms);
}

#[test]
fn evaluate_promoted_plays_to_its_end() {
    played(&EVALUATE_PROMOTED, "{}", |k| learning::settle_promotion(&eligible(), k));
}

#[test]
fn evaluate_not_promoted_plays_to_its_end() {
    played(&EVALUATE_NOT_PROMOTED, "{}", |k| learning::settle_promotion(&Json::object(), k));
}

#[test]
fn evaluate_retained_plays_to_its_end() {
    played(&EVALUATE_RETAINED, "{}", learning::retained);
}

#[test]
fn variants_belong_to_the_selected_method_and_their_input() {
    played(&EVALUATE_SELECTED, "{}", learning::check_variant);
}

#[test]
fn evaluate_variant_plays_to_its_end() {
    played(&EVALUATE_VARIANT, "{}", learning::vary);
}

#[test]
fn evaluate_deployed_plays_to_its_end() {
    played(&EVALUATE_DEPLOYED, "{}", learning::deploy);
}

#[test]
fn tools_plays_to_its_end() {
    played(&TOOLS, "{}", learning::maintain_tools);
}

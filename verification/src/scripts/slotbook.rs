//! The Slotbook method: the finite application checks and the qualification of a protected target.

use vstd::prelude::*;

use crate::json::Json;
use crate::scenario::{opening, Line, Scenario};
use crate::slotbook::client::InvocationMode;
use crate::slotbook::qualification::parts_of;
use crate::text::same_text;

verus! {

/// The prepared example is bootstrapped, its worker previewed, and its configuration drawn up. Known
/// before: the `bind` and the recipe paths.
pub const SLOTBOOK_SESSION: [Line; 13] = [
    ("do", "", "directory evidence", ""),
    ("ok", "logs", "", ""),
    ("do", "", "bootstrap protected-recipe.json", ""),
    ("ok", "protected_output", "", ""),
    ("true", "protected_output,succeeded", "", "bootstrap refused: $protected_output,stderr"),
    ("keep", "protected", "protected_output,recipe", ""),
    ("do", "", "bootstrap worker-recipe.json --preview", ""),
    ("ok", "worker_output", "", ""),
    ("true", "worker_output,succeeded", "", "bootstrap refused: $worker_output,stderr"),
    ("keep", "worker", "worker_output,recipe", ""),
    ("do", "", "load host", ""),
    ("ok", "config", "", ""),
    ("make", "config", "slotbook-session-config", ""),
];

/// The configuration is checked by the daemon that will run it.
pub const SESSION_PLAIN: [Line; 5] = [
    ("do", "", "save-config config", ""),
    ("ok", "saved", "", ""),
    ("do", "", "check-config daemon", ""),
    ("ok", "checked", "", ""),
    ("true", "checked,succeeded", "", "qualification config refused: $checked,stderr"),
];

/// The method is to be published: its consumer gets a credential, and the configuration is checked by
/// the daemon that will run it.
pub const SESSION_PUBLISHED: [Line; 10] = [
    ("do", "", "credential consumer.token", ""),
    ("ok", "consumer", "", ""),
    ("put", "offer,config", "config", ""),
    ("put", "offer,credential", "consumer,path", ""),
    ("make", "config", "publication-config offer", ""),
    ("do", "", "save-config config", ""),
    ("ok", "saved", "", ""),
    ("do", "", "check-config daemon", ""),
    ("ok", "checked", "", ""),
    ("true", "checked,succeeded", "", "qualification config refused: $checked,stderr"),
];

/// The method is to be called from a peer: both daemons learn of each other, and each configuration is
/// checked by its daemon. Known before: both endpoints, the origin's bind and its data directory.
pub const SESSION_PEER: [Line; 33] = [
    ("do", "", "credential consumer.token", ""),
    ("ok", "consumer", "", ""),
    ("put", "offer,config", "config", ""),
    ("put", "offer,credential", "consumer,path", ""),
    ("make", "config", "publication-config offer", ""),
    ("do", "", "credential peer.token", ""),
    ("ok", "peer", "", ""),
    ("say", "caller,peer", "host:slotbook-caller", ""),
    ("put", "caller,endpoint", "origin_endpoint", ""),
    ("make", "caller_relationship", "peer-relationship caller", ""),
    ("put", "provider,config", "config", ""),
    ("put", "provider,credential", "peer,path", ""),
    ("put", "provider,relationship", "caller_relationship", ""),
    ("make", "config", "peer-provider-config provider", ""),
    ("say", "target,peer", "host:slotbook-test", ""),
    ("put", "target,endpoint", "endpoint", ""),
    ("make", "target_relationship", "peer-relationship target", ""),
    ("put", "origin,config", "config", ""),
    ("put", "origin,data_root", "origin_data", ""),
    ("put", "origin,bind", "origin_bind", ""),
    ("put", "origin,relationship", "target_relationship", ""),
    ("put", "origin,destination", "bind", ""),
    ("make", "origin_config", "peer-origin-config origin", ""),
    ("do", "", "save-origin origin_config", ""),
    ("ok", "saved", "", ""),
    ("do", "", "save-config config", ""),
    ("ok", "saved", "", ""),
    ("do", "", "check-config daemon", ""),
    ("ok", "checked", "", ""),
    ("true", "checked,succeeded", "", "qualification config refused: $checked,stderr"),
    ("do", "", "check-config origin", ""),
    ("ok", "origin_checked", "", ""),
    ("true", "origin_checked,succeeded", "", "qualification config refused: $origin_checked,stderr"),
];

/// The example's method, its governance and its recipes are authored in a new private directory.
/// Known before: the `image`, the `target_version` and the file `paths`.
pub const SLOTBOOK_PREPARE: [Line; 44] = [
    ("do", "", "directory", ""),
    ("ok", "root", "", ""),
    ("do", "", "credential service.token", ""),
    ("ok", "token", "", ""),
    ("do", "", "clock 2027-04-10T09:00:00Z", ""),
    ("ok", "clock_file", "", ""),
    ("do", "", "trusted-verifier", ""),
    ("ok", "verifier_copy", "", ""),
    ("keep", "verifier", "verifier_copy,digest", ""),
    ("make", "policy", "slotbook-policy", ""),
    ("do", "", "save policy.json policy", ""),
    ("ok", "policy_file", "", ""),
    ("do", "", "local blueprint effect-policy $policy_file", ""),
    ("ok", "described", "", ""),
    ("make", "requirement", "slotbook-requirement", ""),
    ("make", "mutations", "method-mutations requirement target_version", ""),
    ("do", "", "save method-mutations.json mutations", ""),
    ("ok", "mutations_file", "", ""),
    ("make", "scope", "slotbook-scope", ""),
    ("do", "", "save adaptation-scope.json scope", ""),
    ("ok", "scope_file", "", ""),
    ("do", "", "local blueprint create $mutations_file --workflow slotbook --author human:operator --output $paths,base", ""),
    ("ok", "created", "", ""),
    ("need", "policy_digest", "described,digest", "policy digest absent"),
    ("do", "", "local blueprint govern $paths,base --scope $scope_file --name slotbook-agreement --effect-policy $policy_digest --author human:operator --output $paths,governed", ""),
    ("ok", "governed", "", ""),
    ("keep", "agreement", "governed,agreement", ""),
    ("keep", "token_file", "token,path", ""),
    ("keep", "token_digest", "token,digest", ""),
    ("keep", "verifier_digest", "verifier_copy,digest", ""),
    ("keep", "verifier", "verifier_copy,path", ""),
    ("make", "protected", "slotbook-protected-recipe", ""),
    ("do", "", "save protected-recipe.json protected", ""),
    ("ok", "saved", "", ""),
    ("make", "worker", "slotbook-worker-recipe", ""),
    ("do", "", "save worker-recipe.json worker", ""),
    ("ok", "saved", "", ""),
    ("make", "repair", "repair-mutations requirement", ""),
    ("do", "", "save repair-mutations.json repair", ""),
    ("ok", "saved", "", ""),
    ("put", "summary,root", "root", ""),
    ("put", "summary,agreement", "agreement", ""),
    ("put", "summary,policy", "policy_digest", ""),
    ("say", "summary,candidate_lane", "compiled seeded fixtures, not model output", ""),
];

/// Anyone reads the remaining capacity, which a booking lowers.
pub const PUBLIC_AVAILABILITY: [Line; 19] = [
    ("do", "", "clear", ""),
    ("ok", "cleared", "", ""),
    ("null", "cleared,violation", "", "$cleared,violation"),
    ("make", "query", "availability-path =2027-04-10T10:00:00Z =2027-04-10T11:00:00Z", ""),
    ("do", "", "get $query none", ""),
    ("ok", "seen", "", ""),
    ("make", "left", "remaining seen resource =2027-04-10T10:00:00Z =2027-04-10T11:00:00Z", ""),
    ("null", "left,violation", "", "$left,violation"),
    ("num", "left,count", "2", "public availability differs"),
    ("do", "", "book Ada 2027-04-10T10:00:00Z 2027-04-10T11:00:00Z 1 token", ""),
    ("ok", "answer", "", ""),
    ("null", "answer,violation", "", "$answer,violation"),
    ("num", "answer,status", "201", "public availability differs"),
    ("make", "query", "availability-path =2027-04-10T10:00:00Z =2027-04-10T11:00:00Z", ""),
    ("do", "", "get $query none", ""),
    ("ok", "seen", "", ""),
    ("make", "left", "remaining seen resource =2027-04-10T10:00:00Z =2027-04-10T11:00:00Z", ""),
    ("null", "left,violation", "", "$left,violation"),
    ("num", "left,count", "1", "public availability differs"),
];

/// Only the service credential creates or cancels bookings.
pub const AUTHENTICATED_MUTATION: [Line; 65] = [
    ("do", "", "clear", ""),
    ("ok", "cleared", "", ""),
    ("null", "cleared,violation", "", "$cleared,violation"),
    ("do", "", "get /reservations token", ""),
    ("ok", "seen", "", ""),
    ("make", "rows", "active seen", ""),
    ("null", "rows,violation", "", "$rows,violation"),
    ("keep", "before", "rows,items", ""),
    ("do", "", "book Ada 2027-04-10T10:00:00Z 2027-04-10T11:00:00Z 1 none", ""),
    ("ok", "answer", "", ""),
    ("null", "answer,violation", "", "$answer,violation"),
    ("num", "answer,status", "401", "unauthorized creation changed bookings"),
    ("do", "", "get /reservations token", ""),
    ("ok", "seen", "", ""),
    ("make", "rows", "active seen", ""),
    ("null", "rows,violation", "", "$rows,violation"),
    ("keep", "after", "rows,items", ""),
    ("same", "after", "before", "unauthorized creation changed bookings"),
    ("do", "", "book Ada 2027-04-10T10:00:00Z 2027-04-10T11:00:00Z 1 incorrect", ""),
    ("ok", "answer", "", ""),
    ("null", "answer,violation", "", "$answer,violation"),
    ("num", "answer,status", "401", "unauthorized creation changed bookings"),
    ("do", "", "get /reservations token", ""),
    ("ok", "seen", "", ""),
    ("make", "rows", "active seen", ""),
    ("null", "rows,violation", "", "$rows,violation"),
    ("keep", "after", "rows,items", ""),
    ("same", "after", "before", "unauthorized creation changed bookings"),
    ("do", "", "book Ada 2027-04-10T10:00:00Z 2027-04-10T11:00:00Z 1 token", ""),
    ("ok", "booked", "", ""),
    ("null", "booked,violation", "", "$booked,violation"),
    ("num", "booked,status", "201", "authorized creation refused"),
    ("make", "place", "booking-path booked,body", ""),
    ("do", "", "delete $place none", ""),
    ("ok", "answer", "", ""),
    ("null", "answer,violation", "", "$answer,violation"),
    ("num", "answer,status", "401", "unauthorized cancellation changed bookings"),
    ("make", "query", "availability-path =2027-04-10T10:00:00Z =2027-04-10T11:00:00Z", ""),
    ("do", "", "get $query none", ""),
    ("ok", "seen", "", ""),
    ("make", "left", "remaining seen resource =2027-04-10T10:00:00Z =2027-04-10T11:00:00Z", ""),
    ("null", "left,violation", "", "$left,violation"),
    ("num", "left,count", "1", "unauthorized cancellation changed bookings"),
    ("make", "place", "booking-path booked,body", ""),
    ("do", "", "delete $place incorrect", ""),
    ("ok", "answer", "", ""),
    ("null", "answer,violation", "", "$answer,violation"),
    ("num", "answer,status", "401", "unauthorized cancellation changed bookings"),
    ("make", "query", "availability-path =2027-04-10T10:00:00Z =2027-04-10T11:00:00Z", ""),
    ("do", "", "get $query none", ""),
    ("ok", "seen", "", ""),
    ("make", "left", "remaining seen resource =2027-04-10T10:00:00Z =2027-04-10T11:00:00Z", ""),
    ("null", "left,violation", "", "$left,violation"),
    ("num", "left,count", "1", "unauthorized cancellation changed bookings"),
    ("make", "place", "booking-path booked,body", ""),
    ("do", "", "delete $place token", ""),
    ("ok", "answer", "", ""),
    ("null", "answer,violation", "", "$answer,violation"),
    ("num", "answer,status", "200", "authorized cancellation refused"),
    ("make", "query", "availability-path =2027-04-10T10:00:00Z =2027-04-10T11:00:00Z", ""),
    ("do", "", "get $query none", ""),
    ("ok", "seen", "", ""),
    ("make", "left", "remaining seen resource =2027-04-10T10:00:00Z =2027-04-10T11:00:00Z", ""),
    ("null", "left,violation", "", "$left,violation"),
    ("num", "left,count", "2", "authorized cancellation refused"),
];

/// Invalid requests are refused, contenders never exceed capacity, and adjacent intervals do not
/// overlap.
pub const CAPACITY_AND_INTERVALS: [Line; 71] = [
    ("do", "", "clear", ""),
    ("ok", "cleared", "", ""),
    ("null", "cleared,violation", "", "$cleared,violation"),
    ("do", "", "book Ada 2027-04-10T11:00:00Z 2027-04-10T10:00:00Z 1 token", ""),
    ("ok", "answer", "", ""),
    ("null", "answer,violation", "", "$answer,violation"),
    ("num", "answer,status", "400", "invalid interval or quantity accepted"),
    ("do", "", "book Ada 2027-04-10T10:00:00Z 2027-04-10T10:00:00Z 1 token", ""),
    ("ok", "answer", "", ""),
    ("null", "answer,violation", "", "$answer,violation"),
    ("num", "answer,status", "400", "invalid interval or quantity accepted"),
    ("do", "", "book Ada not-a-date 2027-04-10T11:00:00Z 1 token", ""),
    ("ok", "answer", "", ""),
    ("null", "answer,violation", "", "$answer,violation"),
    ("num", "answer,status", "400", "invalid interval or quantity accepted"),
    ("do", "", "book Ada 2027-04-10T10:00:00Z 2027-04-10T11:00:00Z 0 token", ""),
    ("ok", "answer", "", ""),
    ("null", "answer,violation", "", "$answer,violation"),
    ("num", "answer,status", "400", "invalid interval or quantity accepted"),
    ("do", "", "get /reservations token", ""),
    ("ok", "seen", "", ""),
    ("make", "rows", "active seen", ""),
    ("null", "rows,violation", "", "$rows,violation"),
    ("keep", "before", "rows,items", ""),
    ("empty", "before", "", "initial capacity differs"),
    ("do", "", "book Ada 2027-04-10T10:00:00Z 2027-04-10T11:00:00Z 1 token", ""),
    ("ok", "answer", "", ""),
    ("null", "answer,violation", "", "$answer,violation"),
    ("num", "answer,status", "201", "initial capacity differs"),
    ("do", "", "contend", ""),
    ("ok", "contenders", "", ""),
    ("null", "contenders,violation", "", "$contenders,violation"),
    ("matching", "contenders,answers", "1 num status 201", "concurrent bookings exceeded capacity"),
    ("matching", "contenders,answers", "1 num status 409", "concurrent bookings exceeded capacity"),
    ("make", "query", "availability-path =2027-04-10T10:00:00Z =2027-04-10T11:00:00Z", ""),
    ("do", "", "get $query none", ""),
    ("ok", "seen", "", ""),
    ("make", "left", "remaining seen resource =2027-04-10T10:00:00Z =2027-04-10T11:00:00Z", ""),
    ("null", "left,violation", "", "$left,violation"),
    ("num", "left,count", "0", "concurrent bookings exceeded capacity"),
    ("do", "", "get /reservations token", ""),
    ("ok", "seen", "", ""),
    ("make", "rows", "active seen", ""),
    ("null", "rows,violation", "", "$rows,violation"),
    ("keep", "held", "rows,items", ""),
    ("len", "held", "2", "concurrent bookings exceeded capacity"),
    ("do", "", "get /reservations token", ""),
    ("ok", "seen", "", ""),
    ("make", "rows", "active seen", ""),
    ("null", "rows,violation", "", "$rows,violation"),
    ("keep", "before", "rows,items", ""),
    ("do", "", "book Ada 2027-04-10T10:00:00Z 2027-04-10T11:00:00Z 1 token", ""),
    ("ok", "answer", "", ""),
    ("null", "answer,violation", "", "$answer,violation"),
    ("num", "answer,status", "409", "over-capacity refusal mutated state"),
    ("do", "", "get /reservations token", ""),
    ("ok", "seen", "", ""),
    ("make", "rows", "active seen", ""),
    ("null", "rows,violation", "", "$rows,violation"),
    ("keep", "after", "rows,items", ""),
    ("same", "after", "before", "over-capacity refusal mutated state"),
    ("do", "", "book Ada 2027-04-10T11:00:00Z 2027-04-10T12:00:00Z 1 token", ""),
    ("ok", "answer", "", ""),
    ("null", "answer,violation", "", "$answer,violation"),
    ("num", "answer,status", "201", "adjacent intervals overlap"),
    ("make", "query", "availability-path =2027-04-10T11:00:00Z =2027-04-10T12:00:00Z", ""),
    ("do", "", "get $query none", ""),
    ("ok", "seen", "", ""),
    ("make", "left", "remaining seen resource =2027-04-10T11:00:00Z =2027-04-10T12:00:00Z", ""),
    ("null", "left,violation", "", "$left,violation"),
    ("num", "left,count", "1", "adjacent intervals overlap"),
];

/// Bookings survive the recreation of their container.
pub const DURABLE_BOOKINGS: [Line; 60] = [
    ("do", "", "clear", ""),
    ("ok", "cleared", "", ""),
    ("null", "cleared,violation", "", "$cleared,violation"),
    ("do", "", "book Ada 2027-04-10T10:00:00Z 2027-04-10T11:00:00Z 1 token", ""),
    ("ok", "answer", "", ""),
    ("null", "answer,violation", "", "$answer,violation"),
    ("num", "answer,status", "201", "initial durable capacity differs"),
    ("do", "", "book Bo 2027-04-10T10:00:00Z 2027-04-10T11:00:00Z 1 token", ""),
    ("ok", "answer", "", ""),
    ("null", "answer,violation", "", "$answer,violation"),
    ("num", "answer,status", "201", "initial durable capacity differs"),
    ("do", "", "book Ada 2027-04-10T10:00:00Z 2027-04-10T11:00:00Z 1 token", ""),
    ("ok", "answer", "", ""),
    ("null", "answer,violation", "", "$answer,violation"),
    ("num", "answer,status", "409", "initial durable capacity differs"),
    ("do", "", "get /reservations token", ""),
    ("ok", "seen", "", ""),
    ("make", "rows", "active seen", ""),
    ("null", "rows,violation", "", "$rows,violation"),
    ("keep", "held", "rows,items", ""),
    ("make", "item", "first-booking held", ""),
    ("make", "place", "booking-path item", ""),
    ("do", "", "delete $place token", ""),
    ("ok", "answer", "", ""),
    ("null", "answer,violation", "", "$answer,violation"),
    ("num", "answer,status", "200", "replacement reservation failed"),
    ("do", "", "book Ada 2027-04-10T10:00:00Z 2027-04-10T11:00:00Z 1 token", ""),
    ("ok", "answer", "", ""),
    ("null", "answer,violation", "", "$answer,violation"),
    ("num", "answer,status", "201", "replacement reservation failed"),
    ("do", "", "get /reservations token", ""),
    ("ok", "seen", "", ""),
    ("make", "rows", "active seen", ""),
    ("null", "rows,violation", "", "$rows,violation"),
    ("keep", "before", "rows,items", ""),
    ("do", "", "container stop", ""),
    ("ok", "stopped", "", ""),
    ("null", "stopped,violation", "", "$stopped,violation"),
    ("do", "", "container inspect", ""),
    ("ok", "state", "", ""),
    ("null", "state,violation", "", "$state,violation"),
    ("false", "state,value,State,Running", "", "container stop not observed"),
    ("do", "", "container remove", ""),
    ("ok", "removed", "", ""),
    ("null", "removed,violation", "", "$removed,violation"),
    ("do", "", "container launch", ""),
    ("ok", "launched", "", ""),
    ("null", "launched,violation", "", "$launched,violation"),
    ("do", "", "get /reservations token", ""),
    ("ok", "seen", "", ""),
    ("make", "rows", "active seen", ""),
    ("null", "rows,violation", "", "$rows,violation"),
    ("keep", "after", "rows,items", ""),
    ("same", "after", "before", "bookings changed after container recreation"),
    ("make", "query", "availability-path =2027-04-10T10:00:00Z =2027-04-10T11:00:00Z", ""),
    ("do", "", "get $query none", ""),
    ("ok", "seen", "", ""),
    ("make", "left", "remaining seen resource =2027-04-10T10:00:00Z =2027-04-10T11:00:00Z", ""),
    ("null", "left,violation", "", "$left,violation"),
    ("num", "left,count", "0", "bookings changed after container recreation"),
];

/// A cancellation releases capacity, may be repeated, and is refused from the cutoff on.
pub const CANCELLATION_POLICY: [Line; 54] = [
    ("do", "", "clear", ""),
    ("ok", "cleared", "", ""),
    ("null", "cleared,violation", "", "$cleared,violation"),
    ("do", "", "book Ada 2027-04-10T10:00:00Z 2027-04-10T11:00:00Z 1 token", ""),
    ("ok", "booked", "", ""),
    ("null", "booked,violation", "", "$booked,violation"),
    ("num", "booked,status", "201", "initial booking failed"),
    ("make", "selected", "booking-path booked,body", ""),
    ("make", "place", "booking-path booked,body", ""),
    ("do", "", "delete $place token", ""),
    ("ok", "answer", "", ""),
    ("null", "answer,violation", "", "$answer,violation"),
    ("num", "answer,status", "200", "repeated cancellation differs"),
    ("make", "place", "booking-path booked,body", ""),
    ("do", "", "delete $place token", ""),
    ("ok", "answer", "", ""),
    ("null", "answer,violation", "", "$answer,violation"),
    ("num", "answer,status", "200", "repeated cancellation differs"),
    ("make", "query", "availability-path =2027-04-10T10:00:00Z =2027-04-10T11:00:00Z", ""),
    ("do", "", "get $query none", ""),
    ("ok", "seen", "", ""),
    ("make", "left", "remaining seen resource =2027-04-10T10:00:00Z =2027-04-10T11:00:00Z", ""),
    ("null", "left,violation", "", "$left,violation"),
    ("num", "left,count", "2", "cancellation did not release capacity"),
    ("do", "", "book Ada 2027-04-10T10:00:00Z 2027-04-10T11:00:00Z 1 token", ""),
    ("ok", "booked", "", ""),
    ("null", "booked,violation", "", "$booked,violation"),
    ("num", "booked,status", "201", "second booking failed"),
    ("do", "", "clock 2027-04-10T10:00:00Z", ""),
    ("ok", "set", "", ""),
    ("make", "place", "booking-path booked,body", ""),
    ("do", "", "delete $place token", ""),
    ("ok", "answer", "", ""),
    ("null", "answer,violation", "", "$answer,violation"),
    ("num", "answer,status", "409", "cancellation cutoff bypassed"),
    ("make", "query", "availability-path =2027-04-10T10:00:00Z =2027-04-10T11:00:00Z", ""),
    ("do", "", "get $query none", ""),
    ("ok", "seen", "", ""),
    ("make", "left", "remaining seen resource =2027-04-10T10:00:00Z =2027-04-10T11:00:00Z", ""),
    ("null", "left,violation", "", "$left,violation"),
    ("num", "left,count", "1", "cancellation cutoff bypassed"),
    ("do", "", "clock 2027-04-10T10:30:00Z", ""),
    ("ok", "set", "", ""),
    ("make", "place", "booking-path booked,body", ""),
    ("do", "", "delete $place token", ""),
    ("ok", "answer", "", ""),
    ("null", "answer,violation", "", "$answer,violation"),
    ("num", "answer,status", "409", "cancellation cutoff bypassed"),
    ("make", "query", "availability-path =2027-04-10T10:00:00Z =2027-04-10T11:00:00Z", ""),
    ("do", "", "get $query none", ""),
    ("ok", "seen", "", ""),
    ("make", "left", "remaining seen resource =2027-04-10T10:00:00Z =2027-04-10T11:00:00Z", ""),
    ("null", "left,violation", "", "$left,violation"),
    ("num", "left,count", "1", "cancellation cutoff bypassed"),
];

/// The protected target and its worker are prepared, a seeded candidate fails exactly two checks,
/// and neither its evaluation nor a forged report is published. Known before: the `protected` and
/// `worker` recipe references and the file `paths`.
pub const QUALIFY_OPEN: [Line; 89] = [
    ("need", "recipe_name", "protected,name", "expected string in product response"),
    ("need", "recipe_digest", "protected,digest", "expected string in product response"),
    ("do", "", "resource protected-prepare success slotbook-test 0 prepare --recipe $recipe_name --digest $recipe_digest", ""),
    ("ok", "prepared", "", ""),
    ("is", "prepared,state", "prepared", "protected preparation differs"),
    ("num", "prepared,version", "0", "protected preparation differs"),
    ("do", "", "resource protected-apply success slotbook-test 0 apply --recipe $recipe_name --digest $recipe_digest", ""),
    ("ok", "applied", "", ""),
    ("do", "", "resource protected-before success slotbook-test 0 inspect", ""),
    ("ok", "state", "", ""),
    ("null", "state,pending", "", "protected target already running"),
    ("false", "state,desired_running", "", "protected target already running"),
    ("whole", "state,version", "", "expected integer in product response"),
    ("keep", "version", "state,version", ""),
    ("do", "", "load governed.json", ""),
    ("ok", "governed", "", ""),
    ("keep", "revision", "governed,revision", ""),
    ("same", "revision,semantic,nodes,verify-candidate,data_inputs,target,binding,value,expected_version", "version", "re-author with the observed --target-version"),
    ("do", "", "resource raw-start-refused refused slotbook-test $version start", ""),
    ("ok", "refusal", "", ""),
    ("need", "recipe_name", "worker,name", "expected string in product response"),
    ("need", "recipe_digest", "worker,digest", "expected string in product response"),
    ("do", "", "resource worker-apply success slotbook-build 0 apply --recipe $recipe_name --digest $recipe_digest", ""),
    ("ok", "applied", "", ""),
    ("do", "", "resource worker-inspect success slotbook-build 0 inspect", ""),
    ("ok", "held", "", ""),
    ("null", "held,pending", "", "managed worker not registered"),
    ("member", "held,capabilities", "managed.slotbook-build.worker", "managed worker not registered"),
    ("make", "seeded", "seed-inputs", ""),
    ("do", "", "save seed-inputs.json seeded", ""),
    ("ok", "input", "", ""),
    ("do", "", "invoke seed managed.slotbook-build.worker workspace.execute $input operator", ""),
    ("ok", "execution", "", ""),
    ("do", "", "call seed-wait success operator invocation wait $execution", ""),
    ("ok", "observation", "", ""),
    ("list", "observation,value,observations", "", "seed observations absent"),
    ("first", "artifact_event", "observation,value,observations is category artifact plus is event,kind,reference,media_type application/octet-stream", "seed artifact absent"),
    ("keep", "candidate", "artifact_event,event,kind,reference", ""),
    ("need", "candidate_artifact", "candidate,identity", "expected string in product response"),
    ("need", "candidate_digest", "candidate,digest", "expected string in product response"),
    ("need", "candidate_media", "candidate,media_type", "expected string in product response"),
    ("whole", "candidate,size_bytes", "", "expected integer in product response"),
    ("keep", "candidate_size", "candidate,size_bytes", ""),
    ("do", "", "resource seed-evaluate success slotbook-test $version evaluate --artifact $candidate_artifact --digest $candidate_digest --media-type $candidate_media --size-bytes $candidate_size", ""),
    ("ok", "evaluated", "", ""),
    ("need", "evaluation", "evaluated,evaluation,identity", "expected string in product response"),
    ("do", "", "resource seed-evidence success slotbook-test 0 evidence --evaluation $evaluation", ""),
    ("ok", "read", "", ""),
    ("keep", "failure", "read,evaluation", ""),
    ("make", "failed", "failed-checks failure", ""),
    ("true", "failure,complete", "", "seed did not produce exactly the two declared failures"),
    ("len", "failed", "2", "seed did not produce exactly the two declared failures"),
    ("is", "failed,#0", "authenticated-mutation", "seed did not produce exactly the two declared failures"),
    ("is", "failed,#1", "durable-bookings", "seed did not produce exactly the two declared failures"),
    ("do", "", "resource failed-publish-refused refused slotbook-test $version publish --evaluation $evaluation", ""),
    ("ok", "refusal", "", ""),
    ("do", "", "resource forged-publish-refused refused slotbook-test $version publish --evaluation b3_aaaaaaaaaaaaaaaaaaaaaaaaaaaaaaaaaaaaaaaaaaaaaaaaaaaaaaaaaaaaaaaa", ""),
    ("ok", "refusal", "", ""),
    ("do", "", "resource failed-report success slotbook-test 0 evidence --evaluation $evaluation", ""),
    ("ok", "report", "", ""),
    ("make", "forged_report", "forged-checks report", ""),
    ("do", "", "save forged-report.json forged_report", ""),
    ("ok", "forged", "", ""),
    ("do", "", "call forged-upload success operator artifact upload $forged --host host:slotbook-test --upload-id forged-positive --media-type application/vnd.milkdrift.managed+json", ""),
    ("ok", "uploaded", "", ""),
    ("put", "claim,version", "version", ""),
    ("put", "claim,uploaded", "uploaded,value", ""),
    ("make", "claimed", "forged-inputs claim", ""),
    ("do", "", "save forged-inputs.json claimed", ""),
    ("ok", "input", "", ""),
    ("do", "", "invoke forged milkdrift.resources resource.publish_candidate $input operator", ""),
    ("ok", "execution", "", ""),
    ("do", "", "call forged-wait refused operator invocation wait $execution", ""),
    ("ok", "observation", "", ""),
    ("list", "observation,value,observations", "", "observations absent"),
    ("matching", "observation,value,observations", "1 is category terminal else is category uncertainty", "fabricated verification report was not refused"),
    ("first", "terminal", "observation,value,observations is category terminal else is category uncertainty", "fabricated verification report was not refused"),
    ("isnot", "terminal,event,kind,terminal,status", "success", "fabricated verification report was not refused"),
    ("make", "rendered", "rendered terminal,event,kind,terminal", ""),
    ("contains", "rendered", "verification is failed", "fabricated verification report was not refused"),
    ("do", "", "resource after-forged-report success slotbook-test 0 inspect", ""),
    ("ok", "unchanged", "", ""),
    ("num", "unchanged,generation", "1", "forged evidence changed target"),
    ("false", "unchanged,observed_running", "", "forged evidence changed target"),
    ("null", "unchanged,pending", "", "forged evidence changed target"),
    ("do", "", "call base-import success operator blueprint import $paths,base", ""),
    ("ok", "imported", "", ""),
    ("do", "", "call governed-import success operator blueprint import $paths,governed", ""),
    ("ok", "imported", "", ""),
];

/// An unpublished method starts as a run of its own.
pub const QUALIFY_RUN: [Line; 6] = [
    ("need", "revision_id", "revision,id", "expected string in product response"),
    ("do", "", "call run-start success operator run start slotbook-run slotbook $revision_id", ""),
    ("ok", "started", "", ""),
    ("say", "link,internal", "slotbook-run", ""),
    ("mark", "link,public", "null", ""),
    ("mark", "link,outer", "null", ""),
];

/// The method is published for others, who can neither publish, inspect nor administer it.
pub const QUALIFY_PUBLISH: [Line; 22] = [
    ("do", "", "call method-discovery success operator invocation catalog", ""),
    ("ok", "catalog", "", ""),
    ("list", "catalog,value,catalog,entries", "", "catalog entries absent"),
    ("pick", "entry", "catalog,value,catalog,entries descriptor,identity managed.slotbook-build.worker", "worker descriptor absent"),
    ("do", "", "call service-authority success operator daemon authority", ""),
    ("ok", "authority", "", ""),
    ("put", "offer,descriptor", "entry,descriptor", ""),
    ("make", "described", "published-descriptor offer", ""),
    ("put", "offer,descriptor", "described", ""),
    ("put", "offer,revision", "revision", ""),
    ("put", "offer,authority", "authority,value", ""),
    ("make", "offered", "published-method offer", ""),
    ("do", "", "save published-method.json offered", ""),
    ("ok", "document", "", ""),
    ("do", "", "call method-publish success operator method publish $document", ""),
    ("ok", "published", "", ""),
    ("do", "", "call consumer-cannot-publish refused consumer method publish $document", ""),
    ("ok", "refusal", "", ""),
    ("do", "", "call consumer-cannot-inspect-method refused consumer method show method:slotbook --generation 1", ""),
    ("ok", "refusal", "", ""),
    ("do", "", "call consumer-cannot-administer-target refused consumer resource --installation slotbook-test --expected-version $version inspect", ""),
    ("ok", "refusal", "", ""),
];

/// A published method is invoked by its consumer.
pub const QUALIFY_DIRECT: [Line; 5] = [
    ("gather", "nothing", "", ""),
    ("do", "", "save public-inputs.json nothing", ""),
    ("ok", "input", "", ""),
    ("do", "", "invoke published method:slotbook method.invoke $input consumer", ""),
    ("ok", "public", "", ""),
];

/// A published method is invoked from another workflow.
pub const QUALIFY_WORKFLOW: [Line; 21] = [
    ("say", "capability", "method:slotbook", ""),
    ("put", "job,task", "revision,semantic,nodes,repair.begin", ""),
    ("put", "job,capability", "capability", ""),
    ("make", "task", "outer-task job", ""),
    ("put", "plan,task", "task", ""),
    ("put", "plan,done", "revision,semantic,nodes,done", ""),
    ("make", "finish", "finishing-edge", ""),
    ("put", "plan,finish", "finish", ""),
    ("make", "outer_mutations", "outer-mutations plan", ""),
    ("do", "", "save outer-mutations.json outer_mutations", ""),
    ("ok", "outer_file", "", ""),
    ("do", "", "local blueprint create $outer_file --workflow slotbook-caller --author agent:repair --output $paths,outer", ""),
    ("ok", "created", "", ""),
    ("do", "", "load outer.json", ""),
    ("ok", "outer_document", "", ""),
    ("keep", "outer", "outer_document,revision", ""),
    ("do", "", "call outer-import success origin blueprint import $paths,outer", ""),
    ("ok", "imported", "", ""),
    ("need", "outer_id", "outer,id", "expected string in product response"),
    ("do", "", "call outer-start success origin run start slotbook-caller slotbook-caller $outer_id", ""),
    ("ok", "started", "", ""),
];

/// A published method is invoked from a workflow of a peer.
pub const QUALIFY_PEER: [Line; 27] = [
    ("do", "", "call peer-connect success origin peer connect host:slotbook-test", ""),
    ("ok", "connected", "", ""),
    ("do", "", "call origin-catalog success origin capability list", ""),
    ("ok", "catalog", "", ""),
    ("make", "capability", "peer-capability catalog,value", ""),
    ("put", "job,task", "revision,semantic,nodes,repair.begin", ""),
    ("put", "job,capability", "capability", ""),
    ("make", "task", "outer-task job", ""),
    ("put", "job,task", "task", ""),
    ("make", "task", "outer-peer-task job", ""),
    ("put", "plan,task", "task", ""),
    ("put", "plan,done", "revision,semantic,nodes,done", ""),
    ("make", "finish", "finishing-edge", ""),
    ("put", "plan,finish", "finish", ""),
    ("make", "outer_mutations", "outer-mutations plan", ""),
    ("do", "", "save outer-mutations.json outer_mutations", ""),
    ("ok", "outer_file", "", ""),
    ("do", "", "local blueprint create $outer_file --workflow slotbook-caller --author agent:repair --output $paths,outer", ""),
    ("ok", "created", "", ""),
    ("do", "", "load outer.json", ""),
    ("ok", "outer_document", "", ""),
    ("keep", "outer", "outer_document,revision", ""),
    ("do", "", "call outer-import success origin blueprint import $paths,outer", ""),
    ("ok", "imported", "", ""),
    ("need", "outer_id", "outer,id", "expected string in product response"),
    ("do", "", "call outer-start success origin run start slotbook-caller slotbook-caller $outer_id", ""),
    ("ok", "started", "", ""),
];

/// An accepted call has one internal run, hidden from its consumer, and holds its worker.
pub const QUALIFY_LINK: [Line; 23] = [
    ("poll", "inventory", "list-internal", "accepted publication did not create its linked run"),
    ("until", "", "yields linked-runs inventory public mode", ""),
    ("make", "linked", "linked-runs inventory public mode", ""),
    ("len", "linked", "1", "accepted call has multiple internal runs"),
    ("need", "internal", "linked,#0,run_id", "expected string in product response"),
    ("put", "link,internal", "internal", ""),
    ("put", "link,public", "public", ""),
    ("put", "link,outer", "outer", ""),
    ("do", "", "call consumer-cannot-inspect-run refused consumer run show $internal", ""),
    ("ok", "refusal", "", ""),
    ("do", "", "resource published-lifetime-hold success slotbook-build 0 inspect", ""),
    ("ok", "held", "", ""),
    ("nonempty", "held,blockers", "", "publication lacks lifetime hold"),
    ("whole", "held,version", "", "expected integer in product response"),
    ("do", "", "resource busy-remove-refused refused slotbook-build $held,version remove", ""),
    ("ok", "refusal", "", ""),
    ("do", "", "resource held-before-reapply success slotbook-build 0 inspect", ""),
    ("ok", "held", "", ""),
    ("whole", "held,version", "", "expected integer in product response"),
    ("need", "recipe_name", "worker,name", "expected string in product response"),
    ("need", "recipe_digest", "worker,digest", "expected string in product response"),
    ("do", "", "resource busy-reapply-refused refused slotbook-build $held,version apply --recipe $recipe_name --digest $recipe_digest", ""),
    ("ok", "refusal", "", ""),
];

/// The repair is proposed against the exact observed run.
pub const QUALIFY_REPAIR: [Line; 18] = [
    ("do", "", "call run-before success operator run show $link,internal", ""),
    ("ok", "before", "", ""),
    ("keep", "run", "before,value", ""),
    ("do", "", "load repair-mutations.json", ""),
    ("ok", "mutation", "", ""),
    ("put", "repair,run", "link,internal", ""),
    ("put", "repair,revision", "revision", ""),
    ("put", "repair,sequence", "run,sequence", ""),
    ("put", "repair,mutation", "mutation", ""),
    ("put", "repair,evaluation", "evaluation", ""),
    ("put", "repair,candidate", "candidate", ""),
    ("make", "proposed", "repair-proposal repair", ""),
    ("do", "", "save repair-proposal.json proposed", ""),
    ("ok", "proposal", "", ""),
    ("whole", "run,sequence", "", "expected integer in product response"),
    ("need", "revision_id", "revision,id", "expected string in product response"),
    ("do", "", "call proposal-submit success operator --expected-sequence $run,sequence --expected-revision $revision_id proposal submit $proposal", ""),
    ("ok", "submitted", "", ""),
];

/// A published parent hands editing to exactly one child.
pub const QUALIFY_HANDOFF: [Line; 4] = [
    ("poll", "held", "holds slotbook-build", "published parent never transferred editing to its child"),
    ("until", "", "any held,blockers is state suspended", ""),
    ("len", "held,blockers", "2", "published handoff does not have exactly one child writer"),
    ("matching", "held,blockers", "1 nonempty editing", "published handoff does not have exactly one child writer"),
];

/// The run satisfies its agreement.
pub const QUALIFY_COMPLETED: [Line; 5] = [
    ("do", "", "call run-wait success operator run wait $link,internal", ""),
    ("ok", "waited", "", ""),
    ("keep", "completed", "waited,value", ""),
    ("is", "completed,terminal", "succeeded", "method did not satisfy its agreement"),
    ("num", "completed,agreement_adoptions", "1", "method did not satisfy its agreement"),
];

/// The outer workflow succeeds too.
pub const QUALIFY_OUTER_RESULT: [Line; 3] = [
    ("do", "", "call outer-result success origin run wait slotbook-caller", ""),
    ("ok", "outer_result", "", ""),
    ("is", "outer_result,value,terminal", "succeeded", "outer workflow failed"),
];

/// The consumer reads its result and replays its exact request.
pub const QUALIFY_PUBLIC_RESULT: [Line; 4] = [
    ("do", "", "call public-result success consumer invocation wait $link,public", ""),
    ("ok", "public_result", "", ""),
    ("do", "", "call public-replay success consumer invocation submit $paths,published_request", ""),
    ("ok", "public_replay", "", ""),
];

/// The protected target serves exactly the verified candidate, across a restart.
pub const QUALIFY_SERVED: [Line; 48] = [
    ("do", "", "resource published-inspect success slotbook-test 0 inspect", ""),
    ("ok", "after", "", ""),
    ("null", "after,pending", "", "protected publication did not start"),
    ("true", "after,observed_running", "", "protected publication did not start"),
    ("need", "accepted_id", "after,accepted_evaluation", "expected string in product response"),
    ("do", "", "resource accepted-evidence success slotbook-test 0 evidence --evaluation $accepted_id", ""),
    ("ok", "read", "", ""),
    ("keep", "accepted", "read,evaluation", ""),
    ("true", "accepted,complete", "", "accepted evaluation does not pass every check"),
    ("nonempty", "accepted,checks", "", "accepted evaluation does not pass every check"),
    ("each", "accepted,checks", "true passed", "accepted evaluation does not pass every check"),
    ("keep", "verified", "accepted,subject,artifact", ""),
    ("need", "verified_artifact", "verified,artifact", "expected string in product response"),
    ("do", "", "call candidate-download success operator artifact get $verified_artifact --output $paths,deployed", ""),
    ("ok", "downloaded", "", ""),
    ("do", "", "matches-candidate $paths,deployed", ""),
    ("ok", "matching", "", ""),
    ("true", "matching", "", "deployed artifact differs from corrected binary"),
    ("list", "after,resources", "", "resources absent"),
    ("pick", "service_row", "after,resources kind service", "service absent"),
    ("need", "service", "service_row,identity", "expected string in product response"),
    ("do", "", "container-inspect $service", ""),
    ("ok", "deployed", "", ""),
    ("list", "deployed,Mounts", "", "mounts absent"),
    ("pick", "mounted", "deployed,Mounts Destination /candidate/app", "candidate mount absent"),
    ("false", "mounted,RW", "", "served mount differs from immutable candidate"),
    ("need", "mount_source", "mounted,Source", "expected string in product response"),
    ("do", "", "matches-candidate $mount_source", ""),
    ("ok", "matching", "", ""),
    ("true", "matching", "", "served mount differs from immutable candidate"),
    ("do", "", "save served-container.json deployed", ""),
    ("ok", "saved", "", ""),
    ("whole", "after,version", "", "expected integer in product response"),
    ("do", "", "resource wrong-generation-refused refused slotbook-test $after,version publish --evaluation $accepted_id", ""),
    ("ok", "refusal", "", ""),
    ("do", "", "call timeline success operator run timeline $link,internal --limit 256", ""),
    ("ok", "timeline", "", ""),
    ("do", "", "health", ""),
    ("ok", "health", "", ""),
    ("true", "health,succeeded", "", "protected service health refused"),
    ("true", "health,bounded", "", "protected service health exceeds bound"),
    ("is", "health,body,status", "ready", "protected service health differs"),
    ("do", "", "session restart", ""),
    ("ok", "restarted", "", ""),
    ("do", "", "resource reopened-inspect success slotbook-test 0 inspect", ""),
    ("ok", "reopened", "", ""),
    ("same", "reopened,generation", "after,generation", "restart lost protected generation"),
    ("true", "reopened,observed_running", "", "restart lost protected generation"),
];

/// The outer workflow's start is replayed.
pub const QUALIFY_OUTER_REPLAY: [Line; 3] = [
    ("need", "outer_id", "link,outer,id", "expected string in product response"),
    ("do", "", "call outer-start success origin run start slotbook-caller slotbook-caller $outer_id", ""),
    ("ok", "started", "", ""),
];

/// The consumer's request is replayed after the restart.
pub const QUALIFY_PUBLIC_REPLAY: [Line; 2] = [
    ("do", "", "call public-replay-after-restart success consumer invocation submit $paths,published_request", ""),
    ("ok", "public_replay", "", ""),
];

/// A replay deploys nothing.
pub const QUALIFY_NO_DEPLOYMENT: [Line; 4] = [
    ("do", "", "resource wrapper-replay-no-deployment success slotbook-test 0 inspect", ""),
    ("ok", "unmoved", "", ""),
    ("same", "unmoved,generation", "after,generation", "wrapper replay deployed again"),
    ("same", "unmoved,version", "after,version", "wrapper replay deployed again"),
];

/// Verification is renewed without changing prior evidence, its publication replays exactly, and
/// everything is removed. Known before: what the earlier parts left, and the invocation `mode`.
pub const QUALIFY_RENEWED: [Line; 90] = [
    ("do", "", "resource publish-candidate refused slotbook-test $version publish --evaluation $accepted_id", ""),
    ("ok", "refusal", "", ""),
    ("whole", "reopened,version", "", "expected integer in product response"),
    ("keep", "direct_version", "reopened,version", ""),
    ("need", "candidate_artifact", "verified,artifact", "expected string in product response"),
    ("need", "candidate_digest", "verified,digest", "expected string in product response"),
    ("need", "candidate_media", "verified,media_type", "expected string in product response"),
    ("whole", "verified,size_bytes", "", "expected integer in product response"),
    ("keep", "candidate_size", "verified,size_bytes", ""),
    ("do", "", "resource direct-evaluate success slotbook-test $direct_version evaluate --artifact $candidate_artifact --digest $candidate_digest --media-type $candidate_media --size-bytes $candidate_size", ""),
    ("ok", "direct", "", ""),
    ("need", "direct_id", "direct,evaluation,identity", "expected string in product response"),
    ("do", "", "resource direct-evidence success slotbook-test 0 evidence --evaluation $direct_id", ""),
    ("ok", "read", "", ""),
    ("keep", "direct_checks", "read,evaluation", ""),
    ("true", "direct_checks,complete", "", "direct verification did not pass"),
    ("nonempty", "direct_checks,checks", "", "direct verification did not pass"),
    ("each", "direct_checks,checks", "true passed", "direct verification did not pass"),
    ("do", "", "resource renew-evaluate success slotbook-test $direct_version evaluate --artifact $candidate_artifact --digest $candidate_digest --media-type $candidate_media --size-bytes $candidate_size", ""),
    ("ok", "renewed", "", ""),
    ("need", "renewed_id", "renewed,evaluation,identity", "expected string in product response"),
    ("do", "", "resource renew-evidence success slotbook-test 0 evidence --evaluation $renewed_id", ""),
    ("ok", "read", "", ""),
    ("keep", "renewed_checks", "read,evaluation", ""),
    ("differs", "renewed_id", "direct_id", "renewed verification changed subject or failed"),
    ("same", "renewed_checks,subject", "direct_checks,subject", "renewed verification changed subject or failed"),
    ("true", "renewed_checks,complete", "", "renewed verification changed subject or failed"),
    ("nonempty", "renewed_checks,checks", "", "renewed verification changed subject or failed"),
    ("each", "renewed_checks,checks", "true passed", "renewed verification changed subject or failed"),
    ("do", "", "resource prior-evidence-unchanged success slotbook-test 0 evidence --evaluation $direct_id", ""),
    ("ok", "read", "", ""),
    ("keep", "prior_checks", "read,evaluation", ""),
    ("same", "prior_checks", "direct_checks", "renewal changed prior evidence"),
    ("do", "", "resource direct-publish success slotbook-test $direct_version publish --evaluation $renewed_id", ""),
    ("ok", "publication", "", ""),
    ("do", "", "resource direct-published success slotbook-test 0 inspect", ""),
    ("ok", "published", "", ""),
    ("null", "published,pending", "", "renewed publication differs"),
    ("whole", "published,generation", "", "expected integer in product response"),
    ("whole", "after,generation", "", "expected integer in product response"),
    ("follows", "published,generation", "after,generation", "renewed publication differs"),
    ("true", "published,observed_running", "", "renewed publication differs"),
    ("list", "published,resources", "", "resources absent"),
    ("pick", "service_row", "published,resources kind service", "service absent"),
    ("need", "service", "service_row,identity", "expected string in product response"),
    ("do", "", "container-inspect $service", ""),
    ("ok", "prior", "", ""),
    ("do", "", "session restart", ""),
    ("ok", "restarted", "", ""),
    ("do", "", "resource direct-publish success slotbook-test $direct_version publish --evaluation $renewed_id", ""),
    ("ok", "publication", "", ""),
    ("do", "", "resource after-exact-replay success slotbook-test 0 inspect", ""),
    ("ok", "replayed", "", ""),
    ("same", "replayed,generation", "published,generation", "exact publication replay changed generation"),
    ("same", "replayed,version", "published,version", "exact publication replay changed generation"),
    ("do", "", "container-inspect $service", ""),
    ("ok", "again", "", ""),
    ("same", "again,Id", "prior,Id", "exact replay restarted service"),
    ("same", "again,State,StartedAt", "prior,State,StartedAt", "exact replay restarted service"),
    ("do", "", "resource failure-retained success slotbook-test 0 evidence --evaluation $evaluation", ""),
    ("ok", "read", "", ""),
    ("keep", "retained", "read,evaluation", ""),
    ("same", "retained", "failure", "failed evidence was overwritten"),
    ("do", "", "call run-reopened success operator run show $link,internal", ""),
    ("ok", "reopened_run", "", ""),
    ("do", "", "resource cleanup-inspect-slotbook-test success slotbook-test 0 inspect", ""),
    ("ok", "state", "", ""),
    ("whole", "state,version", "", "expected integer in product response"),
    ("do", "", "resource cleanup-slotbook-test success slotbook-test $state,version remove", ""),
    ("ok", "removal", "", ""),
    ("do", "", "resource removed-slotbook-test success slotbook-test 0 inspect", ""),
    ("ok", "removed", "", ""),
    ("is", "removed,state", "removed", "qualification resource removal incomplete"),
    ("do", "", "resource cleanup-inspect-slotbook-build success slotbook-build 0 inspect", ""),
    ("ok", "state", "", ""),
    ("whole", "state,version", "", "expected integer in product response"),
    ("do", "", "resource cleanup-slotbook-build success slotbook-build $state,version remove", ""),
    ("ok", "removal", "", ""),
    ("do", "", "resource removed-slotbook-build success slotbook-build 0 inspect", ""),
    ("ok", "removed", "", ""),
    ("is", "removed,state", "removed", "qualification resource removal incomplete"),
    ("put", "report,completed_run", "completed", ""),
    ("put", "report,protected_target", "after", ""),
    ("put", "report,failure_evidence", "evaluation", ""),
    ("put", "report,public_execution", "link,public", ""),
    ("put", "report,internal_run", "link,internal", ""),
    ("put", "report,invocation_mode", "mode", ""),
    ("say", "report,lane", "compiled Rust seeded repair; rootless Linux; finite six-check HTTP verifier", ""),
    ("do", "", "save qualification.json report", ""),
    ("ok", "saved", "", ""),
];

/// How a session's configuration is completed: for a peer, for publication, or as it is.
pub open spec fn session_end(published: bool, mode: InvocationMode) -> Seq<Line> {
    if mode == InvocationMode::Peer {
        SESSION_PEER@
    } else if published {
        SESSION_PUBLISHED@
    } else {
        SESSION_PLAIN@
    }
}

/// The prepared example is brought up.
pub fn session(published: bool, mode: InvocationMode, known: Json) -> (r: Scenario)
    requires
        known@ is Object,
    ensures
        r.valid(),
        r@ == opening(SLOTBOOK_SESSION@ + session_end(published, mode), known@),
{
    match mode {
        InvocationMode::Peer => Scenario::ending(
            SLOTBOOK_SESSION.as_slice(),
            SESSION_PEER.as_slice(),
            known,
        ),
        _ => if published {
            Scenario::ending(SLOTBOOK_SESSION.as_slice(), SESSION_PUBLISHED.as_slice(), known)
        } else {
            Scenario::ending(SLOTBOOK_SESSION.as_slice(), SESSION_PLAIN.as_slice(), known)
        },
    }
}

/// The example is authored.
pub fn prepare(known: Json) -> (r: Scenario)
    requires
        known@ is Object,
    ensures
        r.valid(),
        r@ == opening(SLOTBOOK_PREPARE@, known@),
{
    Scenario::open(SLOTBOOK_PREPARE.as_slice(), known)
}

/// The script of a part of the qualification.
pub open spec fn part_of(part: Seq<char>) -> Option<Seq<Line>> {
    if part == "open"@ {
        Some(QUALIFY_OPEN@)
    } else if part == "run"@ {
        Some(QUALIFY_RUN@)
    } else if part == "direct"@ {
        Some(QUALIFY_PUBLISH@ + QUALIFY_DIRECT@)
    } else if part == "workflow"@ {
        Some(QUALIFY_PUBLISH@ + QUALIFY_WORKFLOW@)
    } else if part == "peer"@ {
        Some(QUALIFY_PUBLISH@ + QUALIFY_PEER@)
    } else if part == "link"@ {
        Some(QUALIFY_LINK@)
    } else if part == "repair"@ {
        Some(QUALIFY_REPAIR@)
    } else if part == "handoff"@ {
        Some(QUALIFY_HANDOFF@)
    } else if part == "completed"@ {
        Some(QUALIFY_COMPLETED@)
    } else if part == "outer-result"@ {
        Some(QUALIFY_OUTER_RESULT@)
    } else if part == "public-result"@ {
        Some(QUALIFY_PUBLIC_RESULT@)
    } else if part == "served"@ {
        Some(QUALIFY_SERVED@)
    } else if part == "outer-replay"@ {
        Some(QUALIFY_OUTER_REPLAY@)
    } else if part == "public-replay"@ {
        Some(QUALIFY_PUBLIC_REPLAY@)
    } else if part == "no-deployment"@ {
        Some(QUALIFY_NO_DEPLOYMENT@)
    } else if part == "renewed"@ {
        Some(QUALIFY_RENEWED@)
    } else {
        None
    }
}

/// One part of the qualification; none for a name that is no part.
pub fn qualify(part: &str, known: Json) -> (r: Option<Scenario>)
    requires
        known@ is Object,
    ensures
        match part_of(part@) {
            Some(script) => r matches Some(s) && s.valid() && s@ == opening(script, known@),
            None => r is None,
        },
{
    if same_text(part, "open") {
        Some(Scenario::open(QUALIFY_OPEN.as_slice(), known))
    } else if same_text(part, "run") {
        Some(Scenario::open(QUALIFY_RUN.as_slice(), known))
    } else if same_text(part, "direct") {
        Some(
            Scenario::ending(QUALIFY_PUBLISH.as_slice(), QUALIFY_DIRECT.as_slice(), known),
        )
    } else if same_text(part, "workflow") {
        Some(
            Scenario::ending(QUALIFY_PUBLISH.as_slice(), QUALIFY_WORKFLOW.as_slice(), known),
        )
    } else if same_text(part, "peer") {
        Some(
            Scenario::ending(QUALIFY_PUBLISH.as_slice(), QUALIFY_PEER.as_slice(), known),
        )
    } else if same_text(part, "link") {
        Some(Scenario::open(QUALIFY_LINK.as_slice(), known))
    } else if same_text(part, "repair") {
        Some(Scenario::open(QUALIFY_REPAIR.as_slice(), known))
    } else if same_text(part, "handoff") {
        Some(Scenario::open(QUALIFY_HANDOFF.as_slice(), known))
    } else if same_text(part, "completed") {
        Some(Scenario::open(QUALIFY_COMPLETED.as_slice(), known))
    } else if same_text(part, "outer-result") {
        Some(Scenario::open(QUALIFY_OUTER_RESULT.as_slice(), known))
    } else if same_text(part, "public-result") {
        Some(Scenario::open(QUALIFY_PUBLIC_RESULT.as_slice(), known))
    } else if same_text(part, "served") {
        Some(Scenario::open(QUALIFY_SERVED.as_slice(), known))
    } else if same_text(part, "outer-replay") {
        Some(Scenario::open(QUALIFY_OUTER_REPLAY.as_slice(), known))
    } else if same_text(part, "public-replay") {
        Some(Scenario::open(QUALIFY_PUBLIC_REPLAY.as_slice(), known))
    } else if same_text(part, "no-deployment") {
        Some(Scenario::open(QUALIFY_NO_DEPLOYMENT.as_slice(), known))
    } else if same_text(part, "renewed") {
        Some(Scenario::open(QUALIFY_RENEWED.as_slice(), known))
    } else {
        None
    }
}

/// Every part that a qualification consists of has a script.
pub proof fn every_part_has_a_script(published: bool, mode: InvocationMode, i: int)
    requires
        0 <= i < parts_of(published, mode).len(),
    ensures
        part_of(parts_of(published, mode)[i]) is Some,
{
}

/// The script of a declared check.
pub open spec fn check_of(part: Seq<char>) -> Option<Seq<Line>> {
    if part == "public-availability"@ {
        Some(PUBLIC_AVAILABILITY@)
    } else if part == "authenticated-mutation"@ {
        Some(AUTHENTICATED_MUTATION@)
    } else if part == "capacity-and-intervals"@ {
        Some(CAPACITY_AND_INTERVALS@)
    } else if part == "durable-bookings"@ {
        Some(DURABLE_BOOKINGS@)
    } else if part == "cancellation-policy"@ {
        Some(CANCELLATION_POLICY@)
    } else {
        None
    }
}

/// One declared check of the service under test; none for the exact deployment, which asks for no
/// action, and for a name that is no check. Known before: the `resource` of the application.
pub fn observe(check: &str, known: Json) -> (r: Option<Scenario>)
    requires
        known@ is Object,
    ensures
        match check_of(check@) {
            Some(script) => r matches Some(s) && s.valid() && s@ == opening(script, known@),
            None => r is None,
        },
{
    if same_text(check, "public-availability") {
        Some(Scenario::open(PUBLIC_AVAILABILITY.as_slice(), known))
    } else if same_text(check, "authenticated-mutation") {
        Some(Scenario::open(AUTHENTICATED_MUTATION.as_slice(), known))
    } else if same_text(check, "capacity-and-intervals") {
        Some(Scenario::open(CAPACITY_AND_INTERVALS.as_slice(), known))
    } else if same_text(check, "durable-bookings") {
        Some(Scenario::open(DURABLE_BOOKINGS.as_slice(), known))
    } else if same_text(check, "cancellation-policy") {
        Some(Scenario::open(CANCELLATION_POLICY.as_slice(), known))
    } else {
        None
    }
}

} // verus!

# milkdrift_evidence

Evidence for the Milkdrift platform: the decisions that the evidence tools make, verified, and the
tools around them.

`src/` is the library. It performs no input or output. Every function has a contract, stated over
mathematical models: documents are trees, texts are sequences of characters, and a scenario is a
script with the values it has learned.

- `json`, `text`, `order`, `paths`, `digest`, `endpoint`, `failure`: documents, texts, ordered lists,
  lexical paths, content identities, endpoint origins and failures.
- `application`, `harness`, `runs`, `timeline`, `http_fixture`, `local_model`, `external`,
  `native_fixture`, `review`, `operational`, `mutation`: the rules of each tool.
- `blueprint`, `plans`: workflow graphs, written as plans.
- `scenario`: the engine. A script alternates outside actions with checks on what they answered; the
  engine hands an action out, takes the answer back, and either goes on, ends, or fails with the
  message of the check that did not hold. Its statements are listed at the top of the module.
- `makers`, `render`: what a script has made of known values between its actions, such as a filtered
  list, a configuration or the reason of a failure, and documents as compact JSON.
- `scripts`: the scenarios of the tools and the documents that they write.
- `record`, `findings`, `outcomes`: what is known before each statement of a finished scenario, what
  each statement says of the answers, and what whole scenarios have shown once they finish.
- `slotbook`: the reservation example with its verifier, its client, its qualification and its study.

What the library promises of several functions together stands in public proof functions, such as
`scenario::every_check_counts`, `outcomes::external::process_evidence_is_complete` or
`mutation::valid_documents_identify_mutants`.

`app/` is ordinary Rust: it starts daemons and clients, reads and writes files, and performs the
actions that scenarios ask for. The first argument names the tool. The scripts of external evidence
and of independent hosting are for drivers of their own.

`tests/` runs the library. `tests/scenarios.rs` plays every script as far as it goes.

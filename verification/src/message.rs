//! The texts that the launcher hands to its caller for display.

use vstd::prelude::*;
use vstd::string::StringExecFns;
use crate::decimal::{append_decimal, decimal_digits, lemma_decimal_digits_injective};

verus! {

/// What a success is reported with: a fixed opening and the identifier of the
/// new process in decimal notation.
pub open spec fn spawned_text(process_id: u32) -> Seq<char> {
    "New process spawned with PID: "@ + decimal_digits(process_id as nat)
}

/// What a failed lookup of the running executable's path is reported with: a
/// fixed opening that names the step, and the system's diagnostic.
pub open spec fn path_failure_text(diagnostic: Seq<char>) -> Seq<char> {
    "Failed to get current executable path: "@ + diagnostic
}

/// What a refused process creation is reported with: a fixed opening that names
/// the step, and the system's diagnostic.
pub open spec fn spawn_failure_text(diagnostic: Seq<char>) -> Seq<char> {
    "Failed to spawn new process: "@ + diagnostic
}

/// What a platform without a way of launching is reported with.
pub open spec fn unsupported_text() -> Seq<char> {
    "Unsupported platform"@
}

/// The greeting for `name`.
pub open spec fn greeting_text(name: Seq<char>) -> Seq<char> {
    "Hello, "@ + name + "! You've been greeted from Rust!"@
}

/// Whether `text` begins with `opening`.
pub open spec fn starts_with(text: Seq<char>, opening: Seq<char>) -> bool {
    opening.len() <= text.len() && text.subrange(0, opening.len() as int) == opening
}

/// The message for a new process with identifier `process_id`.
pub fn spawned_message(process_id: u32) -> (message: String)
    ensures
        message@ == spawned_text(process_id),
{
    let mut message = String::from_str("New process spawned with PID: ");
    append_decimal(&mut message, process_id);
    message
}

/// The message for a failed lookup of the running executable's path.
pub fn path_failure_message(diagnostic: &str) -> (message: String)
    ensures
        message@ == path_failure_text(diagnostic@),
{
    let mut message = String::from_str("Failed to get current executable path: ");
    message.append(diagnostic);
    message
}

/// The message for a refused process creation.
pub fn spawn_failure_message(diagnostic: &str) -> (message: String)
    ensures
        message@ == spawn_failure_text(diagnostic@),
{
    let mut message = String::from_str("Failed to spawn new process: ");
    message.append(diagnostic);
    message
}

/// The message for a platform without a way of launching.
pub fn unsupported_message() -> (message: String)
    ensures
        message@ == unsupported_text(),
{
    String::from_str("Unsupported platform")
}

/// Greets `name`.
pub fn greet(name: &str) -> (greeting: String)
    ensures
        greeting@ == greeting_text(name@),
{
    let mut greeting = String::from_str("Hello, ");
    greeting.append(name);
    greeting.append("! You've been greeted from Rust!");
    greeting
}

/// Every message of the launcher is non-empty and opens with the words that
/// name what happened, whatever the identifier or the diagnostic.
pub proof fn lemma_messages_open_with_their_step(process_id: u32, diagnostic: Seq<char>)
    ensures
        starts_with(spawned_text(process_id), "New process spawned with PID: "@),
        starts_with(path_failure_text(diagnostic), "Failed to get current executable path: "@),
        starts_with(spawn_failure_text(diagnostic), "Failed to spawn new process: "@),
        spawned_text(process_id).len() > 0,
        path_failure_text(diagnostic).len() > 0,
        spawn_failure_text(diagnostic).len() > 0,
        unsupported_text().len() > 0,
{
    reveal_strlit("New process spawned with PID: ");
    reveal_strlit("Failed to get current executable path: ");
    reveal_strlit("Failed to spawn new process: ");
    reveal_strlit("Unsupported platform");
    let spawned = "New process spawned with PID: "@;
    let path = "Failed to get current executable path: "@;
    let spawn = "Failed to spawn new process: "@;
    assert(spawned_text(process_id).subrange(0, spawned.len() as int) =~= spawned);
    assert(path_failure_text(diagnostic).subrange(0, path.len() as int) =~= path);
    assert(spawn_failure_text(diagnostic).subrange(0, spawn.len() as int) =~= spawn);
}

/// The message of a success ends with the identifier's decimal notation, and
/// nothing follows it.
pub proof fn lemma_spawned_text_names_the_process(process_id: u32)
    ensures
        spawned_text(process_id).subrange(
            "New process spawned with PID: "@.len() as int,
            spawned_text(process_id).len() as int,
        ) == decimal_digits(process_id as nat),
{
    let opening = "New process spawned with PID: "@;
    let text = spawned_text(process_id);
    assert(text.subrange(opening.len() as int, text.len() as int) =~= decimal_digits(
        process_id as nat,
    ));
}

/// The messages of two successes are the same only where the identifiers are:
/// a message never names another process than the one that was created.
pub proof fn lemma_spawned_text_injective(first: u32, second: u32)
    ensures
        spawned_text(first) == spawned_text(second) <==> first == second,
{
    if spawned_text(first) == spawned_text(second) {
        lemma_spawned_text_names_the_process(first);
        lemma_spawned_text_names_the_process(second);
        lemma_decimal_digits_injective(first as nat, second as nat);
    }
}

} // verus!

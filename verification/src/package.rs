//! The names of the entries of a share package: where an assistant, a
//! thread, its messages and the chunks of a knowledge collection lie in
//! the archive, and what an entry is by its name.

use crate::text::{begins_with, chars_of, ends_with, finishes_with, starts_with, string_of_range};
use vstd::prelude::*;
use vstd::string::*;

verus! {

/// The collection that is named where an entry names none.
pub const UNKNOWN_COLLECTION: &'static str = "unknown";

/// What an entry of a package is.
#[derive(Debug, PartialEq, Eq)]
pub enum EntryKind {
    /// One assistant.
    Assistant,
    /// The description of one thread.
    Thread,
    /// The chunks of the knowledge collection `collection`.
    Knowledge { collection: String },
    /// Anything else.
    Other,
}

/// `EntryKind` with its text as a sequence of characters.
pub enum EntryKindModel {
    Assistant,
    Thread,
    Knowledge { collection: Seq<char> },
    Other,
}

impl View for EntryKind {
    type V = EntryKindModel;

    open spec fn view(&self) -> EntryKindModel {
        match self {
            EntryKind::Assistant => EntryKindModel::Assistant,
            EntryKind::Thread => EntryKindModel::Thread,
            EntryKind::Knowledge { collection } => EntryKindModel::Knowledge {
                collection: collection@,
            },
            EntryKind::Other => EntryKindModel::Other,
        }
    }
}

/// The entry of the assistant `id`.
pub open spec fn assistant_entry(id: Seq<char>) -> Seq<char> {
    "assistants/"@ + id + ".json"@
}

/// The entry that describes the thread `id`.
pub open spec fn thread_entry(id: Seq<char>) -> Seq<char> {
    "threads/"@ + id + "/thread.json"@
}

/// The entry that holds the messages of the thread `id`.
pub open spec fn messages_entry(id: Seq<char>) -> Seq<char> {
    "threads/"@ + id + "/messages.jsonl"@
}

/// The entry that holds the chunks of the collection `collection`.
pub open spec fn knowledge_entry(collection: Seq<char>) -> Seq<char> {
    "knowledge/"@ + collection + "/chunks.json"@
}

/// The collection that a knowledge entry names: what stands between the
/// directory and the file name, or the unknown collection where nothing
/// is left for both.
pub open spec fn collection_of(name: Seq<char>) -> Seq<char> {
    let rest = name.skip("knowledge/"@.len() as int);
    if ends_with(rest, "/chunks.json"@) {
        rest.take(rest.len() - "/chunks.json"@.len())
    } else {
        UNKNOWN_COLLECTION@
    }
}

/// What an entry is, by its name.
pub open spec fn entry_kind(name: Seq<char>) -> EntryKindModel {
    if starts_with(name, "assistants/"@) && ends_with(name, ".json"@) {
        EntryKindModel::Assistant
    } else if ends_with(name, "/thread.json"@) && starts_with(name, "threads/"@) {
        EntryKindModel::Thread
    } else if ends_with(name, "/chunks.json"@) && starts_with(name, "knowledge/"@) {
        EntryKindModel::Knowledge { collection: collection_of(name) }
    } else {
        EntryKindModel::Other
    }
}

fn framed(lead: &str, middle: &str, tail: &str) -> (name: String)
    ensures
        name@ == lead@ + middle@ + tail@,
{
    let mut name = String::from_str(lead);
    name.append(middle);
    name.append(tail);
    name
}

/// The name of the entry of the assistant `id`.
pub fn assistant_entry_name(id: &str) -> (name: String)
    ensures
        name@ == assistant_entry(id@),
{
    framed("assistants/", id, ".json")
}

/// The name of the entry that describes the thread `id`.
pub fn thread_entry_name(id: &str) -> (name: String)
    ensures
        name@ == thread_entry(id@),
{
    framed("threads/", id, "/thread.json")
}

/// The name of the entry that holds the messages of the thread `id`.
pub fn messages_entry_name(id: &str) -> (name: String)
    ensures
        name@ == messages_entry(id@),
{
    framed("threads/", id, "/messages.jsonl")
}

/// The name of the entry that holds the chunks of `collection`.
pub fn knowledge_entry_name(collection: &str) -> (name: String)
    ensures
        name@ == knowledge_entry(collection@),
{
    framed("knowledge/", collection, "/chunks.json")
}

/// Tells what an entry is, by its name.
pub fn classify_entry(name: &str) -> (kind: EntryKind)
    ensures
        kind@ == entry_kind(name@),
{
    let text = chars_of(name);
    if begins_with(&text, &chars_of("assistants/")) && finishes_with(&text, &chars_of(".json")) {
        EntryKind::Assistant
    } else if finishes_with(&text, &chars_of("/thread.json")) && begins_with(
        &text,
        &chars_of("threads/"),
    ) {
        EntryKind::Thread
    } else if finishes_with(&text, &chars_of("/chunks.json")) && begins_with(
        &text,
        &chars_of("knowledge/"),
    ) {
        let lead = chars_of("knowledge/");
        let tail = chars_of("/chunks.json");
        let ghost rest = text@.skip(lead@.len() as int);
        if text.len() - lead.len() >= tail.len() {
            let end: usize = text.len() - tail.len();
            let collection = string_of_range(&text, lead.len(), end);
            proof {
                assert(rest.subrange(rest.len() - tail@.len(), rest.len() as int) =~= text@.subrange(
                    text@.len() - tail@.len(),
                    text@.len() as int,
                ));
                assert(rest.take(rest.len() - tail@.len()) =~= text@.subrange(
                    lead@.len() as int,
                    end as int,
                ));
            }
            EntryKind::Knowledge { collection }
        } else {
            EntryKind::Knowledge { collection: String::from_str(UNKNOWN_COLLECTION) }
        }
    } else {
        EntryKind::Other
    }
}

/// An entry is found again under the name that it was written under: the
/// entry of an assistant is an assistant, the entry that describes a
/// thread is a thread, the entry of a collection is the knowledge of that
/// very collection, and the messages of a thread are none of these.
pub proof fn lemma_entries_are_found_again(id: Seq<char>)
    ensures
        entry_kind(assistant_entry(id)) == EntryKindModel::Assistant,
        entry_kind(thread_entry(id)) == EntryKindModel::Thread,
        entry_kind(knowledge_entry(id)) == (EntryKindModel::Knowledge { collection: id }),
        entry_kind(messages_entry(id)) == EntryKindModel::Other,
{
    reveal_strlit("assistants/");
    reveal_strlit(".json");
    reveal_strlit("threads/");
    reveal_strlit("/thread.json");
    reveal_strlit("/messages.jsonl");
    reveal_strlit("knowledge/");
    reveal_strlit("/chunks.json");
    let assistant = assistant_entry(id);
    assert(assistant.subrange(0, 11) =~= "assistants/"@);
    assert(assistant.subrange(assistant.len() - 5, assistant.len() as int) =~= ".json"@);

    let thread = thread_entry(id);
    assert(thread[0] == 't');
    assert(thread.subrange(0, 11)[0] == 't');
    assert(thread.subrange(0, 8) =~= "threads/"@);
    assert(thread.subrange(thread.len() - 12, thread.len() as int) =~= "/thread.json"@);

    let knowledge = knowledge_entry(id);
    assert(knowledge[0] == 'k');
    assert(knowledge.subrange(0, 11)[0] == 'k');
    assert(knowledge.subrange(0, 8)[0] == 'k');
    assert(knowledge.subrange(0, 10) =~= "knowledge/"@);
    assert(knowledge.subrange(knowledge.len() - 12, knowledge.len() as int) =~= "/chunks.json"@);
    let rest = knowledge.skip(10);
    assert(rest =~= id + "/chunks.json"@);
    assert(rest.subrange(rest.len() - 12, rest.len() as int) =~= "/chunks.json"@);
    assert(rest.take(rest.len() - 12) =~= id);

    let messages = messages_entry(id);
    assert(messages[0] == 't');
    assert(messages.subrange(0, 11)[0] == 't');
    assert(messages.subrange(0, 10)[0] == 't');
    let length = messages.len() as int;
    assert(messages[length - 1] == 'l');
    assert(messages.subrange(length - 12, length)[11] == 'l');
    assert(messages.subrange(length - 5, length)[4] == 'l');
}

} // verus!

use python_supervisor::package::{
    assistant_entry_name, classify_entry, knowledge_entry_name, messages_entry_name,
    thread_entry_name, EntryKind,
};

fn knowledge(collection: &str) -> EntryKind {
    EntryKind::Knowledge { collection: collection.to_string() }
}

#[test]
fn entries_are_named_by_what_they_hold() {
    assert_eq!(assistant_entry_name("a1"), "assistants/a1.json");
    assert_eq!(thread_entry_name("t1"), "threads/t1/thread.json");
    assert_eq!(messages_entry_name("t1"), "threads/t1/messages.jsonl");
    assert_eq!(knowledge_entry_name("papers"), "knowledge/papers/chunks.json");
    assert_eq!(assistant_entry_name(""), "assistants/.json");
}

#[test]
fn entries_are_found_again_by_their_names() {
    for id in ["a1", "", "x/y", "unknown", "a.json"] {
        assert_eq!(classify_entry(&assistant_entry_name(id)), EntryKind::Assistant);
        assert_eq!(classify_entry(&thread_entry_name(id)), EntryKind::Thread);
        assert_eq!(classify_entry(&knowledge_entry_name(id)), knowledge(id));
        assert_eq!(classify_entry(&messages_entry_name(id)), EntryKind::Other);
    }
}

#[test]
fn other_entries_are_passed_over() {
    assert_eq!(classify_entry("notes/readme.json"), EntryKind::Other);
    assert_eq!(classify_entry("assistants/a1.txt"), EntryKind::Other);
    assert_eq!(classify_entry("threads/thread.json"), EntryKind::Thread);
    assert_eq!(classify_entry("threads/t1/thread.json.bak"), EntryKind::Other);
    assert_eq!(classify_entry("x/knowledge/c/chunks.json"), EntryKind::Other);
    assert_eq!(classify_entry(""), EntryKind::Other);
}

#[test]
fn collection_without_a_name_is_unknown() {
    assert_eq!(classify_entry("knowledge/chunks.json"), knowledge("unknown"));
    assert_eq!(classify_entry("knowledge//chunks.json"), knowledge(""));
    assert_eq!(classify_entry("knowledge/a/b/chunks.json"), knowledge("a/b"));
}

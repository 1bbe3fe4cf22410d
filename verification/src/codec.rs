//! The history as a document, and back.
//!
//! A history is written as one table with the key `poms`, which holds one
//! table for each session. A session's table holds `id`, `start`, then `end`
//! and `task` where the session has them, and last the table `kind` with the
//! one key `type`.

use vstd::prelude::*;
use crate::document::{
    Node,
    distinct_keys,
    has_key,
    lemma_lookup_any_order,
    lemma_lookup_found,
    lemma_lookup_missing,
    lookup,
};
use crate::error::StoreError;
use crate::ident::{id_text, read_id, text_id, write_id};
use crate::pomodoro::{
    Pomodoro,
    PomodoroKind,
    Pomodoros,
    Session,
    history_in_range,
    history_wf,
    kind_name,
    lemma_kind_round_trip,
    named_kind,
    text_of,
};
use crate::table::{
    list_value,
    new_table,
    read_table,
    table_entries,
    table_get,
    table_insert,
    table_value,
    text_value,
    toml_entries,
    toml_text,
    value_node,
    write_table,
};
use crate::time::PomTime;

verus! {

/// The table that stands for a kind.
pub open spec fn kind_entries(kind: PomodoroKind) -> Seq<(Seq<char>, Node)> {
    seq![("type"@, Node::Text(kind_name(kind)))]
}

/// The table that stands for a session: `id`, `start`, `end` where the
/// session has ended, `task` where it has one, and `kind`.
pub open spec fn record_entries(s: Session) -> Seq<(Seq<char>, Node)> {
    let head = seq![("id"@, Node::Text(id_text(s.id))), ("start"@, Node::Text(s.start.text()))];
    let with_end = match s.end {
        Some(e) => head.push(("end"@, Node::Text(e.text()))),
        None => head,
    };
    let with_task = match s.task {
        Some(t) => with_end.push(("task"@, Node::Text(t))),
        None => with_end,
    };
    with_task.push(("kind"@, Node::Table(kind_entries(s.kind))))
}

/// The node that stands for a session.
pub open spec fn record_node(s: Session) -> Node {
    Node::Table(record_entries(s))
}

/// The document that stands for a history.
pub open spec fn history_entries(h: Seq<Session>) -> Seq<(Seq<char>, Node)> {
    seq![("poms"@, Node::List(h.map_values(|s: Session| record_node(s))))]
}

/// The text under a key that must be there.
pub open spec fn text_under(entries: Seq<(Seq<char>, Node)>, key: Seq<char>) -> Option<Seq<char>> {
    match lookup(entries, key) {
        Some(Node::Text(t)) => Some(t),
        _ => None,
    }
}

/// The text under a key that may be missing: `None` where the key holds
/// anything but a text.
pub open spec fn optional_text(entries: Seq<(Seq<char>, Node)>, key: Seq<char>) -> Option<
    Option<Seq<char>>,
> {
    match lookup(entries, key) {
        None => Some(None),
        Some(Node::Text(t)) => Some(Some(t)),
        Some(_) => None,
    }
}

/// The text that a session's table gives as its kind: `None` unless `kind`
/// is a table whose `type` is a text.
pub open spec fn kind_text(entries: Seq<(Seq<char>, Node)>) -> Option<Seq<char>> {
    match lookup(entries, "kind"@) {
        Some(Node::Table(kind)) => text_under(kind, "type"@),
        _ => None,
    }
}

/// The kind that a session's table names: `None` unless the text that it
/// gives is the name of a kind.
pub open spec fn read_kind(entries: Seq<(Seq<char>, Node)>) -> Option<PomodoroKind> {
    match kind_text(entries) {
        Some(name) => named_kind(name),
        None => None,
    }
}

/// The time that an optional text names: `None` where there is a text and
/// it names none.
pub open spec fn read_end(text: Option<Seq<char>>) -> Option<Option<PomTime>> {
    match text {
        None => Some(None),
        Some(t) => match PomTime::from_text(t) {
            Some(e) => Some(Some(e)),
            None => None,
        },
    }
}

/// The session that a table stands for. `None` where `id`, `start` or `kind`
/// is missing, where a field is of the wrong type or cannot be read, where
/// the kind is unknown, and where the session ends before it starts. Keys
/// that the history does not know are passed over.
pub open spec fn read_record(entries: Seq<(Seq<char>, Node)>) -> Option<Session> {
    match (
        text_under(entries, "id"@),
        text_under(entries, "start"@),
        optional_text(entries, "end"@),
        optional_text(entries, "task"@),
        read_kind(entries),
    ) {
        (Some(id), Some(start), Some(end), Some(task), Some(kind)) => match (
            text_id(id),
            PomTime::from_text(start),
            read_end(end),
        ) {
            (Some(id), Some(start), Some(end)) => {
                let s = Session { id, start, end, task, kind };
                if s.wf() {
                    Some(s)
                } else {
                    None
                }
            },
            _ => None,
        },
        _ => None,
    }
}

/// The session that a node stands for: none unless it is a table.
pub open spec fn read_node(node: Node) -> Option<Session> {
    match node {
        Node::Table(entries) => read_record(entries),
        _ => None,
    }
}

/// The history that a document stands for. `None` unless `poms` is an array
/// of which every item stands for a session.
pub open spec fn read_history(doc: Seq<(Seq<char>, Node)>) -> Option<Seq<Session>> {
    match lookup(doc, "poms"@) {
        Some(Node::List(items)) => if forall|i: int|
            0 <= i < items.len() ==> (#[trigger] read_node(items[i])) is Some {
            Some(items.map_values(|n: Node| read_node(n)->0))
        } else {
            None
        },
        _ => None,
    }
}

/// The text of the document of a history, where every time of the history
/// can be written.
pub open spec fn document_text(h: Seq<Session>) -> Option<Seq<char>> {
    if history_in_range(h) {
        toml_text(history_entries(h))
    } else {
        None
    }
}

/// The history that a text stands for.
pub open spec fn read_text(text: Seq<char>) -> Option<Seq<Session>> {
    match toml_entries(text) {
        Some(doc) => read_history(doc),
        None => None,
    }
}

/// The text that stands for a history: the text of its document, where
/// that text is read back as the history.
pub open spec fn written_text(h: Seq<Session>) -> Option<Seq<char>> {
    match document_text(h) {
        Some(text) => if read_text(text) == Some(h) {
            Some(text)
        } else {
            None
        },
        None => None,
    }
}

/// Whether the identifier and the times of a session are read back from
/// their own texts.
pub open spec fn texts_read_back(s: Session) -> bool {
    &&& text_id(id_text(s.id)) == Some(s.id)
    &&& PomTime::from_text(s.start.text()) == Some(s.start)
    &&& s.end matches Some(e) ==> PomTime::from_text(e.text()) == Some(e)
}

/// The keys of the document differ from one another.
pub proof fn lemma_keys()
    ensures
        "id"@ != "start"@,
        "id"@ != "end"@,
        "id"@ != "task"@,
        "id"@ != "kind"@,
        "start"@ != "end"@,
        "start"@ != "task"@,
        "start"@ != "kind"@,
        "end"@ != "task"@,
        "end"@ != "kind"@,
        "task"@ != "kind"@,
{
    reveal_strlit("id");
    reveal_strlit("start");
    reveal_strlit("end");
    reveal_strlit("task");
    reveal_strlit("kind");
    assert("id"@.len() == 2);
    assert("start"@.len() == 5);
    assert("end"@.len() == 3);
    assert("task"@.len() == 4 && "task"@[0] == 't');
    assert("kind"@.len() == 4 && "kind"@[0] == 'k');
}

/// The table of a session holds no key twice.
pub proof fn lemma_record_keys(s: Session)
    ensures
        distinct_keys(record_entries(s)),
        distinct_keys(kind_entries(s.kind)),
{
    lemma_keys();
}

/// A session's table has the key `end` only where the session has ended,
/// and the key `task` only where it has a task, which then stands there
/// as it is.
pub proof fn lemma_optional_fields(s: Session)
    ensures
        has_key(record_entries(s), "end"@) <==> s.end is Some,
        has_key(record_entries(s), "task"@) <==> s.task is Some,
        s.task matches Some(task) ==> lookup(record_entries(s), "task"@) == Some(Node::Text(task)),
{
    let entries = record_entries(s);
    lemma_keys();
    lemma_record_keys(s);
    match s.end {
        Some(e) => {
            lemma_lookup_found(entries, 2);
        },
        None => {
            lemma_lookup_missing(entries, "end"@);
        },
    }
    match s.task {
        Some(t) => {
            lemma_lookup_found(entries, entries.len() - 2);
        },
        None => {
            lemma_lookup_missing(entries, "task"@);
        },
    }
}

/// A well-formed session whose identifier and times are read back from
/// their texts is read back from its table.
pub proof fn lemma_record_round_trip(s: Session)
    requires
        s.wf(),
        texts_read_back(s),
    ensures
        read_record(record_entries(s)) == Some(s),
{
    let entries = record_entries(s);
    let last = entries.len() - 1;
    lemma_keys();
    lemma_record_keys(s);
    lemma_kind_round_trip(s.kind);
    lemma_lookup_found(kind_entries(s.kind), 0);
    lemma_lookup_found(entries, 0);
    lemma_lookup_found(entries, 1);
    lemma_lookup_found(entries, last);
    match s.end {
        Some(e) => {
            lemma_lookup_found(entries, 2);
        },
        None => {
            lemma_lookup_missing(entries, "end"@);
        },
    }
    match s.task {
        Some(t) => {
            lemma_lookup_found(entries, last - 1);
        },
        None => {
            lemma_lookup_missing(entries, "task"@);
        },
    }
}

/// A history of well-formed sessions whose identifiers and times are read
/// back from their texts is read back from its document.
pub proof fn lemma_history_round_trip(h: Seq<Session>)
    requires
        history_wf(h),
        forall|i: int| 0 <= i < h.len() ==> texts_read_back(#[trigger] h[i]),
    ensures
        read_history(history_entries(h)) == Some(h),
{
    let doc = history_entries(h);
    let nodes = h.map_values(|s: Session| record_node(s));
    lemma_lookup_found(doc, 0);
    assert forall|i: int| 0 <= i < nodes.len() implies (#[trigger] read_node(nodes[i])) == Some(
        h[i],
    ) by {
        lemma_record_round_trip(h[i]);
    }
    assert(nodes.map_values(|n: Node| read_node(n)->0) =~= h);
}

/// The order of its fields makes no difference to the session that a table
/// stands for.
pub proof fn lemma_field_order(a: Seq<(Seq<char>, Node)>, b: Seq<(Seq<char>, Node)>)
    requires
        distinct_keys(a),
        distinct_keys(b),
        a.to_multiset() == b.to_multiset(),
    ensures
        read_record(a) == read_record(b),
{
    lemma_lookup_any_order(a, b, "id"@);
    lemma_lookup_any_order(a, b, "start"@);
    lemma_lookup_any_order(a, b, "end"@);
    lemma_lookup_any_order(a, b, "task"@);
    lemma_lookup_any_order(a, b, "kind"@);
}

/// A document with a session whose kind is a text that names no kind
/// stands for no history.
pub proof fn lemma_unknown_kind(
    doc: Seq<(Seq<char>, Node)>,
    items: Seq<Node>,
    i: int,
    record: Seq<(Seq<char>, Node)>,
    name: Seq<char>,
)
    requires
        lookup(doc, "poms"@) == Some(Node::List(items)),
        0 <= i < items.len(),
        items[i] == Node::Table(record),
        kind_text(record) == Some(name),
        name != "RegularWork"@,
        name != "ShortBreak"@,
        name != "LongBreak"@,
    ensures
        read_record(record) is None,
        read_history(doc) is None,
{
    assert(read_node(items[i]) is None);
}

/// The text under a key: `None` where the key is missing or holds
/// anything but a text.
pub fn text_at<'a>(t: &'a toml::Table, key: &str) -> (r: Option<&'a str>)
    ensures
        text_of(r) == text_under(table_entries(*t), key@),
{
    match table_get(t, key) {
        Some(v) => v.as_str(),
        None => None,
    }
}

/// The text under a key that may be missing: `Err` where the key holds
/// anything but a text.
pub fn optional_text_at<'a>(t: &'a toml::Table, key: &str) -> (r: Result<Option<&'a str>, ()>)
    ensures
        match r {
            Ok(text) => optional_text(table_entries(*t), key@) == Some(text_of(text)),
            Err(_) => optional_text(table_entries(*t), key@) is None,
        },
{
    match table_get(t, key) {
        Some(v) => match v.as_str() {
            Some(text) => Ok(Some(text)),
            None => Err(()),
        },
        None => Ok(None),
    }
}

/// The kind that a session's table names.
pub fn kind_at(t: &toml::Table) -> (r: Option<PomodoroKind>)
    ensures
        r == read_kind(table_entries(*t)),
{
    match table_get(t, "kind") {
        Some(v) => match v.as_table() {
            Some(kind) => match text_at(kind, "type") {
                Some(name) => PomodoroKind::from_name(name),
                None => None,
            },
            None => None,
        },
        None => None,
    }
}

impl Pomodoro {
    /// The table that stands for the session. A session with a time that
    /// cannot be written has none.
    pub fn to_table(&self) -> (r: Option<toml::Table>)
        ensures
            r is Some <==> self@.in_range(),
            r matches Some(t) ==> table_entries(t) == record_entries(self@),
            r matches Some(t) ==> read_record(table_entries(t)) == Some(self@),
            r is Some ==> texts_read_back(self@),
    {
        let start = match self.start().to_text() {
            Some(text) => text,
            None => {
                return None;
            },
        };
        let end = match self.end() {
            Some(e) => match e.to_text() {
                Some(text) => Some(text),
                None => {
                    return None;
                },
            },
            None => None,
        };
        proof {
            lemma_keys();
        }
        let mut t = new_table();
        table_insert(&mut t, "id".to_owned(), text_value(write_id(self.id())));
        proof {
            lemma_lookup_missing(table_entries(t), "start"@);
        }
        table_insert(&mut t, "start".to_owned(), text_value(start));
        match end {
            Some(text) => {
                proof {
                    lemma_lookup_missing(table_entries(t), "end"@);
                }
                table_insert(&mut t, "end".to_owned(), text_value(text));
            },
            None => {},
        }
        match self.task() {
            Some(task) => {
                proof {
                    lemma_lookup_missing(table_entries(t), "task"@);
                }
                table_insert(&mut t, "task".to_owned(), text_value(task.to_owned()));
            },
            None => {},
        }
        let mut kind = new_table();
        table_insert(&mut kind, "type".to_owned(), text_value(self.kind().name().to_owned()));
        proof {
            lemma_lookup_missing(table_entries(t), "kind"@);
        }
        table_insert(&mut t, "kind".to_owned(), table_value(kind));
        proof {
            assert(table_entries(kind) =~= kind_entries(self@.kind));
            assert(table_entries(t) =~= record_entries(self@));
            lemma_record_round_trip(self@);
        }
        Some(t)
    }

    /// The session that a table stands for, if it stands for one.
    pub fn from_table(t: &toml::Table) -> (r: Option<Pomodoro>)
        ensures
            match r {
                Some(p) => read_record(table_entries(*t)) == Some(p@),
                None => read_record(table_entries(*t)) is None,
            },
    {
        let id = match text_at(t, "id") {
            Some(text) => match read_id(text) {
                Some(id) => id,
                None => {
                    return None;
                },
            },
            None => {
                return None;
            },
        };
        let start = match text_at(t, "start") {
            Some(text) => match PomTime::parse(text) {
                Some(start) => start,
                None => {
                    return None;
                },
            },
            None => {
                return None;
            },
        };
        let end = match optional_text_at(t, "end") {
            Ok(Some(text)) => match PomTime::parse(text) {
                Some(end) => Some(end),
                None => {
                    return None;
                },
            },
            Ok(None) => None,
            Err(_) => {
                return None;
            },
        };
        let task = match optional_text_at(t, "task") {
            Ok(task) => task,
            Err(_) => {
                return None;
            },
        };
        let kind = match kind_at(t) {
            Some(kind) => kind,
            None => {
                return None;
            },
        };
        Pomodoro::from_parts(id, start, end, task, kind)
    }
}

impl Pomodoros {
    /// The document that stands for the history. A history with a time
    /// that cannot be written has none. The document is read back as the
    /// history that it was made of.
    pub fn to_table(&self) -> (r: Option<toml::Table>)
        ensures
            r is Some <==> history_in_range(self@),
            r matches Some(t) ==> table_entries(t) == history_entries(self@),
            r matches Some(t) ==> read_history(table_entries(t)) == Some(self@),
    {
        let mut items: Vec<toml::Value> = Vec::new();
        let mut i: usize = 0;
        while i < self.len()
            invariant
                i <= self@.len(),
                items@.len() == i,
                forall|j: int|
                    0 <= j < i ==> value_node(#[trigger] items@[j]) == record_node(self@[j]),
                forall|j: int| 0 <= j < i ==> (#[trigger] self@[j]).in_range(),
                forall|j: int| 0 <= j < i ==> (#[trigger] self@[j]).wf(),
                forall|j: int| 0 <= j < i ==> texts_read_back(#[trigger] self@[j]),
            decreases self@.len() - i,
        {
            let record = match self.get(i) {
                Some(pom) => pom.to_table(),
                None => None,
            };
            match record {
                Some(t) => {
                    items.push(table_value(t));
                },
                None => {
                    assert(!self@[i as int].in_range());
                    return None;
                },
            }
            i = i + 1;
        }
        let ghost nodes = items@.map_values(|v: toml::Value| value_node(v));
        let mut doc = new_table();
        table_insert(&mut doc, "poms".to_owned(), list_value(items));
        proof {
            assert(nodes =~= self@.map_values(|s: Session| record_node(s)));
            assert(table_entries(doc) =~= history_entries(self@));
            lemma_history_round_trip(self@);
        }
        Some(doc)
    }

    /// The history that a document stands for, or `MalformedHistory`.
    pub fn from_table(doc: &toml::Table) -> (r: Result<Pomodoros, StoreError>)
        ensures
            match read_history(table_entries(*doc)) {
                Some(h) => r matches Ok(poms) && poms@ == h,
                None => r == Err::<Pomodoros, StoreError>(StoreError::MalformedHistory),
            },
    {
        let items = match table_get(doc, "poms") {
            Some(v) => match v.as_array() {
                Some(items) => items,
                None => {
                    return Err(StoreError::MalformedHistory);
                },
            },
            None => {
                return Err(StoreError::MalformedHistory);
            },
        };
        let ghost nodes = items@.map_values(|v: toml::Value| value_node(v));
        let mut poms = Pomodoros::new();
        let mut i: usize = 0;
        while i < items.len()
            invariant
                i <= items@.len(),
                nodes == items@.map_values(|v: toml::Value| value_node(v)),
                lookup(table_entries(*doc), "poms"@) == Some(Node::List(nodes)),
                poms@.len() == i,
                forall|j: int| 0 <= j < i ==> read_node(#[trigger] nodes[j]) == Some(poms@[j]),
            decreases items@.len() - i,
        {
            let pom = match items[i].as_table() {
                Some(t) => Pomodoro::from_table(t),
                None => None,
            };
            match pom {
                Some(pom) => {
                    poms.push(pom);
                },
                None => {
                    assert(read_node(nodes[i as int]) is None);
                    return Err(StoreError::MalformedHistory);
                },
            }
            i = i + 1;
        }
        proof {
            assert(nodes.map_values(|n: Node| read_node(n)->0) =~= poms@);
        }
        Ok(poms)
    }

    /// The text of the history. It is read once more before it is handed
    /// out, so that whatever text comes out is read back as this history.
    /// `Err` where a time cannot be written, where the toml crate writes no
    /// text, and where the text is not read back as the history.
    pub fn to_string(&self) -> (r: Result<String, ()>)
        ensures
            match written_text(self@) {
                Some(text) => r matches Ok(s) && s@ == text,
                None => r is Err,
            },
            r matches Ok(s) ==> read_text(s@) == Some(self@),
    {
        let doc = match self.to_table() {
            Some(doc) => doc,
            None => {
                return Err(());
            },
        };
        let text = match write_table(&doc) {
            Ok(text) => text,
            Err(_) => {
                return Err(());
            },
        };
        match Pomodoros::from_str(text.as_str()) {
            Ok(read) => if read.same_as(self) {
                Ok(text)
            } else {
                Err(())
            },
            Err(_) => Err(()),
        }
    }

    /// The history that a text stands for, or `MalformedHistory`: where the
    /// text is no document, where `poms` is missing or no array of tables,
    /// and where a session's table stands for no session. A time outside
    /// the years 0000 to 9999 is refused, as RFC 3339 has no text for it.
    pub fn from_str(text: &str) -> (r: Result<Pomodoros, StoreError>)
        ensures
            match read_text(text@) {
                Some(h) => r matches Ok(poms) && poms@ == h,
                None => r == Err::<Pomodoros, StoreError>(StoreError::MalformedHistory),
            },
    {
        match read_table(text) {
            Ok(doc) => Pomodoros::from_table(&doc),
            Err(_) => Err(StoreError::MalformedHistory),
        }
    }
}

} // verus!

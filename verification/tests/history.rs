use zeit::error::StoreError;
use zeit::pomodoro::{Pomodoro, PomodoroKind, Pomodoros};
use zeit::store::{append_session, load_history, save_history};
use zeit::time::PomTime;

fn session(
    id: u128,
    start: &str,
    end: Option<&str>,
    task: Option<&str>,
    kind: PomodoroKind,
) -> Pomodoro {
    let start = PomTime::parse(start).unwrap();
    let end = end.map(|text| PomTime::parse(text).unwrap());
    Pomodoro::from_parts(id, start, end, task, kind).unwrap()
}

fn history_of(sessions: Vec<Pomodoro>) -> Pomodoros {
    let mut history = Pomodoros::new();
    for pom in sessions {
        history.push(pom);
    }
    history
}

#[test]
fn history_serialize() {
    let history = r#"
            [[poms]]
            id = "424f33fe-9b60-48bf-8c63-974e23a5d7de"
            start = "2017-03-12T00:49:59.626061638Z"
            task = "People"

            [poms.kind]
            type = "RegularWork"
            [[poms]]
            id = "424f33fe-9b60-48bf-8c63-974e23a5d7de"
            start = "2017-03-12T00:49:59.626061638Z"
            task = "Like"

            [poms.kind]
            type = "RegularWork"
            [[poms]]
            id = "424f33fe-9b60-48bf-8c63-974e23a5d7de"
            start = "2017-03-12T00:49:59.626061638Z"
            task = "Butts"

            [poms.kind]
            type = "RegularWork"
        "#;

    let poms: Pomodoros = Pomodoros::from_str(&history).unwrap();

    assert_eq!(poms.len(), 3);
    let tasks = ["People", "Like", "Butts"];
    for i in 0..3 {
        let pom = poms.get(i).unwrap();
        assert_eq!(pom.id(), 0x424f33fe_9b60_48bf_8c63_974e23a5d7de);
        assert_eq!(pom.start(), PomTime::new(1489279799, 626061638));
        assert_eq!(pom.end(), None);
        assert_eq!(pom.task(), Some(tasks[i]));
        assert_eq!(pom.kind(), PomodoroKind::RegularWork);
    }
}

#[test]
fn history_deserialize() {
    let history = history_of(vec![
        session(
            0,
            "1996-12-19T16:39:57-08:00",
            None,
            Some("Fighting the man"),
            PomodoroKind::RegularWork,
        ),
        session(
            0,
            "1996-12-19T16:39:57-08:00",
            None,
            Some("Fighting the law"),
            PomodoroKind::ShortBreak,
        ),
    ]);

    let output = history.to_string().unwrap();
    assert_eq!(output,
               "[[poms]]\nid = \"00000000-0000-0000-0000-000000000000\"\nstart = \
                \"1996-12-20T00:39:57Z\"\ntask = \"Fighting the man\"\n\n[poms.kind]\ntype = \
                \"RegularWork\"\n\n[[poms]]\nid = \
                \"00000000-0000-0000-0000-000000000000\"\nstart = \
                \"1996-12-20T00:39:57Z\"\ntask = \"Fighting the law\"\n\n[poms.kind]\ntype = \
                \"ShortBreak\"\n");
}

#[test]
fn empty_history_has_a_text_and_reads_back() {
    let empty = Pomodoros::new();
    let text = empty.to_string().unwrap();
    assert_eq!(text, "poms = []\n");
    assert!(!text.contains("[[poms]]"));
    let read = Pomodoros::from_str(&text).unwrap();
    assert_eq!(read.len(), 0);
    assert_eq!(read, empty);
    assert_eq!(save_history(&empty), Ok("poms = []\n".to_string()));
}

#[test]
fn one_session_reads_back() {
    let history = history_of(vec![session(
        0xa1a2a3a4_b1b2_c1c2_d1d2_d3d4d5d6d7d8,
        "2017-03-12T00:49:59.626061638Z",
        None,
        None,
        PomodoroKind::LongBreak,
    )]);
    let text = history.to_string().unwrap();
    assert_eq!(
        text,
        "[[poms]]\nid = \"a1a2a3a4-b1b2-c1c2-d1d2-d3d4d5d6d7d8\"\nstart = \
         \"2017-03-12T00:49:59.626061638Z\"\n\n[poms.kind]\ntype = \"LongBreak\"\n"
    );
    let read = Pomodoros::from_str(&text).unwrap();
    assert_eq!(read, history);
    assert!(read.same_as(&history));
    assert_eq!(read.get(0).unwrap().start(), PomTime::new(1489279799, 626061638));
}

#[test]
fn every_mix_of_end_and_task_reads_back() {
    let ends = [None, Some("2020-01-01T10:25:00.5Z")];
    let tasks = [None, Some("Deep work"), Some(""), Some("quote \" slash \\ line\nbreak \u{1F345}")];
    let kinds = [PomodoroKind::RegularWork, PomodoroKind::ShortBreak, PomodoroKind::LongBreak];
    let mut sessions = Vec::new();
    let mut id: u128 = 1;
    for end in ends {
        for task in tasks {
            for kind in kinds {
                sessions.push(session(id, "2020-01-01T10:00:00.000000001Z", end, task, kind));
                id = id * 7919 + 13;
            }
        }
    }
    assert_eq!(sessions.len(), 24);
    let history = history_of(sessions);
    let text = save_history(&history).unwrap();
    assert_eq!(text, history.to_string().unwrap());
    let read = load_history(&text).unwrap();
    assert_eq!(read.len(), 24);
    assert_eq!(read, history);
    for i in 0..24 {
        assert!(read.get(i).unwrap().same_as(history.get(i).unwrap()));
    }
}

#[test]
fn fields_are_written_in_their_order() {
    let history = history_of(vec![session(
        7,
        "2020-01-01T10:00:00Z",
        Some("2020-01-01T10:25:00Z"),
        Some("Deep work"),
        PomodoroKind::RegularWork,
    )]);
    assert_eq!(
        history.to_string().unwrap(),
        "[[poms]]\nid = \"00000000-0000-0000-0000-000000000007\"\nstart = \
         \"2020-01-01T10:00:00Z\"\nend = \"2020-01-01T10:25:00Z\"\ntask = \"Deep work\"\n\n\
         [poms.kind]\ntype = \"RegularWork\"\n"
    );
}

#[test]
fn the_order_of_the_fields_makes_no_difference() {
    let one = r#"
        [[poms]]
        id = "424f33fe-9b60-48bf-8c63-974e23a5d7de"
        start = "2017-03-12T00:49:59.626061638Z"
        end = "2017-03-12T01:14:59Z"
        task = "People"
        kind = { type = "ShortBreak" }
    "#;
    let other = r#"
        [[poms]]
        kind = { type = "ShortBreak" }
        task = "People"
        end = "2017-03-12T01:14:59Z"
        start = "2017-03-12T00:49:59.626061638Z"
        id = "424f33fe-9b60-48bf-8c63-974e23a5d7de"
    "#;
    let a = Pomodoros::from_str(one).unwrap();
    let b = Pomodoros::from_str(other).unwrap();
    assert_eq!(a.len(), 1);
    assert_eq!(a, b);
    assert!(a.get(0).unwrap().same_as(b.get(0).unwrap()));
}

#[test]
fn sessions_keep_their_order() {
    let text = r#"
        [[poms]]
        id = "00000000-0000-0000-0000-000000000002"
        start = "2020-01-02T00:00:00Z"
        kind = { type = "LongBreak" }

        [[poms]]
        id = "00000000-0000-0000-0000-000000000001"
        start = "2020-01-01T00:00:00Z"
        kind = { type = "RegularWork" }
    "#;
    let read = Pomodoros::from_str(text).unwrap();
    assert_eq!(read.len(), 2);
    assert_eq!(read.get(0).unwrap().id(), 2);
    assert_eq!(read.get(1).unwrap().id(), 1);
    assert!(read.get(2).is_none());
}

#[test]
fn unknown_keys_are_passed_over() {
    let text = r#"
        title = "mine"

        [[poms]]
        id = "00000000-0000-0000-0000-000000000001"
        start = "2020-01-01T00:00:00Z"
        mood = 3
        [poms.kind]
        type = "RegularWork"
        since = 2020-01-01
    "#;
    let read = Pomodoros::from_str(text).unwrap();
    assert_eq!(read.len(), 1);
    assert_eq!(read.get(0).unwrap().kind(), PomodoroKind::RegularWork);
}

fn record(body: &str) -> String {
    format!("[[poms]]\n{}\n", body)
}

fn malformed(text: &str) {
    assert_eq!(Pomodoros::from_str(text), Err(StoreError::MalformedHistory));
    assert_eq!(load_history(text), Err(StoreError::MalformedHistory));
}

#[test]
fn an_unknown_kind_is_refused() {
    let good = record(
        "id = \"00000000-0000-0000-0000-000000000001\"\nstart = \"2020-01-01T00:00:00Z\"\nkind = { type = \"RegularWork\" }",
    );
    assert_eq!(Pomodoros::from_str(&good).unwrap().len(), 1);
    for name in ["Nap", "", "regularwork", "RegularWork ", "Regular Work", "SHORTBREAK"] {
        let text = record(&format!(
            "id = \"00000000-0000-0000-0000-000000000001\"\nstart = \"2020-01-01T00:00:00Z\"\nkind = {{ type = \"{}\" }}",
            name
        ));
        malformed(&text);
    }
}

#[test]
fn one_bad_session_spoils_the_history() {
    let text = r#"
        [[poms]]
        id = "00000000-0000-0000-0000-000000000001"
        start = "2020-01-01T00:00:00Z"
        kind = { type = "RegularWork" }

        [[poms]]
        id = "00000000-0000-0000-0000-000000000002"
        start = "2020-01-01T00:00:00Z"
        kind = { type = "Siesta" }
    "#;
    malformed(text);
}

#[test]
fn a_missing_field_is_refused() {
    malformed(&record("start = \"2020-01-01T00:00:00Z\"\nkind = { type = \"RegularWork\" }"));
    malformed(&record(
        "id = \"00000000-0000-0000-0000-000000000001\"\nkind = { type = \"RegularWork\" }",
    ));
    malformed(&record(
        "id = \"00000000-0000-0000-0000-000000000001\"\nstart = \"2020-01-01T00:00:00Z\"",
    ));
    malformed(&record(
        "id = \"00000000-0000-0000-0000-000000000001\"\nstart = \"2020-01-01T00:00:00Z\"\nkind = { }",
    ));
    malformed("");
    malformed("title = \"no sessions here\"\n");
}

#[test]
fn a_field_of_the_wrong_type_is_refused() {
    let head = "id = \"00000000-0000-0000-0000-000000000001\"\nstart = \"2020-01-01T00:00:00Z\"\n";
    malformed(&record(&format!("{}task = 5\nkind = {{ type = \"RegularWork\" }}", head)));
    malformed(&record(&format!("{}end = true\nkind = {{ type = \"RegularWork\" }}", head)));
    malformed(&record(&format!("{}end = 2020-01-01T00:30:00Z\nkind = {{ type = \"RegularWork\" }}", head)));
    malformed(&record(&format!("{}kind = \"RegularWork\"", head)));
    malformed(&record(&format!("{}kind = {{ type = 1 }}", head)));
    malformed(&record(
        "id = 1\nstart = \"2020-01-01T00:00:00Z\"\nkind = { type = \"RegularWork\" }",
    ));
    malformed(&record(
        "id = \"00000000-0000-0000-0000-000000000001\"\nstart = 2020-01-01T00:00:00Z\nkind = { type = \"RegularWork\" }",
    ));
    malformed("poms = 3\n");
    malformed("poms = \"none\"\n");
    malformed("poms = [1, 2]\n");
    malformed("[poms]\nid = \"00000000-0000-0000-0000-000000000001\"\n");
}

#[test]
fn a_text_that_cannot_be_read_is_refused() {
    let tail = "kind = { type = \"RegularWork\" }";
    malformed(&record(&format!("id = \"not an id\"\nstart = \"2020-01-01T00:00:00Z\"\n{}", tail)));
    malformed(&record(&format!(
        "id = \"00000000-0000-0000-0000-000000000001\"\nstart = \"yesterday\"\n{}",
        tail
    )));
    malformed(&record(&format!(
        "id = \"00000000-0000-0000-0000-000000000001\"\nstart = \"2020-01-01T00:00:00Z\"\nend = \"\"\n{}",
        tail
    )));
    malformed("[[poms]\n");
    malformed("poms = [");
    malformed("[[poms]]\nid = \"a\"\nid = \"b\"\n");
}

#[test]
fn a_session_that_ends_before_it_starts_is_refused() {
    let tail = "kind = { type = \"RegularWork\" }";
    let head = "id = \"00000000-0000-0000-0000-000000000001\"\n";
    malformed(&record(&format!(
        "{}start = \"2020-01-01T00:00:01Z\"\nend = \"2020-01-01T00:00:00Z\"\n{}",
        head, tail
    )));
    malformed(&record(&format!(
        "{}start = \"2020-01-01T00:00:00.000000002Z\"\nend = \"2020-01-01T00:00:00.000000001Z\"\n{}",
        head, tail
    )));
    let same = record(&format!(
        "{}start = \"2020-01-01T00:00:00.5Z\"\nend = \"2020-01-01T00:00:00.5Z\"\n{}",
        head, tail
    ));
    let read = Pomodoros::from_str(&same).unwrap();
    assert_eq!(read.get(0).unwrap().end(), Some(PomTime::new(1577836800, 500_000_000)));
}

#[test]
fn a_time_out_of_range_is_refused_on_the_way_in() {
    let tail = "kind = { type = \"RegularWork\" }";
    let head = "id = \"00000000-0000-0000-0000-000000000001\"\n";
    malformed(&record(&format!("{}start = \"+10000-01-01T00:00:00Z\"\n{}", head, tail)));
    malformed(&record(&format!("{}start = \"-0001-12-31T23:59:59Z\"\n{}", head, tail)));
    malformed(&record(&format!("{}start = \"2016-12-31T23:59:61Z\"\n{}", head, tail)));
    let first = record(&format!("{}start = \"0000-01-01T00:00:00Z\"\n{}", head, tail));
    let read = Pomodoros::from_str(&first).unwrap();
    assert_eq!(read.get(0).unwrap().start(), PomTime::new(-62_167_219_200, 0));
    let last = record(&format!("{}start = \"9999-12-31T23:59:59.999999999Z\"\n{}", head, tail));
    let read = Pomodoros::from_str(&last).unwrap();
    assert_eq!(read.get(0).unwrap().start(), PomTime::new(253_402_300_799, 999_999_999));
}

#[test]
fn a_leap_second_is_kept() {
    let tail = "kind = { type = \"RegularWork\" }";
    let head = "id = \"00000000-0000-0000-0000-000000000001\"\n";
    let text = record(&format!(
        "{}start = \"2016-12-31T23:59:60Z\"\nend = \"2016-12-31T16:59:60.25-07:00\"\n{}",
        head, tail
    ));
    let read = Pomodoros::from_str(&text).unwrap();
    let pom = read.get(0).unwrap();
    assert_eq!(pom.start(), PomTime::new(1483228799, 1_000_000_000));
    assert_eq!(pom.end(), Some(PomTime::new(1483228799, 1_250_000_000)));
    let written = read.to_string().unwrap();
    assert!(written.contains("\nstart = \"2016-12-31T23:59:60Z\"\n"));
    assert!(written.contains("\nend = \"2016-12-31T23:59:60.250Z\"\n"));
    assert_eq!(Pomodoros::from_str(&written).unwrap(), read);
    assert_eq!(save_history(&read), Ok(written));
}

#[test]
fn a_time_out_of_range_has_no_text() {
    for start in [
        PomTime::new(253_402_300_800, 0),
        PomTime::new(-62_167_219_201, 0),
        PomTime::new(0, 1_000_000_000),
        PomTime::new(59, 2_000_000_000),
        PomTime::new(i64::MAX, 0),
        PomTime::new(i64::MIN, u32::MAX),
    ] {
        let pom = Pomodoro::from_parts(1, start, None, None, PomodoroKind::RegularWork).unwrap();
        assert!(pom.to_table().is_none());
        let history = history_of(vec![
            session(2, "2020-01-01T00:00:00Z", None, None, PomodoroKind::RegularWork),
            pom,
        ]);
        assert_eq!(history.to_string(), Err(()));
        assert!(history.to_table().is_none());
        assert_eq!(save_history(&history), Err(StoreError::SerializationFailure));
    }
    let end = PomTime::new(253_402_300_800, 0);
    let pom = Pomodoro::from_parts(1, PomTime::new(0, 0), Some(end), None, PomodoroKind::RegularWork)
        .unwrap();
    assert_eq!(history_of(vec![pom]).to_string(), Err(()));
}

#[test]
fn a_session_is_appended_behind_the_last() {
    let blank = save_history(&Pomodoros::new()).unwrap();
    let first = session(1, "2020-01-01T10:00:00Z", None, Some("one"), PomodoroKind::RegularWork);
    let second = session(2, "2020-01-01T09:00:00Z", None, None, PomodoroKind::ShortBreak);
    let text = append_session(&blank, first.clone()).unwrap();
    let text = append_session(&text, second.clone()).unwrap();
    let read = load_history(&text).unwrap();
    assert_eq!(read, history_of(vec![first.clone(), second]));
    assert_eq!(
        append_session("poms = 1", first.clone()),
        Err(StoreError::MalformedHistory)
    );
    let late = Pomodoro::from_parts(
        3,
        PomTime::new(253_402_300_800, 0),
        None,
        None,
        PomodoroKind::RegularWork,
    )
    .unwrap();
    assert_eq!(append_session(&blank, late), Err(StoreError::SerializationFailure));
}

#[test]
fn a_document_is_read_as_it_stands() {
    let mut kind = toml::Table::new();
    kind.insert("type".to_string(), toml::Value::from("LongBreak"));
    let mut record = toml::Table::new();
    record.insert("kind".to_string(), toml::Value::from(kind));
    record.insert("start".to_string(), toml::Value::from("2020-01-01T00:00:00Z"));
    record.insert(
        "id".to_string(),
        toml::Value::from("00000000-0000-0000-0000-00000000000a"),
    );
    let pom = Pomodoro::from_table(&record).unwrap();
    assert_eq!(pom.id(), 10);
    assert_eq!(pom.kind(), PomodoroKind::LongBreak);
    assert_eq!(pom.task(), None);
    let back = pom.to_table().unwrap();
    let keys: Vec<&str> = back.keys().map(|k| k.as_str()).collect();
    assert_eq!(keys, vec!["id", "start", "kind"]);
    assert_eq!(back.get("id"), record.get("id"));
    assert_eq!(back.get("kind"), record.get("kind"));

    let mut doc = toml::Table::new();
    doc.insert(
        "poms".to_string(),
        toml::Value::Array(vec![toml::Value::Table(record), toml::Value::Integer(1)]),
    );
    assert_eq!(Pomodoros::from_table(&doc), Err(StoreError::MalformedHistory));
    assert_eq!(Pomodoros::from_table(&toml::Table::new()), Err(StoreError::MalformedHistory));
    let whole = history_of(vec![pom]).to_table().unwrap();
    assert_eq!(Pomodoros::from_table(&whole).unwrap().len(), 1);
    assert_eq!(whole.len(), 1);
    assert_eq!(whole.get("poms").unwrap().as_array().unwrap().len(), 1);
}

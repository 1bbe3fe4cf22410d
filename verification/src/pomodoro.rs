//! Sessions, their kinds, and the history that collects them.

use vstd::prelude::*;
use crate::ident::{is_random_id, random_id};
use crate::time::{NANOS_PER_SEC, PomTime};

verus! {

/// What a session was spent on.
#[derive(Clone, Copy, Debug, PartialEq, Eq, Structural)]
pub enum PomodoroKind {
    /// Work on a task.
    RegularWork,
    /// The short rest between two sessions of work.
    ShortBreak,
    /// The long rest after several sessions of work.
    LongBreak,
}

/// The name under which a kind is written.
pub open spec fn kind_name(kind: PomodoroKind) -> Seq<char> {
    match kind {
        PomodoroKind::RegularWork => "RegularWork"@,
        PomodoroKind::ShortBreak => "ShortBreak"@,
        PomodoroKind::LongBreak => "LongBreak"@,
    }
}

/// The kind that a name stands for. Any other text names none.
pub open spec fn named_kind(name: Seq<char>) -> Option<PomodoroKind> {
    if name == "RegularWork"@ {
        Some(PomodoroKind::RegularWork)
    } else if name == "ShortBreak"@ {
        Some(PomodoroKind::ShortBreak)
    } else if name == "LongBreak"@ {
        Some(PomodoroKind::LongBreak)
    } else {
        None
    }
}

/// Whether two texts are the same.
fn same_text(a: &str, b: &str) -> (r: bool)
    ensures
        r == (a@ == b@),
{
    let x: String = a.to_owned();
    let y: String = b.to_owned();
    x == y
}

/// Every kind is the one that its own name stands for.
pub proof fn lemma_kind_round_trip(kind: PomodoroKind)
    ensures
        named_kind(kind_name(kind)) == Some(kind),
{
    reveal_strlit("RegularWork");
    reveal_strlit("ShortBreak");
    reveal_strlit("LongBreak");
    assert("RegularWork"@.len() == 11);
    assert("ShortBreak"@.len() == 10);
    assert("LongBreak"@.len() == 9);
}

impl PomodoroKind {
    /// The name under which the kind is written.
    pub fn name(&self) -> (r: &'static str)
        ensures
            r@ == kind_name(*self),
    {
        match self {
            PomodoroKind::RegularWork => "RegularWork",
            PomodoroKind::ShortBreak => "ShortBreak",
            PomodoroKind::LongBreak => "LongBreak",
        }
    }

    /// The kind that a name stands for; `None` for a text that is no name
    /// of a kind.
    pub fn from_name(name: &str) -> (r: Option<PomodoroKind>)
        ensures
            r == named_kind(name@),
    {
        if same_text(name, "RegularWork") {
            Some(PomodoroKind::RegularWork)
        } else if same_text(name, "ShortBreak") {
            Some(PomodoroKind::ShortBreak)
        } else if same_text(name, "LongBreak") {
            Some(PomodoroKind::LongBreak)
        } else {
            None
        }
    }
}

/// A session as a plain value.
pub struct Session {
    pub id: u128,
    pub start: PomTime,
    pub end: Option<PomTime>,
    pub task: Option<Seq<char>>,
    pub kind: PomodoroKind,
}

impl Session {
    /// A session that has ended did not end before it started.
    pub open spec fn wf(self) -> bool {
        self.end matches Some(e) ==> self.start.not_after(e)
    }

    /// Whether the times of the session can be written.
    pub open spec fn in_range(self) -> bool {
        self.start.in_range() && (self.end matches Some(e) ==> e.in_range())
    }
}

/// One tracked interval of work or of rest.
#[derive(Debug, PartialEq, Eq)]
pub struct Pomodoro {
    id: u128,
    start: PomTime,
    end: Option<PomTime>,
    task: Option<String>,
    kind: PomodoroKind,
}

impl View for Pomodoro {
    type V = Session;

    closed spec fn view(&self) -> Session {
        Session {
            id: self.id,
            start: self.start,
            end: self.end,
            task: match self.task {
                Some(t) => Some(t@),
                None => None,
            },
            kind: self.kind,
        }
    }
}

impl Clone for Pomodoro {
    fn clone(&self) -> (r: Self)
        ensures
            r@ == self@,
    {
        proof {
            use_type_invariant(self);
        }
        Pomodoro {
            id: self.id,
            start: self.start,
            end: self.end,
            task: match &self.task {
                Some(t) => Some(t.clone()),
                None => None,
            },
            kind: self.kind,
        }
    }
}

/// The text of a string that may be missing.
pub open spec fn text_of(text: Option<&str>) -> Option<Seq<char>> {
    match text {
        Some(t) => Some(t@),
        None => None,
    }
}

impl Pomodoro {
    #[verifier::type_invariant]
    spec fn ends_after_start(self) -> bool {
        self.end matches Some(e) ==> self.start.not_after(e)
    }

    /// Starts a session now, under a fresh random identifier.
    pub fn new(task: Option<&str>, kind: PomodoroKind) -> (p: Self)
        ensures
            p@.end is None,
            p@.task == text_of(task),
            p@.kind == kind,
            is_random_id(p@.id),
            p@.start.nanos < NANOS_PER_SEC,
            p@.wf(),
    {
        let id = random_id();
        let start = PomTime::now();
        Pomodoro::started(id, start, task, kind)
    }

    /// The open session that started at `start` under the identifier `id`.
    pub fn started(id: u128, start: PomTime, task: Option<&str>, kind: PomodoroKind) -> (p: Self)
        ensures
            p@ == (Session { id, start, end: None, task: text_of(task), kind }),
            p@.wf(),
    {
        Pomodoro {
            id,
            start,
            end: None,
            task: match task {
                Some(taskstr) => Some(taskstr.to_owned()),
                None => None,
            },
            kind,
        }
    }

    /// Puts a session together from its parts. A session that ends before
    /// it starts is refused.
    pub fn from_parts(
        id: u128,
        start: PomTime,
        end: Option<PomTime>,
        task: Option<&str>,
        kind: PomodoroKind,
    ) -> (r: Option<Self>)
        ensures
            r is Some <==> (Session { id, start, end, task: text_of(task), kind }).wf(),
            r matches Some(p) ==> p@ == (Session { id, start, end, task: text_of(task), kind }),
    {
        let ordered = match end {
            Some(e) => start.is_not_after(&e),
            None => true,
        };
        if ordered {
            Some(
                Pomodoro {
                    id,
                    start,
                    end,
                    task: match task {
                        Some(taskstr) => Some(taskstr.to_owned()),
                        None => None,
                    },
                    kind,
                },
            )
        } else {
            None
        }
    }

    /// Ends an open session at `end`. A session that has ended stays as it
    /// is, and no session ends before it started: both are refused.
    pub fn close(&self, end: PomTime) -> (r: Option<Self>)
        ensures
            r is Some <==> self@.end is None && self@.start.not_after(end),
            r matches Some(p) ==> p@ == (Session { end: Some(end), ..self@ }),
    {
        if self.end.is_none() && self.start.is_not_after(&end) {
            Some(
                Pomodoro {
                    id: self.id,
                    start: self.start,
                    end: Some(end),
                    task: match &self.task {
                        Some(t) => Some(t.clone()),
                        None => None,
                    },
                    kind: self.kind,
                },
            )
        } else {
            None
        }
    }

    pub fn id(&self) -> (r: u128)
        ensures
            r == self@.id,
    {
        self.id
    }

    pub fn start(&self) -> (r: PomTime)
        ensures
            r == self@.start,
    {
        self.start
    }

    pub fn end(&self) -> (r: Option<PomTime>)
        ensures
            r == self@.end,
            self@.wf(),
    {
        proof {
            use_type_invariant(self);
        }
        self.end
    }

    pub fn task(&self) -> (r: Option<&str>)
        ensures
            text_of(r) == self@.task,
    {
        match &self.task {
            Some(t) => Some(t.as_str()),
            None => None,
        }
    }

    pub fn kind(&self) -> (r: PomodoroKind)
        ensures
            r == self@.kind,
    {
        self.kind
    }

    /// Whether two sessions are the same in every part.
    pub fn same_as(&self, other: &Pomodoro) -> (r: bool)
        ensures
            r == (self@ == other@),
    {
        let same_end = match (self.end, other.end) {
            (Some(a), Some(b)) => a == b,
            (None, None) => true,
            _ => false,
        };
        let same_task = match (&self.task, &other.task) {
            (Some(a), Some(b)) => *a == *b,
            (None, None) => true,
            _ => false,
        };
        self.id == other.id && self.start == other.start && same_end && same_task && self.kind
            == other.kind
    }
}

/// The sessions of a store, in the order in which they were added.
#[derive(Debug, PartialEq, Eq)]
pub struct Pomodoros {
    poms: Vec<Pomodoro>,
}

impl View for Pomodoros {
    type V = Seq<Session>;

    closed spec fn view(&self) -> Seq<Session> {
        self.poms@.map_values(|p: Pomodoro| p@)
    }
}

/// Whether every session of a history is well formed.
pub open spec fn history_wf(h: Seq<Session>) -> bool {
    forall|i: int| 0 <= i < h.len() ==> (#[trigger] h[i]).wf()
}

/// Whether the times of every session of a history can be written.
pub open spec fn history_in_range(h: Seq<Session>) -> bool {
    forall|i: int| 0 <= i < h.len() ==> (#[trigger] h[i]).in_range()
}

impl Pomodoros {
    /// A history without sessions.
    pub fn new() -> (r: Self)
        ensures
            r@ == Seq::<Session>::empty(),
    {
        Pomodoros { poms: vec![] }
    }

    /// Adds a session behind the last.
    pub fn push(&mut self, pom: Pomodoro)
        ensures
            final(self)@ == old(self)@.push(pom@),
    {
        self.poms.push(pom);
        assert(self.poms@.map_values(|p: Pomodoro| p@) =~= old(self).poms@.map_values(
            |p: Pomodoro| p@,
        ).push(pom@));
    }

    pub fn len(&self) -> (n: usize)
        ensures
            n == self@.len(),
    {
        self.poms.len()
    }

    /// Whether two histories hold the same sessions in the same order.
    pub fn same_as(&self, other: &Pomodoros) -> (r: bool)
        ensures
            r == (self@ == other@),
    {
        if self.poms.len() != other.poms.len() {
            assert(self@.len() != other@.len());
            return false;
        }
        let mut i: usize = 0;
        while i < self.poms.len()
            invariant
                i <= self.poms@.len(),
                self.poms@.len() == other.poms@.len(),
                forall|j: int| 0 <= j < i ==> (#[trigger] self.poms@[j])@ == other.poms@[j]@,
            decreases self.poms@.len() - i,
        {
            if !self.poms[i].same_as(&other.poms[i]) {
                assert(self@[i as int] != other@[i as int]);
                return false;
            }
            i = i + 1;
        }
        assert(self@ =~= other@);
        true
    }

    /// The session at place `i`.
    pub fn get(&self, i: usize) -> (r: Option<&Pomodoro>)
        ensures
            r is Some <==> i < self@.len(),
            r matches Some(p) ==> p@ == self@[i as int] && p@.wf(),
    {
        if i < self.poms.len() {
            let p = &self.poms[i];
            proof {
                use_type_invariant(p);
            }
            Some(p)
        } else {
            None
        }
    }
}

} // verus!

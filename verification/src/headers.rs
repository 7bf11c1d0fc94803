//! Header lines as a table: one value per name, the last one given.

use vstd::prelude::*;

verus! {

/// A header line: its name and its value.
pub type Header = (String, String);

/// The table that a list of header lines stands for: every name with the
/// value of its last line.
pub open spec fn collected(lines: Seq<Header>) -> Map<Seq<char>, Seq<char>>
    decreases lines.len(),
{
    if lines.len() == 0 {
        Map::empty()
    } else {
        collected(lines.drop_last()).insert(lines.last().0@, lines.last().1@)
    }
}

/// Whether no two lines have the same name.
pub open spec fn distinct_names(lines: Seq<Header>) -> bool {
    forall|i: int, j: int| 0 <= i < j < lines.len() ==> lines[i].0@ != lines[j].0@
}

/// A table holds exactly the names of its lines.
pub proof fn lemma_collected_names(lines: Seq<Header>, name: Seq<char>)
    ensures
        collected(lines).contains_key(name) <==> exists|i: int|
            0 <= i < lines.len() && (#[trigger] lines[i]).0@ == name,
    decreases lines.len(),
{
    if lines.len() > 0 {
        let front = lines.drop_last();
        lemma_collected_names(front, name);
        if collected(lines).contains_key(name) {
            if lines.last().0@ == name {
                assert(lines[lines.len() - 1].0@ == name);
            } else {
                let i = choose|i: int| 0 <= i < front.len() && (#[trigger] front[i]).0@ == name;
                assert(lines[i].0@ == name);
            }
        }
        if exists|i: int| 0 <= i < lines.len() && (#[trigger] lines[i]).0@ == name {
            let i = choose|i: int| 0 <= i < lines.len() && (#[trigger] lines[i]).0@ == name;
            if i < front.len() {
                assert(front[i].0@ == name);
            }
        }
    }
}

/// Among lines with distinct names, each line's value is the one that the
/// table holds for its name.
pub proof fn lemma_collected_value(lines: Seq<Header>, at: int)
    requires
        distinct_names(lines),
        0 <= at < lines.len(),
    ensures
        collected(lines).contains_key(lines[at].0@),
        collected(lines)[lines[at].0@] == lines[at].1@,
    decreases lines.len(),
{
    let front = lines.drop_last();
    if at < lines.len() - 1 {
        assert(distinct_names(front)) by {
            assert forall|i: int, j: int| 0 <= i < j < front.len() implies front[i].0@
                != front[j].0@ by {
                assert(lines[i].0@ != lines[j].0@);
            }
        }
        lemma_collected_value(front, at);
        assert(front[at] == lines[at]);
        assert(lines[at].0@ != lines[lines.len() - 1].0@);
    }
}

/// Among lines with distinct names, a new value in one line is a new value
/// under that line's name in the table.
pub proof fn lemma_collected_update(lines: Seq<Header>, at: int, line: Header)
    requires
        distinct_names(lines),
        0 <= at < lines.len(),
        line.0@ == lines[at].0@,
    ensures
        distinct_names(lines.update(at, line)),
        collected(lines.update(at, line)) == collected(lines).insert(line.0@, line.1@),
    decreases lines.len(),
{
    let changed = lines.update(at, line);
    let front = lines.drop_last();
    assert(distinct_names(changed)) by {
        assert forall|i: int, j: int| 0 <= i < j < changed.len() implies changed[i].0@
            != changed[j].0@ by {
            assert(lines[i].0@ != lines[j].0@);
        }
    }
    if at == lines.len() - 1 {
        assert(changed.drop_last() =~= front);
        assert(collected(changed) =~= collected(lines).insert(line.0@, line.1@));
    } else {
        assert(distinct_names(front)) by {
            assert forall|i: int, j: int| 0 <= i < j < front.len() implies front[i].0@
                != front[j].0@ by {
                assert(lines[i].0@ != lines[j].0@);
            }
        }
        lemma_collected_update(front, at, line);
        assert(changed.drop_last() =~= front.update(at, line));
        assert(changed.last() == lines.last());
        assert(lines[at].0@ != lines[lines.len() - 1].0@);
        assert(collected(changed) =~= collected(lines).insert(line.0@, line.1@));
    }
}

/// A table of headers. It keeps one line per name, in the order in which
/// the names first came.
#[derive(Debug, PartialEq, Eq)]
pub struct Headers {
    lines: Vec<Header>,
}

impl View for Headers {
    type V = Map<Seq<char>, Seq<char>>;

    closed spec fn view(&self) -> Map<Seq<char>, Seq<char>> {
        collected(self.lines@)
    }
}

impl Clone for Headers {
    fn clone(&self) -> (copy: Self)
        ensures
            copy@ == self@,
    {
        proof {
            use_type_invariant(self);
        }
        let mut lines: Vec<Header> = Vec::new();
        let mut i: usize = 0;
        while i < self.lines.len()
            invariant
                i <= self.lines@.len(),
                lines@ == self.lines@.take(i as int),
            decreases self.lines@.len() - i,
        {
            lines.push((self.lines[i].0.clone(), self.lines[i].1.clone()));
            assert(self.lines@.take(i + 1) =~= self.lines@.take(i as int).push(self.lines@[i as int]));
            i += 1;
        }
        assert(self.lines@.take(self.lines@.len() as int) =~= self.lines@);
        Headers { lines }
    }
}

impl Headers {
    /// No name has two lines.
    #[verifier::type_invariant]
    closed spec fn one_line_per_name(&self) -> bool {
        distinct_names(self.lines@)
    }

    /// A table without lines.
    pub fn new() -> (headers: Self)
        ensures
            headers@ == Map::<Seq<char>, Seq<char>>::empty(),
    {
        Headers { lines: Vec::new() }
    }

    /// Where the line of `name` stands, if the table has one.
    fn position(&self, name: &String) -> (found: Option<usize>)
        ensures
            match found {
                Some(at) => at < self.lines@.len() && self.lines@[at as int].0@ == name@,
                None => forall|i: int| 0 <= i < self.lines@.len() ==> self.lines@[i].0@ != name@,
            },
    {
        let mut i: usize = 0;
        while i < self.lines.len()
            invariant
                i <= self.lines@.len(),
                forall|k: int| 0 <= k < i ==> self.lines@[k].0@ != name@,
            decreases self.lines@.len() - i,
        {
            if self.lines[i].0 == *name {
                return Some(i);
            }
            i += 1;
        }
        None
    }

    /// This table with `value` under `name`, in place of the value that the
    /// name had, if any.
    pub fn with_line(self, name: String, value: String) -> (headers: Self)
        ensures
            headers@ == self@.insert(name@, value@),
    {
        proof {
            use_type_invariant(&self);
        }
        let found = self.position(&name);
        let ghost before = self.lines@;
        let mut lines = self.lines;
        match found {
            Some(at) => {
                proof {
                    lemma_collected_update(before, at as int, (name, value));
                }
                lines.set(at, (name, value));
            },
            None => {
                lines.push((name, value));
                assert(lines@.drop_last() =~= before);
                assert forall|i: int, j: int| 0 <= i < j < lines@.len() implies lines@[i].0@
                    != lines@[j].0@ by {
                    if j < before.len() {
                        assert(before[i].0@ != before[j].0@);
                    } else {
                        assert(before[i].0@ != name@);
                    }
                }
            },
        }
        Headers { lines }
    }

    /// The table of a list of header lines; of two lines with one name the
    /// later one counts.
    pub fn from_lines(lines: Vec<Header>) -> (headers: Self)
        ensures
            headers@ == collected(lines@),
    {
        let mut headers = Headers::new();
        assert(lines@.take(0) =~= Seq::<Header>::empty());
        for line in it: lines
            invariant
                it.seq() == lines@,
                headers@ == collected(lines@.take(it.index() as int)),
        {
            let ghost longer = lines@.take(it.index() + 1);
            assert(longer.drop_last() =~= lines@.take(it.index() as int));
            assert(longer.last() == line);
            headers = headers.with_line(line.0, line.1);
        }
        assert(lines@.take(lines@.len() as int) =~= lines@);
        headers
    }

    /// The value of `name`, if the table has one.
    pub fn get(&self, name: &String) -> (value: Option<&String>)
        ensures
            match value {
                Some(text) => self@.contains_key(name@) && self@[name@] == text@,
                None => !self@.contains_key(name@),
            },
    {
        proof {
            use_type_invariant(self);
            lemma_collected_names(self.lines@, name@);
        }
        match self.position(name) {
            Some(at) => {
                proof {
                    lemma_collected_value(self.lines@, at as int);
                }
                Some(&self.lines[at].1)
            },
            None => None,
        }
    }

    /// The lines of the table: one per name, and together they stand for
    /// the table.
    pub fn lines(&self) -> (lines: &Vec<Header>)
        ensures
            distinct_names(lines@),
            collected(lines@) == self@,
    {
        proof {
            use_type_invariant(self);
        }
        &self.lines
    }
}

} // verus!

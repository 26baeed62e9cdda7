//! The decisions behind a prompt that files employees under departments:
//! what a typed line asks for, how an entered name is cleaned, and the
//! directory of departments with its listing.
use vstd::prelude::*;

verus! {

/// What a line typed at the prompt asks for.
#[derive(Clone, Copy, Debug, PartialEq, Eq, Structural)]
pub enum Action {
    /// `a`: file an employee under a department.
    Add,
    /// `l`: list every department with its employees.
    List,
    /// `q`: leave.
    Quit,
    /// `?`: show the commands.
    Help,
    /// Anything else, which is ignored.
    Ignore,
}

/// A character of Unicode's White_Space property, which is what
/// `char::is_whitespace` tests.
pub open spec fn white_space(c: char) -> bool {
    let u = c as u32;
    (0x9 <= u && u <= 0xd) || u == 0x20 || u == 0x85 || u == 0xa0 || u == 0x1680 || (0x2000 <= u
        && u <= 0x200a) || u == 0x2028 || u == 0x2029 || u == 0x202f || u == 0x205f || u == 0x3000
}

/// `t` without the white space it starts with.
pub open spec fn trim_start_of(t: Seq<char>) -> Seq<char>
    decreases t.len(),
{
    if t.len() > 0 && white_space(t[0]) {
        trim_start_of(t.drop_first())
    } else {
        t
    }
}

/// `t` without the white space it ends with.
pub open spec fn trim_end_of(t: Seq<char>) -> Seq<char>
    decreases t.len(),
{
    if t.len() > 0 && white_space(t.last()) {
        trim_end_of(t.drop_last())
    } else {
        t
    }
}

/// `t` with its leading and trailing white space removed: the part from its
/// first to its last character that is not white space.
pub open spec fn trimmed(t: Seq<char>) -> Seq<char> {
    trim_end_of(trim_start_of(t))
}

/// Relies on `str::trim`, which removes leading and trailing characters
/// that `char::is_whitespace` accepts.
#[verifier::external_body]
fn trim(t: &str) -> (r: &str)
    ensures
        r@ == trimmed(t@),
{
    t.trim()
}

/// The action that the already trimmed command `t` names.
pub open spec fn action_of(t: Seq<char>) -> Action {
    if t == seq!['a'] {
        Action::Add
    } else if t == seq!['l'] {
        Action::List
    } else if t == seq!['q'] {
        Action::Quit
    } else if t == seq!['?'] {
        Action::Help
    } else {
        Action::Ignore
    }
}

/// The action named by a command from which white space was already
/// removed.
pub fn action_for(t: &str) -> (r: Action)
    ensures
        r == action_of(t@),
{
    if t.unicode_len() != 1 {
        return Action::Ignore;
    }
    let c = t.get_char(0);
    proof {
        assert(t@ =~= seq![c]);
    }
    if c == 'a' {
        Action::Add
    } else if c == 'l' {
        Action::List
    } else if c == 'q' {
        Action::Quit
    } else if c == '?' {
        Action::Help
    } else {
        Action::Ignore
    }
}

/// The action that a line typed at the prompt asks for; white space around
/// the command does not count.
pub fn parse_action(line: &str) -> (r: Action)
    ensures
        r == action_of(trimmed(line@)),
{
    action_for(trim(line))
}

/// The lines of `s` written one after another: every line feed is dropped,
/// and so is a carriage return right before one.
pub open spec fn joined_lines(s: Seq<char>) -> Seq<char>
    decreases s.len(),
{
    if s.len() == 0 {
        s
    } else if s[0] == '\n' {
        joined_lines(s.drop_first())
    } else if s[0] == '\r' && s.len() > 1 && s[1] == '\n' {
        joined_lines(s.subrange(2, s.len() as int))
    } else {
        seq![s[0]] + joined_lines(s.drop_first())
    }
}

/// `s` without its line endings, as a name typed at the prompt is kept.
pub fn strip_line_endings(s: &str) -> (r: String)
    ensures
        r@ == joined_lines(s@),
{
    let n = s.unicode_len();
    let mut r = String::new();
    let mut i: usize = 0;
    assert(s@.subrange(0, n as int) =~= s@);
    assert(r@ + joined_lines(s@) =~= joined_lines(s@));
    while i < n
        invariant
            n == s@.len(),
            i <= n,
            r@ + joined_lines(s@.subrange(i as int, n as int)) == joined_lines(s@),
        decreases n - i,
    {
        let rest = Ghost(s@.subrange(i as int, n as int));
        let c = s.get_char(i);
        if c == '\n' {
            assert(rest@.drop_first() =~= s@.subrange(i + 1, n as int));
            i = i + 1;
        } else if c == '\r' && i + 1 < n && s.get_char(i + 1) == '\n' {
            assert(rest@.subrange(2, rest@.len() as int) =~= s@.subrange(i + 2, n as int));
            i = i + 2;
        } else {
            assert(rest@.drop_first() =~= s@.subrange(i + 1, n as int));
            let old_r = Ghost(r@);
            r.append(s.substring_char(i, i + 1));
            assert(r@ =~= old_r@ + seq![c]);
            assert(r@ + joined_lines(s@.subrange(i + 1, n as int)) =~= old_r@ + (seq![c]
                + joined_lines(rest@.drop_first())));
            i = i + 1;
        }
    }
    assert(s@.subrange(n as int, n as int) =~= Seq::<char>::empty());
    assert(r@ + Seq::<char>::empty() =~= r@);
    r
}

/// The texts of a list of strings.
pub open spec fn texts(v: Seq<String>) -> Seq<Seq<char>> {
    v.map_values(|x: String| x@)
}

/// No department is filed twice.
pub open spec fn distinct_departments(d: Seq<(Seq<char>, Seq<Seq<char>>)>) -> bool {
    forall|i: int, j: int| 0 <= i < j < d.len() ==> #[trigger] d[i].0 != #[trigger] d[j].0
}

/// Whether `dept` is filed in `d`.
pub open spec fn has_department(d: Seq<(Seq<char>, Seq<Seq<char>>)>, dept: Seq<char>) -> bool {
    exists|i: int| 0 <= i < d.len() && #[trigger] d[i].0 == dept
}

/// The directory `d` once `employee` is filed under `dept`: appended to the
/// department's employees where it exists, as a new last department of one
/// where it does not.
pub open spec fn filed(
    d: Seq<(Seq<char>, Seq<Seq<char>>)>,
    dept: Seq<char>,
    employee: Seq<char>,
) -> Seq<(Seq<char>, Seq<Seq<char>>)> {
    if has_department(d, dept) {
        let i = choose|i: int| 0 <= i < d.len() && #[trigger] d[i].0 == dept;
        d.update(i, (dept, d[i].1.push(employee)))
    } else {
        d.push((dept, seq![employee]))
    }
}

/// `a` comes no later than `b` in the order of strings: character by
/// character, by code point, a prefix first.
pub open spec fn text_le(a: Seq<char>, b: Seq<char>) -> bool
    decreases a.len(),
{
    if a.len() == 0 {
        true
    } else if b.len() == 0 {
        false
    } else if a[0] != b[0] {
        (a[0] as u32) < (b[0] as u32)
    } else {
        text_le(a.drop_first(), b.drop_first())
    }
}

/// `r` holds the names of `s`, each as often, in ascending order.
pub open spec fn sorted_arrangement(r: Seq<Seq<char>>, s: Seq<Seq<char>>) -> bool {
    &&& r.to_multiset() == s.to_multiset()
    &&& forall|i: int, j: int| 0 <= i < j < r.len() ==> text_le(#[trigger] r[i], #[trigger] r[j])
}

/// Relies on `slice::sort` on strings, which orders them by `Ord for str`:
/// bytewise, and so for UTF-8 by code point, a prefix first.
#[verifier::external_body]
fn sort_names(names: &mut Vec<String>)
    ensures
        sorted_arrangement(texts(final(names)@), texts(old(names)@)),
{
    names.sort();
}

/// The lines that list one department: its name, then each employee
/// indented by a tab.
pub open spec fn department_lines(entry: (Seq<char>, Seq<Seq<char>>)) -> Seq<Seq<char>> {
    seq![entry.0] + entry.1.map_values(|e: Seq<char>| "\t"@ + e)
}

/// The listing of the directory `d`: a heading, then each department in turn.
pub open spec fn listing_of(d: Seq<(Seq<char>, Seq<Seq<char>>)>) -> Seq<Seq<char>>
    decreases d.len(),
{
    if d.len() == 0 {
        seq!["Department Employee List"@]
    } else {
        listing_of(d.drop_last()) + department_lines(d.last())
    }
}

/// Departments, each with the employees filed under it, in the order the
/// departments were first named.
pub struct Directory {
    departments: Vec<String>,
    employees: Vec<Vec<String>>,
}

impl View for Directory {
    type V = Seq<(Seq<char>, Seq<Seq<char>>)>;

    closed spec fn view(&self) -> Seq<(Seq<char>, Seq<Seq<char>>)> {
        Seq::new(
            self.departments@.len(),
            |i: int| (self.departments@[i]@, texts(self.employees@[i]@)),
        )
    }
}

impl Directory {
    /// One list of employees for each department, and no department twice.
    pub closed spec fn wf(&self) -> bool {
        &&& self.departments@.len() == self.employees@.len()
        &&& distinct_departments(self@)
    }

    pub fn new() -> (d: Directory)
        ensures
            d.wf(),
            d@ == Seq::<(Seq<char>, Seq<Seq<char>>)>::empty(),
    {
        let d = Directory { departments: Vec::new(), employees: Vec::new() };
        assert(d@ =~= Seq::<(Seq<char>, Seq<Seq<char>>)>::empty());
        d
    }

    /// Files `employee` under `department`.
    pub fn register(&mut self, department: String, employee: String)
        requires
            old(self).wf(),
        ensures
            final(self).wf(),
            final(self)@ == filed(old(self)@, department@, employee@),
    {
        let ghost d0 = self@;
        let mut k: usize = 0;
        while k < self.departments.len()
            invariant
                self@ == d0,
                d0 == old(self)@,
                self.wf(),
                k <= self.departments@.len(),
                forall|j: int| 0 <= j < k ==> d0[j].0 != department@,
            decreases self.departments@.len() - k,
        {
            if self.departments[k] == department {
                proof {
                    assert(d0[k as int].0 == department@);
                    assert(has_department(d0, department@));
                    let i = choose|i: int| 0 <= i < d0.len() && #[trigger] d0[i].0 == department@;
                    assert(i == k);
                }
                let ghost before = self.employees@[k as int]@;
                self.employees[k].push(employee);
                proof {
                    assert(texts(self.employees@[k as int]@) =~= texts(before).push(employee@));
                    assert(self@ =~= filed(d0, department@, employee@));
                }
                return;
            }
            k = k + 1;
        }
        proof {
            assert(!has_department(d0, department@));
        }
        let ghost dept = department@;
        self.departments.push(department);
        self.employees.push(vec![employee]);
        proof {
            assert(texts(self.employees@[k as int]@) =~= seq![employee@]);
            assert(self@ =~= filed(d0, dept, employee@));
        }
    }

    /// The listing of the directory as it stands.
    pub fn listing(&self) -> (lines: Vec<String>)
        requires
            self.wf(),
        ensures
            texts(lines@) == listing_of(self@),
    {
        let mut lines: Vec<String> = Vec::new();
        lines.push(String::from_str("Department Employee List"));
        let mut k: usize = 0;
        assert(self@.subrange(0, 0) =~= Seq::<(Seq<char>, Seq<Seq<char>>)>::empty());
        assert(texts(lines@) =~= listing_of(self@.subrange(0, 0)));
        while k < self.departments.len()
            invariant
                self.wf(),
                k <= self.departments@.len(),
                texts(lines@) == listing_of(self@.subrange(0, k as int)),
            decreases self.departments@.len() - k,
        {
            let ghost start = texts(lines@);
            lines.push(self.departments[k].clone());
            let staff = &self.employees[k];
            let mut j: usize = 0;
            while j < staff.len()
                invariant
                    self.wf(),
                    k < self.departments@.len(),
                    staff == &self.employees@[k as int],
                    j <= staff@.len(),
                    texts(lines@) == start + department_lines(self@[k as int]).subrange(0, j + 1),
                decreases staff@.len() - j,
            {
                let mut line = String::from_str("\t");
                line.append(staff[j].as_str());
                let ghost before = lines@;
                lines.push(line);
                proof {
                    let e = self@[k as int];
                    assert(e.1 == texts(staff@));
                    assert(department_lines(e)[j + 1] == "\t"@ + staff@[j as int]@);
                    assert(texts(lines@) =~= texts(before).push(line@));
                }
                assert(texts(lines@) =~= start + department_lines(self@[k as int]).subrange(0, j + 2));
                j = j + 1;
            }
            proof {
                let e = self@[k as int];
                assert(department_lines(e).subrange(0, j + 1) =~= department_lines(e));
                assert(self@.subrange(0, k + 1).drop_last() =~= self@.subrange(0, k as int));
            }
            k = k + 1;
        }
        assert(self@.subrange(0, k as int) =~= self@);
        lines
    }

    /// Sorts the employees of every department, then lists the directory.
    pub fn list(&mut self) -> (lines: Vec<String>)
        requires
            old(self).wf(),
        ensures
            final(self).wf(),
            final(self)@.len() == old(self)@.len(),
            forall|i: int|
                0 <= i < old(self)@.len() ==> (#[trigger] final(self)@[i]).0 == old(self)@[i].0
                    && sorted_arrangement(final(self)@[i].1, old(self)@[i].1),
            texts(lines@) == listing_of(final(self)@),
    {
        let ghost d0 = self@;
        let mut k: usize = 0;
        while k < self.employees.len()
            invariant
                d0 == old(self)@,
                self.departments@ == old(self).departments@,
                self.employees@.len() == self.departments@.len(),
                k <= self.employees@.len(),
                forall|j: int|
                    0 <= j < k ==> sorted_arrangement(
                        #[trigger] texts(self.employees@[j]@),
                        texts(old(self).employees@[j]@),
                    ),
                forall|j: int|
                    k <= j < self.employees@.len() ==> #[trigger] self.employees@[j]
                        == old(self).employees@[j],
            decreases self.employees@.len() - k,
        {
            let ghost before = self.employees@;
            sort_names(&mut self.employees[k]);
            assert(forall|j: int| 0 <= j < before.len() && j != k ==> self.employees@[j] == before[j]);
            k = k + 1;
        }
        proof {
            assert forall|j: int| 0 <= j < self@.len() implies (#[trigger] self@[j]).0 == d0[j].0
                && sorted_arrangement(self@[j].1, d0[j].1) by {
                assert(sorted_arrangement(
                    texts(self.employees@[j]@),
                    texts(old(self).employees@[j]@),
                ));
            }
            assert(distinct_departments(self@)) by {
                assert forall|i: int, j: int| 0 <= i < j < self@.len() implies #[trigger] self@[i].0
                    != #[trigger] self@[j].0 by {
                    assert(d0[i].0 != d0[j].0);
                }
            }
        }
        self.listing()
    }
}

} // verus!

//! Projects and the names of their journal files.

use crate::text::{ascii_upper, to_ascii_upper, to_chars, to_text, trim, trim_bounds};
use vstd::prelude::*;

verus! {

/// Characters that no file name may hold: those that a file system reserves,
/// and the control characters.
pub open spec fn is_unsafe_in_file_name(c: char) -> bool {
    ||| c == '<'
    ||| c == '>'
    ||| c == ':'
    ||| c == '"'
    ||| c == '/'
    ||| c == '\\'
    ||| c == '|'
    ||| c == '?'
    ||| c == '*'
    ||| (c as u32) < 32
}

/// `s` without the spaces and dots at its end.
pub open spec fn strip_tail(s: Seq<char>) -> Seq<char>
    decreases s.len(),
{
    if s.len() > 0 && (s.last() == ' ' || s.last() == '.') {
        strip_tail(s.drop_last())
    } else {
        s
    }
}

/// Whether `s`, in upper case, is a device name that Windows reserves:
/// `CON`, `PRN`, `AUX`, `NUL`, and `COM` or `LPT` followed by a digit from 1 to 9.
pub open spec fn is_reserved_name(s: Seq<char>) -> bool {
    let u = s.map_values(|c: char| ascii_upper(c));
    ||| u == seq!['C', 'O', 'N']
    ||| u == seq!['P', 'R', 'N']
    ||| u == seq!['A', 'U', 'X']
    ||| u == seq!['N', 'U', 'L']
    ||| (u.len() == 4 && '1' <= u[3] <= '9' && (u.take(3) == seq!['C', 'O', 'M'] || u.take(3)
        == seq!['L', 'P', 'T']))
}

/// The file name made from a project's name: the name without surrounding
/// white space, without the characters that no file name may hold, and without
/// spaces and dots at its end; followed by `_` where that is a reserved device
/// name; and `_` alone where nothing is left.
pub open spec fn sanitize_spec(name: Seq<char>) -> Seq<char> {
    let kept = strip_tail(trim(name).filter(|c: char| !is_unsafe_in_file_name(c)));
    if kept.len() == 0 {
        seq!['_']
    } else if is_reserved_name(kept) {
        kept.push('_')
    } else {
        kept
    }
}

fn unsafe_in_file_name(c: char) -> (out: bool)
    ensures
        out == is_unsafe_in_file_name(c),
{
    c == '<' || c == '>' || c == ':' || c == '"' || c == '/' || c == '\\' || c == '|' || c == '?'
        || c == '*' || (c as u32) < 32
}

fn reserved_name(s: &Vec<char>, len: usize) -> (out: bool)
    requires
        len <= s.len(),
    ensures
        out == is_reserved_name(s@.take(len as int)),
{
    let ghost u = s@.take(len as int).map_values(|c: char| ascii_upper(c));
    if len == 3 {
        let a = to_ascii_upper(s[0]);
        let b = to_ascii_upper(s[1]);
        let c = to_ascii_upper(s[2]);
        assert(u =~= seq![a, b, c]);
        assert(seq![a, b, c][0] == a && seq![a, b, c][1] == b && seq![a, b, c][2] == c);
        (a == 'C' && b == 'O' && c == 'N') || (a == 'P' && b == 'R' && c == 'N') || (a == 'A' && b
            == 'U' && c == 'X') || (a == 'N' && b == 'U' && c == 'L')
    } else if len == 4 {
        let a = to_ascii_upper(s[0]);
        let b = to_ascii_upper(s[1]);
        let c = to_ascii_upper(s[2]);
        let d = to_ascii_upper(s[3]);
        assert(u.take(3) =~= seq![a, b, c]);
        assert(u[3] == d);
        assert(seq![a, b, c][0] == a && seq![a, b, c][1] == b && seq![a, b, c][2] == c);
        '1' <= d && d <= '9' && ((a == 'C' && b == 'O' && c == 'M') || (a == 'L' && b == 'P' && c
            == 'T'))
    } else {
        assert(u.len() == len);
        false
    }
}

/// Stripping the tail drops exactly the trailing run of spaces and dots.
proof fn lemma_strip_tail_at(s: Seq<char>, j: int)
    requires
        0 <= j <= s.len(),
        forall|k: int| j <= k < s.len() ==> (#[trigger] s[k] == ' ' || s[k] == '.'),
        j > 0 ==> !(s[j - 1] == ' ' || s[j - 1] == '.'),
    ensures
        strip_tail(s) == s.take(j),
    decreases s.len() - j,
{
    if j == s.len() {
        assert(s.take(j) == s);
    } else {
        let t = s.drop_last();
        lemma_strip_tail_at(t, j);
        assert(t.take(j) == s.take(j));
    }
}

/// The file name under which the journal of the project `name` is kept,
/// without its extension.
pub fn sanitize_filename(name: &str) -> (out: String)
    ensures
        out@ == sanitize_spec(name@),
{
    let chars = to_chars(name);
    let (from, to) = trim_bounds(&chars);
    let ghost allowed = |c: char| !is_unsafe_in_file_name(c);
    let mut kept: Vec<char> = Vec::new();
    let mut i: usize = from;
    proof {
        reveal(Seq::filter);
    }
    while i < to
        invariant
            from <= i <= to <= chars.len(),
            allowed == (|c: char| !is_unsafe_in_file_name(c)),
            kept@ == chars@.subrange(from as int, i as int).filter(allowed),
        decreases to - i,
    {
        let c = chars[i];
        proof {
            reveal(Seq::filter);
            let next = chars@.subrange(from as int, i + 1);
            assert(next.drop_last() == chars@.subrange(from as int, i as int));
            assert(next.last() == c);
        }
        if !unsafe_in_file_name(c) {
            kept.push(c);
        }
        i += 1;
    }
    let mut len: usize = kept.len();
    while len > 0 && (kept[len - 1] == ' ' || kept[len - 1] == '.')
        invariant
            len <= kept.len(),
            forall|k: int| len <= k < kept.len() ==> (#[trigger] kept@[k] == ' ' || kept@[k] == '.'),
        decreases len,
    {
        len -= 1;
    }
    proof {
        lemma_strip_tail_at(kept@, len as int);
    }
    if len == 0 {
        let mut out = String::new();
        out.push('_');
        return out;
    }
    let guard = reserved_name(&kept, len);
    let mut out = to_text(&kept, 0, len);
    assert(kept@.subrange(0, len as int) == kept@.take(len as int));
    if guard {
        out.push('_');
    }
    out
}

/// What is left after stripping the tail is a start of the text that does
/// not end in a space or a dot.
pub proof fn lemma_strip_tail_is_prefix(s: Seq<char>)
    ensures
        strip_tail(s).len() <= s.len(),
        strip_tail(s) == s.take(strip_tail(s).len() as int),
        strip_tail(s).len() > 0 ==> strip_tail(s).last() != ' ' && strip_tail(s).last() != '.',
    decreases s.len(),
{
    if s.len() > 0 && (s.last() == ' ' || s.last() == '.') {
        let t = s.drop_last();
        lemma_strip_tail_is_prefix(t);
        assert(t.take(strip_tail(t).len() as int) == s.take(strip_tail(t).len() as int));
    } else {
        assert(s.take(s.len() as int) == s);
    }
}

/// Every name becomes a usable file name: it is not empty, holds no
/// character that a file name may not hold, does not end in a space or a
/// dot, and is no reserved device name.
pub proof fn lemma_sanitized_is_usable(name: Seq<char>)
    ensures
        sanitize_spec(name).len() > 0,
        forall|i: int|
            0 <= i < sanitize_spec(name).len() ==> !is_unsafe_in_file_name(
                #[trigger] sanitize_spec(name)[i],
            ),
        sanitize_spec(name).last() != ' ',
        sanitize_spec(name).last() != '.',
        !is_reserved_name(sanitize_spec(name)),
{
    let allowed = |c: char| !is_unsafe_in_file_name(c);
    let filtered = trim(name).filter(allowed);
    let kept = strip_tail(filtered);
    let out = sanitize_spec(name);
    lemma_strip_tail_is_prefix(filtered);
    assert forall|i: int| 0 <= i < kept.len() implies !is_unsafe_in_file_name(
        #[trigger] kept[i],
    ) by {
        assert(kept[i] == filtered[i]);
        trim(name).lemma_filter_pred(allowed, i);
    }
    let upper = |c: char| ascii_upper(c);
    if kept.len() == 0 {
        assert(out == seq!['_']);
        assert(out.map_values(upper).len() == 1);
    } else if is_reserved_name(kept) {
        assert(out == kept.push('_'));
        assert(kept.map_values(upper).len() == kept.len());
        assert(out.map_values(upper).len() == kept.len() + 1);
        assert(kept.len() == 3 || kept.len() == 4);
        if kept.len() == 3 {
            assert(out.map_values(upper)[3] == ascii_upper('_'));
        }
        assert forall|i: int| 0 <= i < out.len() implies !is_unsafe_in_file_name(
            #[trigger] out[i],
        ) by {
            if i < kept.len() {
                assert(out[i] == kept[i]);
            }
        }
    }
}

/// Whether a change that the store made to `rows` rows found the project it
/// was meant for: it did where any row changed.
pub fn row_matched(rows: usize) -> (out: bool)
    ensures
        out == (rows > 0),
{
    rows > 0
}

/// The name of the file that holds the journal of the project `name`.
pub open spec fn journal_file_name_spec(name: Seq<char>) -> Seq<char> {
    sanitize_spec(name) + ".md"@
}

/// The name of the file that holds the journal of the project `name`.
pub fn journal_file_name(name: &str) -> (out: String)
    ensures
        out@ == journal_file_name_spec(name@),
{
    let mut out = sanitize_filename(name);
    out.append(".md");
    out
}

/// `a + b`, or the largest `u64` where the sum does not fit: what a count of
/// seconds becomes when more are added to it.
pub open spec fn capped_sum(a: nat, b: nat) -> nat {
    if a + b > u64::MAX {
        u64::MAX as nat
    } else {
        a + b
    }
}

/// What a project is, apart from how it is stored.
pub ghost struct ProjectView {
    pub name: Seq<char>,
    pub seconds: nat,
    pub journal_path: Seq<char>,
}

/// A project: its name, the focus time invested in it so far, in whole
/// seconds, and the place of its journal.
#[derive(Debug)]
pub struct ProjectTracker {
    project_name: String,
    time_invested: u64,
    journal_path: String,
}

impl View for ProjectTracker {
    type V = ProjectView;

    closed spec fn view(&self) -> ProjectView {
        ProjectView {
            name: self.project_name@,
            seconds: self.time_invested as nat,
            journal_path: self.journal_path@,
        }
    }
}

impl ProjectTracker {
    /// A project with the name, the seconds invested and the journal given.
    pub fn new(project_name: String, time_invested: u64, journal_path: String) -> (out:
        ProjectTracker)
        ensures
            out@ == (ProjectView {
                name: project_name@,
                seconds: time_invested as nat,
                journal_path: journal_path@,
            }),
    {
        ProjectTracker { project_name, time_invested, journal_path }
    }

    /// The focus time invested so far, in seconds.
    pub fn time_getter(&self) -> (out: u64)
        ensures
            out == self@.seconds,
    {
        self.time_invested
    }

    /// The project's name.
    pub fn name_getter(&self) -> (out: &str)
        ensures
            out@ == self@.name,
    {
        self.project_name.as_str()
    }

    /// The place of the project's journal.
    pub fn path_getter(&self) -> (out: &String)
        ensures
            out@ == self@.journal_path,
    {
        &self.journal_path
    }
}

} // verus!

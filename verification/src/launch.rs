//! What running an entry comes down to: a program and its arguments, for the
//! caller to start.

use vstd::prelude::*;

verus! {

/// A program to start with its arguments; nothing in this crate starts it.
pub struct Launch {
    pub program: String,
    pub args: Vec<String>,
}

/// A launch as plain values: the program and its arguments.
pub type LaunchModel = (Seq<char>, Seq<Seq<char>>);

impl View for Launch {
    type V = LaunchModel;

    open spec fn view(&self) -> LaunchModel {
        (self.program@, self.args@.map_values(|a: String| a@))
    }
}

/// What running a desktop entry's command starts: `/bin/sh -c` with the command
/// line, its field codes taken out.
pub open spec fn shell_launch_of(cmd: Seq<char>) -> LaunchModel {
    ("/bin/sh"@, seq!["-c"@, field_codes_stripped(cmd)])
}

/// What opening a file starts: `xdg-open` with the file's path.
pub open spec fn open_launch_of(file: Seq<char>) -> LaunchModel {
    ("xdg-open"@, seq![file])
}

/// A run's outcome as plain values.
pub open spec fn run_view(r: Result<Launch, RunError>) -> Result<LaunchModel, RunError> {
    match r {
        Ok(l) => Ok(l@),
        Err(e) => Err(e),
    }
}

/// Why an entry could not be run by the searcher or block it was handed to.
#[derive(Debug, PartialEq, Eq, Structural)]
pub enum RunError {
    /// A desktop-entry searcher or block was handed an entry of another kind.
    InvalidEntry,
    /// A file searcher was handed an entry of another kind.
    InvalidEntryData,
}

/// Appends one character to a string (`String::push`).
#[verifier::external_body]
pub(crate) fn push_char(s: &mut String, c: char)
    ensures
        final(s)@ == old(s)@.push(c),
{
    s.push(c);
}

/// The launch of a desktop entry's `Exec` command line.
pub fn shell_launch(cmd: &str) -> (r: Launch)
    ensures
        r@ == shell_launch_of(cmd@),
{
    let args = vec!["-c".to_owned(), strip_field_codes(cmd)];
    let r = Launch { program: "/bin/sh".to_owned(), args };
    assert(r@.1 =~= shell_launch_of(cmd@).1);
    r
}

/// The launch that opens a file with the desktop's default application.
pub fn open_launch(file: &str) -> (r: Launch)
    ensures
        r@ == open_launch_of(file@),
{
    let args = vec![file.to_owned()];
    let r = Launch { program: "xdg-open".to_owned(), args };
    assert(r@.1 =~= open_launch_of(file@).1);
    r
}

/// Whether the character at `i` is kept when field codes are stripped: it is not
/// a `%`, and it does not follow a `%`.
pub open spec fn kept_at(s: Seq<char>, i: int) -> bool {
    s[i] != '%' && (i == 0 || s[i - 1] != '%')
}

/// A command line with its field codes taken out: every `%` is dropped, and so
/// is every character that directly follows a `%`.
pub open spec fn field_codes_stripped(s: Seq<char>) -> Seq<char>
    decreases s.len(),
{
    if s.len() == 0 {
        Seq::empty()
    } else {
        let pre = field_codes_stripped(s.drop_last());
        if kept_at(s, s.len() - 1) {
            pre.push(s.last())
        } else {
            pre
        }
    }
}

/// Takes the field codes (`%f`, `%U`, ...) out of an `Exec` command line:
/// each `%` and the character after it are dropped.
pub fn strip_field_codes(cmd: &str) -> (r: String)
    ensures
        r@ == field_codes_stripped(cmd@),
{
    let mut out = String::new();
    let mut prev_is_percent = false;
    let ghost s = cmd@;
    for c in it: cmd.chars()
        invariant
            it.seq() == s,
            out@ == field_codes_stripped(s.take(it.index() as int)),
            prev_is_percent == (it.index() > 0 && s[it.index() - 1] == '%'),
    {
        let ghost k: int = it.index() as int;
        assert(s.take(k + 1).drop_last() == s.take(k));
        if c != '%' && !prev_is_percent {
            push_char(&mut out, c);
        }
        prev_is_percent = c == '%';
    }
    assert(s.take(s.len() as int) == s);
    out
}

/// Nothing that `strip_field_codes` returns holds a `%`.
pub proof fn lemma_stripped_has_no_percent(s: Seq<char>)
    ensures
        !field_codes_stripped(s).contains('%'),
    decreases s.len(),
{
    if s.len() > 0 {
        lemma_stripped_has_no_percent(s.drop_last());
    }
}

/// A command line without `%` is left as it is.
pub proof fn lemma_stripped_keeps_percent_free(s: Seq<char>)
    requires
        !s.contains('%'),
    ensures
        field_codes_stripped(s) == s,
    decreases s.len(),
{
    if s.len() > 0 {
        assert(!s.drop_last().contains('%')) by {
            if s.drop_last().contains('%') {
                let i: int = choose|i: int| 0 <= i < s.drop_last().len() && s.drop_last()[i] == '%';
                assert(s[i] == '%');
            }
        }
        lemma_stripped_keeps_percent_free(s.drop_last());
        let n: int = s.len() - 1;
        assert(s[n] != '%');
        if n > 0 {
            assert(s[n - 1] != '%');
        }
        assert(s.drop_last().push(s.last()) == s);
    }
}

/// Stripping field codes twice gives what stripping once gives.
pub proof fn law_strip_field_codes_idempotent(s: Seq<char>)
    ensures
        field_codes_stripped(field_codes_stripped(s)) == field_codes_stripped(s),
{
    lemma_stripped_has_no_percent(s);
    lemma_stripped_keeps_percent_free(field_codes_stripped(s));
}

/// `idx` picks the characters of `t` out of `s`, in order.
pub open spec fn picks(idx: Seq<int>, t: Seq<char>, s: Seq<char>) -> bool {
    &&& idx.len() == t.len()
    &&& forall|i: int, j: int| 0 <= i < j < idx.len() ==> idx[i] < idx[j]
    &&& forall|i: int| 0 <= i < idx.len() ==> 0 <= #[trigger] idx[i] < s.len() && t[i] == s[idx[i]]
}

/// `t` is `s` with some characters left out.
pub open spec fn is_subsequence(t: Seq<char>, s: Seq<char>) -> bool {
    exists|idx: Seq<int>| #[trigger] picks(idx, t, s)
}

/// The positions of the characters kept when field codes are stripped.
pub open spec fn kept_indices(s: Seq<char>) -> Seq<int>
    decreases s.len(),
{
    if s.len() == 0 {
        Seq::empty()
    } else {
        let pre = kept_indices(s.drop_last());
        if kept_at(s, s.len() - 1) {
            pre.push(s.len() - 1)
        } else {
            pre
        }
    }
}

proof fn lemma_kept_indices(s: Seq<char>)
    ensures
        picks(kept_indices(s), field_codes_stripped(s), s),
    decreases s.len(),
{
    if s.len() > 0 {
        let p = s.drop_last();
        lemma_kept_indices(p);
        let idx = kept_indices(s);
        let t = field_codes_stripped(s);
        let pi = kept_indices(p);
        let pt = field_codes_stripped(p);
        assert forall|i: int| 0 <= i < pi.len() implies 0 <= #[trigger] pi[i] < s.len() - 1 && pt[i]
            == s[pi[i]] by {
            assert(p[pi[i]] == s[pi[i]]);
        }
        if kept_at(s, s.len() - 1) {
            assert forall|i: int| 0 <= i < idx.len() implies 0 <= #[trigger] idx[i] < s.len() && t[i]
                == s[idx[i]] by {
                if i < pi.len() {
                    assert(idx[i] == pi[i]);
                    assert(t[i] == pt[i]);
                }
            }
            assert forall|i: int, j: int| 0 <= i < j < idx.len() implies idx[i] < idx[j] by {
                if j < pi.len() {
                    assert(idx[i] == pi[i] && idx[j] == pi[j]);
                } else {
                    assert(idx[i] == pi[i]);
                }
            }
        }
    }
}

/// What stripping field codes leaves is the command with characters left out.
pub proof fn law_stripped_is_subsequence(s: Seq<char>)
    ensures
        is_subsequence(field_codes_stripped(s), s),
{
    lemma_kept_indices(s);
    assert(picks(kept_indices(s), field_codes_stripped(s), s));
}


/// Running a desktop entry starts `/bin/sh` with exactly two arguments: `-c`,
/// then the command line with its field codes taken out.
pub proof fn law_shell_launch_shape(cmd: Seq<char>)
    ensures
        shell_launch_of(cmd).0 == "/bin/sh"@,
        shell_launch_of(cmd).1.len() == 2,
        shell_launch_of(cmd).1[0] == "-c"@,
        shell_launch_of(cmd).1[1] == field_codes_stripped(cmd),
{
}

/// Stripping works piece by piece: a command cut anywhere but right after a `%`
/// strips to the two parts stripped and joined.
pub proof fn law_strip_concat(x: Seq<char>, y: Seq<char>)
    requires
        !(x.len() > 0 && x.last() == '%'),
    ensures
        field_codes_stripped(x + y) == field_codes_stripped(x) + field_codes_stripped(y),
    decreases y.len(),
{
    if y.len() == 0 {
        assert(x + y =~= x);
        assert(field_codes_stripped(x) + Seq::<char>::empty() =~= field_codes_stripped(x));
    } else {
        let xy = x + y;
        assert(xy.drop_last() =~= x + y.drop_last());
        law_strip_concat(x, y.drop_last());
        let n = xy.len() - 1;
        let m = y.len() - 1;
        assert(xy[n] == y[m]);
        if m > 0 {
            assert(xy[n - 1] == y[m - 1]);
        } else if x.len() > 0 {
            assert(xy[n - 1] == x.last());
        }
        assert(kept_at(xy, n) == kept_at(y, m));
        let sx = field_codes_stripped(x);
        let sy0 = field_codes_stripped(y.drop_last());
        if kept_at(y, m) {
            assert(sx + sy0.push(y.last()) =~= (sx + sy0).push(y.last()));
        }
    }
}

/// The pieces stripping is made of: a character other than `%` stays, a `%`
/// goes, and so does the character right after it.
pub proof fn law_strip_pieces(c: char)
    ensures
        c != '%' ==> field_codes_stripped(seq![c]) == seq![c],
        field_codes_stripped(seq!['%']) == Seq::<char>::empty(),
        field_codes_stripped(seq!['%', c]) == Seq::<char>::empty(),
{
    reveal_with_fuel(field_codes_stripped, 3);
    assert(seq![c].drop_last() =~= Seq::<char>::empty());
    assert(seq!['%'].drop_last() =~= Seq::<char>::empty());
    assert(seq!['%', c].drop_last() =~= seq!['%']);
    assert(Seq::<char>::empty().push(c) =~= seq![c]);
}

} // verus!

//! Which desktop entries become launcher lines: shown applications with a name
//! and a command, each application id once.

use vstd::prelude::*;
use crate::desktop_file::{
    desktop_entry_decoded, has_nameless_key, names_can_be_translated, nameless_key_in, names_translatable, opt_view, read_desktop_entry, read_matches, DesktopEntryInfo,
};

verus! {

/// A `.desktop` file as found on disk: its path and its text.
pub struct DesktopFile {
    pub path: String,
    pub text: String,
}

/// A line for the launcher made from a desktop entry: the text shown, the icon
/// and the `Exec` command line.
pub struct DesktopLine {
    pub text: String,
    pub icon: Option<String>,
    pub cmd: String,
}

/// A line as plain values: text, icon, command.
pub type LineModel = (Seq<char>, Option<Seq<char>>, Seq<char>);

pub open spec fn line_view(l: DesktopLine) -> LineModel {
    (l.text@, opt_view(l.icon), l.cmd@)
}

pub open spec fn lines_view(ls: Seq<DesktopLine>) -> Seq<LineModel> {
    ls.map_values(|l: DesktopLine| line_view(l))
}

/// The text of a line: the name, followed by the generic name in small light
/// italics where there is one.
pub open spec fn line_text(name: Seq<char>, generic: Option<Seq<char>>) -> Seq<char> {
    match generic {
        Some(g) => name + " <span weight='light' size='small'><i>("@ + g + ")</i></span>"@,
        None => name,
    }
}

/// The line an entry gives: none where it is hidden (`NoDisplay`), is not of type
/// `Application`, or lacks a name or a command.
pub open spec fn desktop_line_of(info: DesktopEntryInfo) -> Option<LineModel> {
    if info.no_display {
        None
    } else if opt_view(info.entry_type) != Some("Application"@) {
        None
    } else {
        match (info.name, info.command) {
            (Some(n), Some(c)) => Some(
                (line_text(n@, opt_view(info.generic_name)), opt_view(info.icon), c@),
            ),
            _ => None,
        }
    }
}

/// The launcher line for a desktop entry, if it gets one.
pub fn desktop_line(info: &DesktopEntryInfo) -> (r: Option<DesktopLine>)
    ensures
        match r {
            Some(l) => desktop_line_of(*info) == Some(line_view(l)),
            None => desktop_line_of(*info) is None,
        },
{
    if info.no_display {
        return None;
    }
    let application = "Application".to_owned();
    match &info.entry_type {
        Some(t) => {
            if !(*t == application) {
                return None;
            }
        },
        None => {
            return None;
        },
    }
    let name = match &info.name {
        Some(n) => n,
        None => {
            return None;
        },
    };
    let cmd = match &info.command {
        Some(c) => c.clone(),
        None => {
            return None;
        },
    };
    let mut text = name.clone();
    match &info.generic_name {
        Some(g) => {
            text.append(" <span weight='light' size='small'><i>(");
            text.append(g.as_str());
            text.append(")</i></span>");
        },
        None => {},
    }
    let icon = match &info.icon {
        Some(i) => Some(i.clone()),
        None => None,
    };
    Some(DesktopLine { text, icon, cmd })
}

/// The application ids seen so far, each with the path it was first read from.
/// (vstd specifies `HashMap` only for keys with a key model, which `String`
/// lacks, so the ids are kept in a `Vec` with no id twice.)
pub struct SeenEntries {
    entries: Vec<(String, String)>,
}

impl View for SeenEntries {
    type V = Seq<(Seq<char>, Seq<char>)>;

    closed spec fn view(&self) -> Seq<(Seq<char>, Seq<char>)> {
        self.entries@.map_values(|e: (String, String)| (e.0@, e.1@))
    }
}

/// Whether `id` is among the seen ids.
pub open spec fn has_id(seen: Seq<(Seq<char>, Seq<char>)>, id: Seq<char>) -> bool {
    exists|i: int| 0 <= i < seen.len() && (#[trigger] seen[i]).0 == id
}

impl SeenEntries {
    /// No application id is recorded twice.
    #[verifier::type_invariant]
    closed spec fn ids_distinct(self) -> bool {
        distinct_ids(self@)
    }

    pub fn new() -> (r: Self)
        ensures
            r@ == Seq::<(Seq<char>, Seq<char>)>::empty(),
    {
        let r = SeenEntries { entries: Vec::new() };
        assert(r@ =~= Seq::<(Seq<char>, Seq<char>)>::empty());
        r
    }

    pub fn contains(&self, id: &String) -> (r: bool)
        ensures
            r == has_id(self@, id@),
    {
        let n: usize = self.entries.len();
        for i in 0..n
            invariant
                n == self.entries@.len(),
                forall|j: int| 0 <= j < i ==> (#[trigger] self@[j]).0 != id@,
        {
            assert(self@[i as int] == (self.entries@[i as int].0@, self.entries@[i as int].1@));
            if self.entries[i].0 == *id {
                assert(self@[i as int].0 == id@);
                return true;
            }
        }
        false
    }

    /// Records an id not seen before, with its path.
    pub fn insert(&mut self, id: String, path: String)
        requires
            !has_id(old(self)@, id@),
        ensures
            final(self)@ == old(self)@.push((id@, path@)),
    {
        proof {
            use_type_invariant(&*self);
        }
        let ghost before = self@;
        assert forall|i: int, j: int| 0 <= i < j < before.len() + 1 implies (#[trigger] before.push(
            (id@, path@),
        )[i]).0 != (#[trigger] before.push((id@, path@))[j]).0 by {
            if j == before.len() {
                assert(before.push((id@, path@))[i] == before[i]);
            } else {
                assert(before.push((id@, path@))[i] == before[i]);
                assert(before.push((id@, path@))[j] == before[j]);
            }
        }
        let mut entries: Vec<(String, String)> = Vec::new();
        std::mem::swap(&mut entries, &mut self.entries);
        assert(entries@.map_values(|e: (String, String)| (e.0@, e.1@)) == before);
        entries.push((id, path));
        assert(entries@.map_values(|e: (String, String)| (e.0@, e.1@)) =~= before.push((id@, path@)));
        self.entries = entries;
        assert(final(self)@ =~= old(self)@.push((id@, path@)));
    }
}

/// One file's effect: the seen ids after it and the line it gives, if any. A line
/// is given only for an id not seen before, which is then seen with this path.
pub open spec fn seen_step(
    seen: Seq<(Seq<char>, Seq<char>)>,
    path: Seq<char>,
    read: Option<DesktopEntryInfo>,
) -> (Seq<(Seq<char>, Seq<char>)>, Option<LineModel>) {
    match read {
        None => (seen, None),
        Some(info) => match desktop_line_of(info) {
            None => (seen, None),
            Some(line) => if has_id(seen, info.id@) {
                (seen, None)
            } else {
                (seen.push((info.id@, path)), Some(line))
            },
        },
    }
}

/// The files taken in order, each read as `reads` says: the seen ids after them
/// and the lines they give.
pub open spec fn desktop_fold(
    seen: Seq<(Seq<char>, Seq<char>)>,
    files: Seq<DesktopFile>,
    reads: Seq<Option<DesktopEntryInfo>>,
) -> (Seq<(Seq<char>, Seq<char>)>, Seq<LineModel>)
    decreases files.len(),
{
    if files.len() == 0 {
        (seen, Seq::empty())
    } else {
        let prev = desktop_fold(seen, files.drop_last(), reads.drop_last());
        let step = seen_step(prev.0, files.last().path@, reads.last());
        (
            step.0,
            match step.1 {
                Some(l) => prev.1.push(l),
                None => prev.1,
            },
        )
    }
}

/// `reads` is what reading each of `files` gives.
pub open spec fn reads_match(files: Seq<DesktopFile>, reads: Seq<Option<DesktopEntryInfo>>) -> bool {
    &&& reads.len() == files.len()
    &&& forall|k: int|
        0 <= k < files.len() ==> read_matches(files[k].path@, files[k].text@, #[trigger] reads[k])
}

/// No file holds a line on which decoding panics, nor names that gettext cannot
/// be asked to translate.
pub open spec fn all_decodable(files: Seq<DesktopFile>) -> bool {
    forall|k: int|
        0 <= k < files.len() ==> !has_nameless_key(#[trigger] files[k].text@) && names_translatable(
            files[k].path@,
            files[k].text@,
        )
}

/// The first file that cannot be read without a panic: one with a line that,
/// trimmed, starts with `=`, or with a name that gettext cannot be asked to
/// translate. `None` where every file can be read.
pub fn first_undecodable(files: &Vec<DesktopFile>) -> (r: Option<usize>)
    ensures
        r is None <==> all_decodable(files@),
        r matches Some(k) ==> k < files@.len() && all_decodable(files@.take(k as int)) && !(
        !has_nameless_key(files@[k as int].text@) && names_translatable(
            files@[k as int].path@,
            files@[k as int].text@,
        )),
{
    let n: usize = files.len();
    for k in 0..n
        invariant
            n == files@.len(),
            all_decodable(files@.take(k as int)),
    {
        let f = &files[k];
        if nameless_key_in(f.text.as_str()) {
            return Some(k);
        }
        if !names_can_be_translated(f.path.as_str(), f.text.as_str()) {
            return Some(k);
        }
        assert(all_decodable(files@.take(k + 1))) by {
            assert forall|j: int| 0 <= j < k + 1 implies !has_nameless_key(
                #[trigger] files@.take(k + 1)[j].text@,
            ) && names_translatable(files@.take(k + 1)[j].path@, files@.take(k + 1)[j].text@) by {
                if j < k {
                    assert(files@.take(k + 1)[j] == files@.take(k as int)[j]);
                }
            }
        }
    }
    assert(files@.take(n as int) =~= files@);
    None
}

/// `desktop_lines` where every file can be read without a panic; otherwise the
/// first file that cannot, with nothing read and nothing seen.
pub fn desktop_lines_checked(seen: &mut SeenEntries, files: &Vec<DesktopFile>) -> (r: Result<
    Vec<DesktopLine>,
    usize,
>)
    ensures
        match r {
            Ok(lines) => all_decodable(files@) && exists|reads: Seq<Option<DesktopEntryInfo>>|
                #[trigger] reads_match(files@, reads) && desktop_fold(old(seen)@, files@, reads) == (
                    final(seen)@,
                    lines_view(lines@),
                ),
            Err(k) => !all_decodable(files@) && k < files@.len() && !(!has_nameless_key(
                files@[k as int].text@,
            ) && names_translatable(files@[k as int].path@, files@[k as int].text@))
                && final(seen)@ == old(seen)@,
        },
{
    match first_undecodable(files) {
        Some(k) => Err(k),
        None => Ok(desktop_lines(seen, files)),
    }
}

/// Reads the files in order and gives the lines of the entries that are shown
/// and whose ids were not seen before; their ids are then seen.
pub fn desktop_lines(seen: &mut SeenEntries, files: &Vec<DesktopFile>) -> (r: Vec<DesktopLine>)
    requires
        all_decodable(files@),
    ensures
        exists|reads: Seq<Option<DesktopEntryInfo>>|
            #[trigger] reads_match(files@, reads) && desktop_fold(old(seen)@, files@, reads) == (
                final(seen)@,
                lines_view(r@),
            ),
        distinct_ids(final(seen)@),
        final(seen)@.len() == old(seen)@.len() + r@.len(),
        final(seen)@.subrange(0, old(seen)@.len() as int) == old(seen)@,
        forall|k: int|
            old(seen)@.len() <= k < final(seen)@.len() ==> !has_id(
                old(seen)@,
                (#[trigger] final(seen)@[k]).0,
            ),
{
    let ghost seen0 = seen@;
    let ghost mut reads: Seq<Option<DesktopEntryInfo>> = Seq::empty();
    let mut lines: Vec<DesktopLine> = Vec::new();
    let n: usize = files.len();
    assert(lines_view(lines@) =~= Seq::<LineModel>::empty());
    for k in 0..n
        invariant
            n == files@.len(),
            all_decodable(files@),
            reads_match(files@.take(k as int), reads),
            desktop_fold(seen0, files@.take(k as int), reads) == (seen@, lines_view(lines@)),
    {
        let f = &files[k];
        assert(!has_nameless_key(files@[k as int].text@));
        let r = read_desktop_entry(f.path.as_str(), f.text.as_str());
        let ghost prev_lines = lines_view(lines@);
        let ghost prev_seen = seen@;
        let ghost prev_reads = reads;
        proof {
            reads = reads.push(r);
        }
        let ghost step = seen_step(prev_seen, f.path@, r);
        match r {
            None => {},
            Some(info) => match desktop_line(&info) {
                None => {},
                Some(line) => {
                    if !seen.contains(&info.id) {
                        seen.insert(info.id, f.path.clone());
                        lines.push(line);
                    }
                },
            },
        }
        proof {
            let fk = files@.take(k + 1);
            assert(fk.drop_last() =~= files@.take(k as int));
            assert(reads.drop_last() =~= prev_reads);
            assert(reads.last() == r);
            assert(fk.last() == files@[k as int]);
            assert(reads_match(fk, reads)) by {
                assert forall|j: int| 0 <= j < fk.len() implies read_matches(
                    fk[j].path@,
                    fk[j].text@,
                    #[trigger] reads[j],
                ) by {
                    if j < k {
                        assert(fk[j] == files@.take(k as int)[j]);
                    }
                }
            }
            assert(step.0 == seen@);
            match step.1 {
                Some(l) => {
                    assert(lines_view(lines@) =~= prev_lines.push(l));
                },
                None => {
                    assert(lines_view(lines@) =~= prev_lines);
                },
            }
        }
    }
    assert(files@.take(n as int) =~= files@);
    proof {
        use_type_invariant(&*seen);
        law_seen_grows_by_new_ids(seen0, files@, reads);
        assert(lines_view(lines@).len() == lines@.len());
    }
    lines
}

/// No application id occurs twice.
pub open spec fn distinct_ids(seen: Seq<(Seq<char>, Seq<char>)>) -> bool {
    forall|i: int, j: int| 0 <= i < j < seen.len() ==> (#[trigger] seen[i]).0 != (#[trigger] seen[j]).0
}

/// Reading files only adds to what was seen: one new id for each line given, each
/// not seen before, so ids that were distinct stay distinct.
pub proof fn law_seen_grows_by_new_ids(
    seen: Seq<(Seq<char>, Seq<char>)>,
    files: Seq<DesktopFile>,
    reads: Seq<Option<DesktopEntryInfo>>,
)
    ensures
        desktop_fold(seen, files, reads).0.len() == seen.len() + desktop_fold(seen, files, reads).1.len(),
        desktop_fold(seen, files, reads).0.subrange(0, seen.len() as int) == seen,
        forall|k: int|
            seen.len() <= k < desktop_fold(seen, files, reads).0.len() ==> !has_id(
                seen,
                (#[trigger] desktop_fold(seen, files, reads).0[k]).0,
            ),
        distinct_ids(seen) ==> distinct_ids(desktop_fold(seen, files, reads).0),
    decreases files.len(),
{
    if files.len() > 0 {
        let prev = desktop_fold(seen, files.drop_last(), reads.drop_last());
        law_seen_grows_by_new_ids(seen, files.drop_last(), reads.drop_last());
        let step = seen_step(prev.0, files.last().path@, reads.last());
        let out = desktop_fold(seen, files, reads);
        assert(out.0 == step.0);
        if step.0 != prev.0 {
            let info = reads.last()->0;
            assert(step.0 == prev.0.push((info.id@, files.last().path@)));
            assert(!has_id(prev.0, info.id@));
            assert(out.0.subrange(0, seen.len() as int) =~= prev.0.subrange(0, seen.len() as int));
            assert forall|k: int| seen.len() <= k < out.0.len() implies !has_id(
                seen,
                (#[trigger] out.0[k]).0,
            ) by {
                if k < prev.0.len() {
                    assert(out.0[k] == prev.0[k]);
                } else {
                    if has_id(seen, info.id@) {
                        let i: int = choose|i: int| 0 <= i < seen.len() && (#[trigger] seen[i]).0 == info.id@;
                        assert(prev.0[i] == seen[i]);
                    }
                }
            }
            if distinct_ids(seen) {
                assert forall|i: int, j: int| 0 <= i < j < out.0.len() implies (
                #[trigger] out.0[i]).0 != (#[trigger] out.0[j]).0 by {
                    if j == out.0.len() - 1 {
                        assert(out.0[i] == prev.0[i]);
                    } else {
                        assert(out.0[i] == prev.0[i]);
                        assert(out.0[j] == prev.0[j]);
                    }
                }
            }
        }
    }
}

/// After the files are read, the id of every file that gives a line is seen.
proof fn lemma_shown_ids_seen(
    seen: Seq<(Seq<char>, Seq<char>)>,
    files: Seq<DesktopFile>,
    reads: Seq<Option<DesktopEntryInfo>>,
    k: int,
)
    requires
        reads.len() == files.len(),
        0 <= k < files.len(),
        reads[k] is Some,
        desktop_line_of(reads[k]->0) is Some,
    ensures
        has_id(desktop_fold(seen, files, reads).0, reads[k]->0.id@),
    decreases files.len(),
{
    let prev = desktop_fold(seen, files.drop_last(), reads.drop_last());
    let step = seen_step(prev.0, files.last().path@, reads.last());
    let id = reads[k]->0.id@;
    if k < files.len() - 1 {
        assert(reads.drop_last()[k] == reads[k]);
        lemma_shown_ids_seen(seen, files.drop_last(), reads.drop_last(), k);
        let i: int = choose|i: int| 0 <= i < prev.0.len() && (#[trigger] prev.0[i]).0 == id;
        if step.0 != prev.0 {
            assert(step.0[i] == prev.0[i]);
        }
    } else {
        if !has_id(prev.0, id) {
            assert(step.0 == prev.0.push((id, files.last().path@)));
            assert(step.0[prev.0.len() as int].0 == id);
        }
    }
}

/// Two reads of one file agree on whether it decodes, on its id and on whether
/// it gives a line; only gettext translations of names may differ.
proof fn lemma_reads_agree(
    path: Seq<char>,
    text: Seq<char>,
    r1: Option<DesktopEntryInfo>,
    r2: Option<DesktopEntryInfo>,
)
    requires
        read_matches(path, text, r1),
        read_matches(path, text, r2),
    ensures
        r1 is Some <==> r2 is Some,
        r1 is Some ==> r1->0.id@ == r2->0.id@ && (desktop_line_of(r1->0) is Some
            <==> desktop_line_of(r2->0) is Some),
{
}

/// Files all of whose lines have seen ids give nothing and see nothing new.
proof fn lemma_all_seen_gives_nothing(
    seen: Seq<(Seq<char>, Seq<char>)>,
    files: Seq<DesktopFile>,
    reads: Seq<Option<DesktopEntryInfo>>,
)
    requires
        reads.len() == files.len(),
        forall|k: int|
            0 <= k < files.len() && (#[trigger] reads[k]) is Some && desktop_line_of(reads[k]->0) is Some
                ==> has_id(seen, reads[k]->0.id@),
    ensures
        desktop_fold(seen, files, reads) == (seen, Seq::<LineModel>::empty()),
    decreases files.len(),
{
    if files.len() > 0 {
        assert forall|k: int|
            0 <= k < files.drop_last().len() && (#[trigger] reads.drop_last()[k]) is Some
                && desktop_line_of(reads.drop_last()[k]->0) is Some implies has_id(
            seen,
            reads.drop_last()[k]->0.id@,
        ) by {
            assert(reads.drop_last()[k] == reads[k]);
        }
        lemma_all_seen_gives_nothing(seen, files.drop_last(), reads.drop_last());
        let k = files.len() - 1;
        assert(reads.last() == reads[k]);
    }
}

/// Reading the same files a second time gives no line: each application id is
/// given once.
pub proof fn law_second_read_gives_nothing(
    seen: Seq<(Seq<char>, Seq<char>)>,
    files: Seq<DesktopFile>,
    first: Seq<Option<DesktopEntryInfo>>,
    second: Seq<Option<DesktopEntryInfo>>,
)
    requires
        reads_match(files, first),
        reads_match(files, second),
    ensures
        desktop_fold(desktop_fold(seen, files, first).0, files, second) == (
            desktop_fold(seen, files, first).0,
            Seq::<LineModel>::empty(),
        ),
{
    let after = desktop_fold(seen, files, first).0;
    assert forall|k: int|
        0 <= k < files.len() && (#[trigger] second[k]) is Some && desktop_line_of(second[k]->0) is Some
            implies has_id(after, second[k]->0.id@) by {
        lemma_reads_agree(files[k].path@, files[k].text@, first[k], second[k]);
        lemma_shown_ids_seen(seen, files, first, k);
    }
    lemma_all_seen_gives_nothing(after, files, second);
}

/// No file names a translation domain, so no name goes through gettext.
pub open spec fn untranslated(files: Seq<DesktopFile>) -> bool {
    forall|k: int|
        0 <= k < files.len() ==> match #[trigger] desktop_entry_decoded(files[k].path@, files[k].text@) {
            Some(d) => d.2 is None,
            None => true,
        }
}

/// Two lines that agree on all but the text (a gettext translation).
pub open spec fn same_but_text(l1: LineModel, l2: LineModel) -> bool {
    l1.1 == l2.1 && l1.2 == l2.2
}

/// Two reads of one file have the same effect on the seen ids, and give a line
/// alike; the lines differ at most in their text, and only where the file
/// names a translation domain.
proof fn lemma_step_determined(
    seen: Seq<(Seq<char>, Seq<char>)>,
    path: Seq<char>,
    text: Seq<char>,
    x1: Option<DesktopEntryInfo>,
    x2: Option<DesktopEntryInfo>,
)
    requires
        read_matches(path, text, x1),
        read_matches(path, text, x2),
    ensures
        seen_step(seen, path, x1).0 == seen_step(seen, path, x2).0,
        seen_step(seen, path, x1).1 is Some <==> seen_step(seen, path, x2).1 is Some,
        seen_step(seen, path, x1).1 is Some ==> same_but_text(
            seen_step(seen, path, x1).1->0,
            seen_step(seen, path, x2).1->0,
        ),
        (match desktop_entry_decoded(path, text) {
            Some(d) => d.2 is None,
            None => true,
        }) ==> seen_step(seen, path, x1) == seen_step(seen, path, x2),
{
}

/// Reading the same files twice from the same seen ids gives the same seen ids
/// and lines that differ at most in their gettext-translated texts; where no
/// file names a translation domain, the very same lines. Nothing else, such as
/// the typed input, enters.
pub proof fn law_same_files_same_lines(
    seen: Seq<(Seq<char>, Seq<char>)>,
    files: Seq<DesktopFile>,
    first: Seq<Option<DesktopEntryInfo>>,
    second: Seq<Option<DesktopEntryInfo>>,
)
    requires
        reads_match(files, first),
        reads_match(files, second),
    ensures
        desktop_fold(seen, files, first).0 == desktop_fold(seen, files, second).0,
        desktop_fold(seen, files, first).1.len() == desktop_fold(seen, files, second).1.len(),
        forall|i: int|
            0 <= i < desktop_fold(seen, files, first).1.len() ==> same_but_text(
                #[trigger] desktop_fold(seen, files, first).1[i],
                desktop_fold(seen, files, second).1[i],
            ),
        untranslated(files) ==> desktop_fold(seen, files, first) == desktop_fold(
            seen,
            files,
            second,
        ),
    decreases files.len(),
{
    if files.len() > 0 {
        let n: int = files.len() - 1;
        let f0 = files.drop_last();
        assert(reads_match(f0, first.drop_last())) by {
            assert forall|k: int| 0 <= k < f0.len() implies read_matches(
                f0[k].path@,
                f0[k].text@,
                #[trigger] first.drop_last()[k],
            ) by {
                assert(first.drop_last()[k] == first[k]);
            }
        }
        assert(reads_match(f0, second.drop_last())) by {
            assert forall|k: int| 0 <= k < f0.len() implies read_matches(
                f0[k].path@,
                f0[k].text@,
                #[trigger] second.drop_last()[k],
            ) by {
                assert(second.drop_last()[k] == second[k]);
            }
        }
        law_same_files_same_lines(seen, f0, first.drop_last(), second.drop_last());
        let p1 = desktop_fold(seen, f0, first.drop_last());
        let p2 = desktop_fold(seen, f0, second.drop_last());
        assert(read_matches(files[n].path@, files[n].text@, first[n]));
        assert(read_matches(files[n].path@, files[n].text@, second[n]));
        lemma_step_determined(p1.0, files[n].path@, files[n].text@, first[n], second[n]);
        let o1 = desktop_fold(seen, files, first);
        let o2 = desktop_fold(seen, files, second);
        assert forall|i: int| 0 <= i < o1.1.len() implies same_but_text(
            #[trigger] o1.1[i],
            o2.1[i],
        ) by {
            if i < p1.1.len() {
                assert(o1.1[i] == p1.1[i]);
                assert(o2.1[i] == p2.1[i]);
            }
        }
        if untranslated(files) {
            assert(untranslated(f0)) by {
                assert forall|k: int| 0 <= k < f0.len() implies match #[trigger] desktop_entry_decoded(
                    f0[k].path@,
                    f0[k].text@,
                ) {
                    Some(d) => d.2 is None,
                    None => true,
                } by {
                    assert(f0[k] == files[k]);
                }
            }
            assert(match desktop_entry_decoded(files[n].path@, files[n].text@) {
                Some(d) => d.2 is None,
                None => true,
            });
        }
    }
}

/// Reading files one after the other is reading the first ones, then the rest
/// from the ids they left.
proof fn lemma_fold_append(
    seen: Seq<(Seq<char>, Seq<char>)>,
    a: Seq<DesktopFile>,
    b: Seq<DesktopFile>,
    ra: Seq<Option<DesktopEntryInfo>>,
    rb: Seq<Option<DesktopEntryInfo>>,
)
    requires
        ra.len() == a.len(),
        rb.len() == b.len(),
    ensures
        desktop_fold(seen, a + b, ra + rb) == (
            desktop_fold(desktop_fold(seen, a, ra).0, b, rb).0,
            desktop_fold(seen, a, ra).1 + desktop_fold(desktop_fold(seen, a, ra).0, b, rb).1,
        ),
    decreases b.len(),
{
    if b.len() == 0 {
        assert(a + b =~= a);
        assert(ra + rb =~= ra);
        assert(desktop_fold(seen, a, ra).1 + Seq::<LineModel>::empty() =~= desktop_fold(seen, a, ra).1);
    } else {
        assert((a + b).drop_last() =~= a + b.drop_last());
        assert((ra + rb).drop_last() =~= ra + rb.drop_last());
        assert((a + b).last() == b.last());
        assert((ra + rb).last() == rb.last());
        lemma_fold_append(seen, a, b.drop_last(), ra, rb.drop_last());
        let mid = desktop_fold(seen, a, ra);
        let rest = desktop_fold(mid.0, b.drop_last(), rb.drop_last());
        let step = seen_step(rest.0, b.last().path@, rb.last());
        match step.1 {
            Some(l) => {
                assert(mid.1 + rest.1.push(l) =~= (mid.1 + rest.1).push(l));
            },
            None => {},
        }
    }
}

/// A file that does not decode changes nothing: reading the files with it gives
/// what reading them without it gives.
pub proof fn law_undecodable_file_changes_nothing(
    seen: Seq<(Seq<char>, Seq<char>)>,
    a: Seq<DesktopFile>,
    f: DesktopFile,
    b: Seq<DesktopFile>,
    ra: Seq<Option<DesktopEntryInfo>>,
    x: Option<DesktopEntryInfo>,
    rb: Seq<Option<DesktopEntryInfo>>,
)
    requires
        ra.len() == a.len(),
        rb.len() == b.len(),
        read_matches(f.path@, f.text@, x),
        desktop_entry_decoded(f.path@, f.text@) is None,
    ensures
        desktop_fold(seen, a.push(f) + b, ra.push(x) + rb) == desktop_fold(seen, a + b, ra + rb),
{
    lemma_fold_append(seen, a.push(f), b, ra.push(x), rb);
    lemma_fold_append(seen, a, b, ra, rb);
    assert(a.push(f).drop_last() =~= a);
    assert(ra.push(x).drop_last() =~= ra);
    assert(desktop_fold(seen, a.push(f), ra.push(x)) == desktop_fold(seen, a, ra));
}


/// Which entries give a line: an entry gives none where it is hidden, is not of
/// type `Application`, or lacks a name or a command, and gives one otherwise.
pub proof fn law_which_entries_give_lines(info: DesktopEntryInfo)
    ensures
        info.no_display ==> desktop_line_of(info) is None,
        opt_view(info.entry_type) != Some("Application"@) ==> desktop_line_of(info) is None,
        info.name is None ==> desktop_line_of(info) is None,
        info.command is None ==> desktop_line_of(info) is None,
        (!info.no_display && opt_view(info.entry_type) == Some("Application"@) && info.name is Some
            && info.command is Some) ==> desktop_line_of(info) is Some,
{
}

/// What a line shows: the name, followed by the generic name in small light
/// italics where there is one, whatever the command and icon; the entry's icon;
/// and its command as written.
pub proof fn law_line_contents(info: DesktopEntryInfo)
    ensures
        desktop_line_of(info) matches Some(l) ==> {
            &&& info.name is Some && info.command is Some
            &&& l.1 == opt_view(info.icon)
            &&& l.2 == info.command->0@
            &&& info.generic_name matches Some(g) ==> l.0 == info.name->0@
                + " <span weight='light' size='small'><i>("@ + g@ + ")</i></span>"@
            &&& info.generic_name is None ==> l.0 == info.name->0@
        },
{
}

} // verus!

//! The repository-status model and the porcelain parser: a branch header
//! line followed by two-letter status lines is decoded into a
//! [`GitStatus`]. Malformed lines are tolerated, never an error: short
//! lines are skipped and unknown status letters decode to "no change".

use vstd::prelude::*;

use crate::text::{
    is_space, is_space_char, lemma_drop_leading_at, lemma_lines_concat, lemma_lines_nonempty,
    lemma_lines_single, spec_drop_leading, spec_lines, split_lines,
};

verus! {

/// The kind of change recorded for a file.
#[derive(Clone, Copy, Debug, PartialEq, Eq, Structural)]
pub enum ChangeType {
    Added,
    Modified,
    Deleted,
    Renamed,
    Copied,
    TypeChanged,
    Unmerged,
    Untracked,
}

/// The status of a single file: its path and the change recorded in the
/// staging area and in the working tree, either of which may be absent.
#[derive(Clone, Debug, PartialEq, Eq)]
pub struct FileStatus {
    pub path: String,
    pub staged_status: Option<ChangeType>,
    pub unstaged_status: Option<ChangeType>,
}

/// Mathematical model of a [`FileStatus`].
#[verifier::ext_equal]
pub ghost struct FileStatusView {
    pub path: Seq<char>,
    pub staged_status: Option<ChangeType>,
    pub unstaged_status: Option<ChangeType>,
}

impl View for FileStatus {
    type V = FileStatusView;

    open spec fn view(&self) -> FileStatusView {
        FileStatusView {
            path: self.path@,
            staged_status: self.staged_status,
            unstaged_status: self.unstaged_status,
        }
    }
}

impl DeepView for FileStatus {
    type V = FileStatusView;

    open spec fn deep_view(&self) -> FileStatusView {
        self@
    }
}

/// A snapshot of the repository state: the branch summary line and the
/// file records, in report order.
#[derive(Clone, Debug, PartialEq, Eq)]
pub struct GitStatus {
    pub branch_info: String,
    pub files: Vec<FileStatus>,
}

/// Mathematical model of a [`GitStatus`].
#[verifier::ext_equal]
pub ghost struct GitStatusView {
    pub branch_info: Seq<char>,
    pub files: Seq<FileStatusView>,
}

impl View for GitStatus {
    type V = GitStatusView;

    open spec fn view(&self) -> GitStatusView {
        GitStatusView { branch_info: self.branch_info@, files: self.files.deep_view() }
    }
}

/// The decoding table for a single status letter. Exactly the eight known
/// letters decode to a change; a blank and every unknown letter decode to
/// "no change" rather than an error.
pub open spec fn spec_change_type(c: char) -> Option<ChangeType> {
    match c {
        'A' => Some(ChangeType::Added),
        'M' => Some(ChangeType::Modified),
        'D' => Some(ChangeType::Deleted),
        'R' => Some(ChangeType::Renamed),
        'C' => Some(ChangeType::Copied),
        'T' => Some(ChangeType::TypeChanged),
        'U' => Some(ChangeType::Unmerged),
        '?' => Some(ChangeType::Untracked),
        _ => None,
    }
}

/// Decodes a single status letter; total, per the table above.
pub fn parse_status_char(c: char) -> (r: Option<ChangeType>)
    ensures
        r == spec_change_type(c),
{
    match c {
        'A' => Some(ChangeType::Added),
        'M' => Some(ChangeType::Modified),
        'D' => Some(ChangeType::Deleted),
        'R' => Some(ChangeType::Renamed),
        'C' => Some(ChangeType::Copied),
        'T' => Some(ChangeType::TypeChanged),
        'U' => Some(ChangeType::Unmerged),
        '?' => Some(ChangeType::Untracked),
        _ => None,
    }
}

/// The rename marker that separates the old and the new path.
pub open spec fn spec_arrow_at(t: Seq<char>, k: int) -> bool {
    &&& 0 <= k
    &&& k + 4 <= t.len()
    &&& t[k] == ' '
    &&& t[k + 1] == '-'
    &&& t[k + 2] == '>'
    &&& t[k + 3] == ' '
}

/// Index of the first rename marker in `t`, or `t.len()` if absent.
pub open spec fn spec_find_arrow(t: Seq<char>) -> int
    decreases t.len(),
{
    if t.len() < 4 {
        t.len() as int
    } else if spec_arrow_at(t, 0) {
        0
    } else {
        1 + spec_find_arrow(t.drop_first())
    }
}

/// Converse characterisation: a position with a marker and none before it
/// is exactly what `spec_find_arrow` returns.
pub proof fn lemma_find_arrow_is(t: Seq<char>, j: int)
    requires
        0 <= j <= t.len(),
        j < t.len() ==> spec_arrow_at(t, j),
        forall|k: int| 0 <= k < j ==> !spec_arrow_at(t, k),
    ensures
        spec_find_arrow(t) == j,
    decreases t.len(),
{
    if t.len() < 4 {
        if j < t.len() {
            assert(!spec_arrow_at(t, j));
        }
    } else if spec_arrow_at(t, 0) {
        assert(j == 0);
    } else {
        assert(j >= 1) by {
            if j == 0 && j < t.len() {
                assert(spec_arrow_at(t, 0));
            }
            if j == 0 && j == t.len() {
                assert(t.len() >= 4);
            }
        }
        assert forall|k: int| 0 <= k < j - 1 implies !spec_arrow_at(t.drop_first(), k) by {
            if spec_arrow_at(t.drop_first(), k) {
                assert(spec_arrow_at(t, k + 1));
            }
        }
        if j < t.len() {
            assert(spec_arrow_at(t.drop_first(), j - 1));
        }
        lemma_find_arrow_is(t.drop_first(), j - 1);
    }
}

/// Finds the first rename marker in `s`, or the length if there is none.
fn find_arrow(s: &str) -> (r: usize)
    ensures
        r == spec_find_arrow(s@),
        r < s@.len() ==> spec_arrow_at(s@, r as int),
{
    let n = s.unicode_len();
    if n < 4 {
        proof {
            lemma_find_arrow_is(s@, n as int);
        }
        return n;
    }
    let mut i: usize = 0;
    while i <= n - 4
        invariant
            n == s@.len(),
            4 <= n,
            0 <= i,
            i <= n,
            forall|k: int| 0 <= k < i ==> !spec_arrow_at(s@, k),
        decreases n - i,
    {
        if s.get_char(i) == ' ' && s.get_char(i + 1) == '-' && s.get_char(i + 2) == '>'
            && s.get_char(i + 3) == ' ' {
            proof {
                lemma_find_arrow_is(s@, i as int);
            }
            return i;
        }
        i = i + 1;
    }
    proof {
        assert forall|k: int| 0 <= k < n implies !spec_arrow_at(s@, k) by {
            if k < i && spec_arrow_at(s@, k) {
                assert(false);
            }
        }
        lemma_find_arrow_is(s@, n as int);
    }
    n
}

/// The middle piece of the rewritten rename path.
pub open spec fn spec_rename_mid() -> Seq<char> {
    " (renamed from "@
}

/// The closing piece of the rewritten rename path.
pub open spec fn spec_rename_end() -> Seq<char> {
    ")"@
}

/// The record a single status line decodes to, or `None` for a line of
/// fewer than four characters, which is skipped.
pub open spec fn spec_file_line(line: Seq<char>) -> Option<FileStatusView> {
    if line.len() < 4 {
        None
    } else {
        let staged_status = spec_change_type(line[0]);
        let unstaged_status = spec_change_type(line[1]);
        let raw = spec_drop_leading(line.skip(2));
        let f = spec_find_arrow(raw);
        let path = if (line[0] == 'R' || line[1] == 'R') && f < raw.len() {
            raw.skip(f + 4) + spec_rename_mid() + raw.take(f) + spec_rename_end()
        } else {
            raw
        };
        Some(FileStatusView { path, staged_status, unstaged_status })
    }
}

/// The branch summary carried by the header line: the line with its fixed
/// two-letter-and-space prefix removed, or the whole line if the prefix
/// is absent.
pub open spec fn spec_branch_info(line: Seq<char>) -> Seq<char> {
    if line.len() >= 3 && line[0] == '#' && line[1] == '#' && line[2] == ' ' {
        line.skip(3)
    } else {
        line
    }
}

/// The records decoded from the status lines, in order, skipping lines
/// that decode to nothing.
pub open spec fn spec_parse_files(lines: Seq<Seq<char>>) -> Seq<FileStatusView>
    decreases lines.len(),
{
    if lines.len() == 0 {
        Seq::empty()
    } else {
        match spec_file_line(lines[0]) {
            Some(f) => seq![f] + spec_parse_files(lines.drop_first()),
            None => spec_parse_files(lines.drop_first()),
        }
    }
}

/// Appending one more line appends its record, if it has one.
pub proof fn lemma_parse_files_push(lines: Seq<Seq<char>>, l: Seq<char>)
    ensures
        spec_parse_files(lines.push(l)) == spec_parse_files(lines) + match spec_file_line(l) {
            Some(f) => seq![f],
            None => Seq::<FileStatusView>::empty(),
        },
    decreases lines.len(),
{
    if lines.len() == 0 {
        assert(lines.push(l)[0] == l);
        assert(lines.push(l).drop_first() =~= Seq::<Seq<char>>::empty());
        assert(spec_parse_files(Seq::<Seq<char>>::empty()) == Seq::<FileStatusView>::empty());
        assert(spec_parse_files(lines) == Seq::<FileStatusView>::empty());
        match spec_file_line(l) {
            Some(f) => {
                assert(spec_parse_files(lines.push(l)) =~= spec_parse_files(lines) + seq![f]);
            },
            None => {
                assert(spec_parse_files(lines.push(l)) =~= spec_parse_files(lines));
            },
        }
    } else {
        assert(lines.push(l).drop_first() =~= lines.drop_first().push(l));
        lemma_parse_files_push(lines.drop_first(), l);
        assert(lines.push(l)[0] == lines[0]);
        match spec_file_line(lines[0]) {
            Some(f) => {
                match spec_file_line(l) {
                    Some(g) => {
                        assert(spec_parse_files(lines.push(l)) =~= spec_parse_files(lines)
                            + seq![g]);
                    },
                    None => {
                        assert(spec_parse_files(lines.push(l)) =~= spec_parse_files(lines));
                    },
                }
            },
            None => {
            },
        }
    }
}

/// What the whole porcelain report parses to: one branch summary from the
/// first line, one record per well-formed status line after it.
pub open spec fn spec_parse(s: Seq<char>) -> GitStatusView {
    let lines = spec_lines(s);
    GitStatusView {
        branch_info: spec_branch_info(lines[0]),
        files: spec_parse_files(lines.drop_first()),
    }
}

/// Strips the header prefix from the branch line, if present.
fn parse_branch_header(line: &str) -> (r: String)
    ensures
        r@ == spec_branch_info(line@),
{
    let n = line.unicode_len();
    if n >= 3 && line.get_char(0) == '#' && line.get_char(1) == '#' && line.get_char(2) == ' ' {
        let r = line.substring_char(3, n).to_owned();
        proof {
            assert(r@ =~= line@.skip(3));
        }
        r
    } else {
        line.to_owned()
    }
}

/// Decodes one status line, or skips it when it is shorter than four
/// characters. A rename line `old -> new` is rewritten to a single
/// readable path; a rename line without the marker is kept as it stands.
fn parse_file_line(line: &str) -> (r: Option<FileStatus>)
    ensures
        r.deep_view() == spec_file_line(line@),
{
    let n = line.unicode_len();
    if n < 4 {
        return None;
    }
    let c0 = line.get_char(0);
    let c1 = line.get_char(1);
    let staged_status = parse_status_char(c0);
    let unstaged_status = parse_status_char(c1);
    let mut j: usize = 2;
    while j < n && is_space(line.get_char(j))
        invariant
            n == line@.len(),
            2 <= j <= n,
            forall|k: int| 2 <= k < j ==> is_space_char(line@[k]),
        decreases n - j,
    {
        j = j + 1;
    }
    proof {
        let t2 = line@.skip(2);
        lemma_drop_leading_at(t2, j - 2);
        assert(t2.skip(j - 2) =~= line@.subrange(j as int, n as int));
    }
    let raw = line.substring_char(j, n);
    let path: String;
    if c0 == 'R' || c1 == 'R' {
        let f = find_arrow(raw);
        let m = raw.unicode_len();
        if f < m {
            let old_part = raw.substring_char(0, f);
            let new_part = raw.substring_char(f + 4, m);
            path = new_part.to_owned().concat(" (renamed from ").concat(old_part).concat(")");
            proof {
                assert(new_part@ =~= raw@.skip(f as int + 4));
                assert(old_part@ =~= raw@.take(f as int));
            }
        } else {
            path = raw.to_owned();
        }
    } else {
        path = raw.to_owned();
    }
    Some(FileStatus { path, staged_status, unstaged_status })
}

/// Parses the output of the porcelain status query. Never fails: an empty
/// report yields an empty summary and no records, malformed lines are
/// skipped, and unknown status letters decode to "no change".
pub fn parse_porcelain_output(output: &str) -> (r: GitStatus)
    ensures
        r@ == spec_parse(output@),
{
    let lines = split_lines(output);
    proof {
        lemma_lines_nonempty(output@);
        assert(lines.deep_view()[0] == lines[0]@);
    }
    let branch_info = parse_branch_header(lines[0].as_str());
    let mut files: Vec<FileStatus> = Vec::new();
    let mut i: usize = 1;
    proof {
        assert(lines.deep_view().subrange(1, 1) =~= Seq::<Seq<char>>::empty());
    }
    while i < lines.len()
        invariant
            1 <= i <= lines.len(),
            lines.deep_view() == spec_lines(output@),
            files.deep_view() == spec_parse_files(lines.deep_view().subrange(1, i as int)),
        decreases lines.len() - i,
    {
        let ghost prev = files.deep_view();
        let ghost dv = lines.deep_view();
        proof {
            assert(dv[i as int] == lines[i as int]@);
        }
        match parse_file_line(lines[i].as_str()) {
            Some(f) => {
                files.push(f);
                proof {
                    assert(files.deep_view() =~= prev.push(f@));
                }
            },
            None => {},
        }
        proof {
            assert(dv.subrange(1, i + 1) =~= dv.subrange(1, i as int).push(dv[i as int]));
            lemma_parse_files_push(dv.subrange(1, i as int), dv[i as int]);
            match spec_file_line(dv[i as int]) {
                Some(f) => {
                    assert(spec_parse_files(dv.subrange(1, i + 1)) =~= prev.push(f));
                },
                None => {
                    assert(spec_parse_files(dv.subrange(1, i + 1)) =~= prev);
                },
            }
        }
        i = i + 1;
    }
    proof {
        let dv = lines.deep_view();
        assert(dv.subrange(1, lines.len() as int) =~= dv.drop_first());
    }
    GitStatus { branch_info, files }
}

/// Number of lines a parse skips: those shorter than four characters.
pub open spec fn spec_count_malformed(lines: Seq<Seq<char>>) -> int
    decreases lines.len(),
{
    if lines.len() == 0 {
        0
    } else {
        (if lines[0].len() < 4 {
            1int
        } else {
            0int
        }) + spec_count_malformed(lines.drop_first())
    }
}

proof fn lemma_parse_files_count(lines: Seq<Seq<char>>)
    ensures
        spec_parse_files(lines).len() == lines.len() - spec_count_malformed(lines),
        0 <= spec_count_malformed(lines) <= lines.len(),
    decreases lines.len(),
{
    if lines.len() > 0 {
        lemma_parse_files_count(lines.drop_first());
    }
}

/// Law: every report has exactly one header line, and parsing yields one
/// record per status line after the header, less the malformed lines
/// that are skipped.
pub proof fn lemma_parse_record_count(s: Seq<char>)
    ensures
        spec_lines(s).len() >= 1,
        0 <= spec_count_malformed(spec_lines(s).drop_first()) <= spec_lines(s).len() - 1,
        spec_parse(s).files.len() == spec_lines(s).len() - 1 - spec_count_malformed(
            spec_lines(s).drop_first(),
        ),
{
    lemma_lines_nonempty(s);
    lemma_parse_files_count(spec_lines(s).drop_first());
}

/// The status letter a change kind is encoded as; absence encodes as a
/// blank.
pub open spec fn spec_kind_char(k: Option<ChangeType>) -> char {
    match k {
        None => ' ',
        Some(ChangeType::Added) => 'A',
        Some(ChangeType::Modified) => 'M',
        Some(ChangeType::Deleted) => 'D',
        Some(ChangeType::Renamed) => 'R',
        Some(ChangeType::Copied) => 'C',
        Some(ChangeType::TypeChanged) => 'T',
        Some(ChangeType::Unmerged) => 'U',
        Some(ChangeType::Untracked) => '?',
    }
}

/// A record encoded as a porcelain status line: two status letters, a
/// space, and the path.
pub open spec fn spec_encode_line(f: FileStatusView) -> Seq<char> {
    seq![spec_kind_char(f.staged_status), spec_kind_char(f.unstaged_status), ' '] + f.path
}

/// The status lines of a snapshot, each preceded by the newline that
/// separates it from the previous line.
pub open spec fn spec_encode_files(files: Seq<FileStatusView>) -> Seq<char>
    decreases files.len(),
{
    if files.len() == 0 {
        Seq::empty()
    } else {
        seq!['\n'] + spec_encode_line(files[0]) + spec_encode_files(files.drop_first())
    }
}

/// A whole snapshot encoded as a porcelain report: the header line
/// followed by one line per record.
pub open spec fn spec_encode_status(st: GitStatusView) -> Seq<char> {
    seq!['#', '#', ' '] + st.branch_info + spec_encode_files(st.files)
}

/// A record whose encoding survives a parse unchanged: the path is
/// non-empty, holds no newline, does not begin with a blank, and neither
/// side is a rename (a rename's path is rewritten on parsing).
pub open spec fn spec_encodable_file(f: FileStatusView) -> bool {
    &&& f.path.len() > 0
    &&& (forall|k: int| 0 <= k < f.path.len() ==> f.path[k] != '\n')
    &&& !is_space_char(f.path[0])
    &&& f.staged_status != Some(ChangeType::Renamed)
    &&& f.unstaged_status != Some(ChangeType::Renamed)
}

/// The encoded lines of a snapshot, as a sequence of lines.
pub open spec fn spec_encoded_lines(files: Seq<FileStatusView>) -> Seq<Seq<char>>
    decreases files.len(),
{
    if files.len() == 0 {
        Seq::empty()
    } else {
        seq![spec_encode_line(files[0])] + spec_encoded_lines(files.drop_first())
    }
}

proof fn lemma_file_line_round_trip(f: FileStatusView)
    requires
        spec_encodable_file(f),
    ensures
        spec_encode_line(f).len() >= 4,
        forall|k: int|
            0 <= k < spec_encode_line(f).len() ==> #[trigger] spec_encode_line(f)[k] != '\n',
        spec_file_line(spec_encode_line(f)) == Some(f),
{
    let line = spec_encode_line(f);
    assert(line.len() == 3 + f.path.len());
    assert forall|k: int| 0 <= k < line.len() implies line[k] != '\n' by {
        if k >= 3 {
            assert(line[k] == f.path[k - 3]);
        }
    }
    assert(line[0] == spec_kind_char(f.staged_status));
    assert(line[1] == spec_kind_char(f.unstaged_status));
    assert(spec_change_type(line[0]) == f.staged_status);
    assert(spec_change_type(line[1]) == f.unstaged_status);
    assert(line[0] != 'R');
    assert(line[1] != 'R');
    let t2 = line.skip(2);
    assert(t2 =~= seq![' '] + f.path);
    assert(t2[0] == ' ');
    assert(t2.drop_first() =~= f.path);
    assert(spec_drop_leading(t2) == spec_drop_leading(f.path));
    assert(spec_drop_leading(f.path) == f.path);
    assert(spec_file_line(line)->Some_0 =~= f);
}

proof fn lemma_encode_lines(z: Seq<char>, files: Seq<FileStatusView>)
    requires
        forall|k: int| 0 <= k < z.len() ==> z[k] != '\n',
        forall|i: int| 0 <= i < files.len() ==> spec_encodable_file(#[trigger] files[i]),
    ensures
        spec_lines(z + spec_encode_files(files)) == seq![z] + spec_encoded_lines(files),
    decreases files.len(),
{
    if files.len() == 0 {
        assert(z + spec_encode_files(files) =~= z);
        lemma_lines_single(z);
        assert(seq![z] + spec_encoded_lines(files) =~= seq![z]);
    } else {
        let f0 = files[0];
        let l0 = spec_encode_line(f0);
        let rest = spec_encode_files(files.drop_first());
        lemma_file_line_round_trip(f0);
        assert forall|i: int|
            0 <= i < files.drop_first().len() implies spec_encodable_file(
            #[trigger] files.drop_first()[i],
        ) by {
            assert(files.drop_first()[i] == files[i + 1]);
        }
        lemma_encode_lines(l0, files.drop_first());
        assert(z + spec_encode_files(files) =~= z + seq!['\n'] + (l0 + rest));
        lemma_lines_concat(z, l0 + rest);
        lemma_lines_single(z);
        assert(spec_lines(z + spec_encode_files(files)) == seq![z] + (seq![l0]
            + spec_encoded_lines(files.drop_first())));
        assert(seq![z] + (seq![l0] + spec_encoded_lines(files.drop_first())) =~= seq![z]
            + spec_encoded_lines(files));
    }
}

proof fn lemma_parse_encoded_lines(files: Seq<FileStatusView>)
    requires
        forall|i: int| 0 <= i < files.len() ==> spec_encodable_file(#[trigger] files[i]),
    ensures
        spec_parse_files(spec_encoded_lines(files)) == files,
    decreases files.len(),
{
    if files.len() == 0 {
        assert(spec_parse_files(spec_encoded_lines(files)) =~= files);
    } else {
        lemma_file_line_round_trip(files[0]);
        assert forall|i: int|
            0 <= i < files.drop_first().len() implies spec_encodable_file(
            #[trigger] files.drop_first()[i],
        ) by {
            assert(files.drop_first()[i] == files[i + 1]);
        }
        lemma_parse_encoded_lines(files.drop_first());
        assert(spec_encoded_lines(files)[0] == spec_encode_line(files[0]));
        assert(spec_encoded_lines(files).drop_first() =~= spec_encoded_lines(files.drop_first()));
        assert(spec_parse_files(spec_encoded_lines(files)) =~= seq![files[0]]
            + files.drop_first());
        assert(seq![files[0]] + files.drop_first() =~= files);
    }
}

/// Law: encoding a snapshot of plain records (non-empty paths without
/// newlines or leading blanks, and no renames) into porcelain lines and
/// parsing the result returns the same snapshot.
pub proof fn lemma_porcelain_round_trip(st: GitStatusView)
    requires
        forall|k: int| 0 <= k < st.branch_info.len() ==> st.branch_info[k] != '\n',
        forall|i: int| 0 <= i < st.files.len() ==> spec_encodable_file(#[trigger] st.files[i]),
    ensures
        spec_parse(spec_encode_status(st)) == st,
{
    let h = seq!['#', '#', ' '] + st.branch_info;
    assert forall|k: int| 0 <= k < h.len() implies h[k] != '\n' by {
        if k >= 3 {
            assert(h[k] == st.branch_info[k - 3]);
        }
    }
    lemma_encode_lines(h, st.files);
    assert(spec_encode_status(st) =~= h + spec_encode_files(st.files));
    let lines = spec_lines(spec_encode_status(st));
    assert(lines == seq![h] + spec_encoded_lines(st.files));
    assert(lines[0] == h);
    assert(h.skip(3) =~= st.branch_info);
    assert(lines.drop_first() =~= spec_encoded_lines(st.files));
    lemma_parse_encoded_lines(st.files);
    assert(spec_parse(spec_encode_status(st)) =~= st);
}

/// Some record carries a staged change.
pub open spec fn spec_has_staged(st: GitStatusView) -> bool {
    exists|i: int| 0 <= i < st.files.len() && st.files[i].staged_status is Some
}

/// Whether any file in the snapshot carries a staged change.
pub fn has_staged_changes(st: &GitStatus) -> (r: bool)
    ensures
        r == spec_has_staged(st@),
{
    let mut i: usize = 0;
    while i < st.files.len()
        invariant
            0 <= i <= st.files.len(),
            forall|k: int| 0 <= k < i ==> st@.files[k].staged_status is None,
        decreases st.files.len() - i,
    {
        if st.files[i].staged_status.is_some() {
            proof {
                assert(st@.files[i as int].staged_status is Some);
            }
            return true;
        }
        i = i + 1;
    }
    false
}

} // verus!

//! The local-branch listing model and its decoder, in the same tolerant
//! line-based style as the status parser: a leading `* ` marks the
//! current branch, blank lines are skipped, and everything else is taken
//! as a branch name.

use vstd::prelude::*;

use crate::text::{spec_lines, spec_trim, split_lines, trim};

verus! {

/// One local branch: its name and whether it is the checked-out one.
#[derive(Clone, Debug, PartialEq, Eq)]
pub struct BranchInfo {
    pub name: String,
    pub is_current: bool,
}

/// Mathematical model of a [`BranchInfo`].
#[verifier::ext_equal]
pub ghost struct BranchInfoView {
    pub name: Seq<char>,
    pub is_current: bool,
}

impl View for BranchInfo {
    type V = BranchInfoView;

    open spec fn view(&self) -> BranchInfoView {
        BranchInfoView { name: self.name@, is_current: self.is_current }
    }
}

impl DeepView for BranchInfo {
    type V = BranchInfoView;

    open spec fn deep_view(&self) -> BranchInfoView {
        self@
    }
}

/// The branch one listing line denotes, or `None` for a blank line. The
/// current branch is marked by a leading asterisk; its name follows a
/// `* ` prefix, which is removed when present.
pub open spec fn spec_branch_line(line: Seq<char>) -> Option<BranchInfoView> {
    let t = spec_trim(line);
    if t.len() == 0 {
        None
    } else {
        let is_current = t[0] == '*';
        let name = if t.len() >= 2 && t[0] == '*' && t[1] == ' ' {
            t.skip(2)
        } else {
            t
        };
        Some(BranchInfoView { name, is_current })
    }
}

/// The branches denoted by a sequence of listing lines, in order.
pub open spec fn spec_branch_list(lines: Seq<Seq<char>>) -> Seq<BranchInfoView>
    decreases lines.len(),
{
    if lines.len() == 0 {
        Seq::empty()
    } else {
        match spec_branch_line(lines[0]) {
            Some(b) => seq![b] + spec_branch_list(lines.drop_first()),
            None => spec_branch_list(lines.drop_first()),
        }
    }
}

proof fn lemma_branch_list_push(lines: Seq<Seq<char>>, l: Seq<char>)
    ensures
        spec_branch_list(lines.push(l)) == spec_branch_list(lines) + match spec_branch_line(l) {
            Some(b) => seq![b],
            None => Seq::<BranchInfoView>::empty(),
        },
    decreases lines.len(),
{
    if lines.len() == 0 {
        assert(lines.push(l)[0] == l);
        assert(lines.push(l).drop_first() =~= Seq::<Seq<char>>::empty());
        assert(spec_branch_list(Seq::<Seq<char>>::empty()) == Seq::<BranchInfoView>::empty());
        assert(spec_branch_list(lines) == Seq::<BranchInfoView>::empty());
        match spec_branch_line(l) {
            Some(b) => {
                assert(spec_branch_list(lines.push(l)) =~= spec_branch_list(lines) + seq![b]);
            },
            None => {
                assert(spec_branch_list(lines.push(l)) =~= spec_branch_list(lines));
            },
        }
    } else {
        assert(lines.push(l).drop_first() =~= lines.drop_first().push(l));
        lemma_branch_list_push(lines.drop_first(), l);
        assert(lines.push(l)[0] == lines[0]);
        match spec_branch_line(lines[0]) {
            Some(_) => {
                match spec_branch_line(l) {
                    Some(b) => {
                        assert(spec_branch_list(lines.push(l)) =~= spec_branch_list(lines)
                            + seq![b]);
                    },
                    None => {
                        assert(spec_branch_list(lines.push(l)) =~= spec_branch_list(lines));
                    },
                }
            },
            None => {},
        }
    }
}

/// What a whole branch listing decodes to.
pub open spec fn spec_parse_branches(s: Seq<char>) -> Seq<BranchInfoView> {
    spec_branch_list(spec_lines(s))
}

fn parse_branch_line(line: &str) -> (r: Option<BranchInfo>)
    ensures
        r.deep_view() == spec_branch_line(line@),
{
    let t = trim(line);
    let n = t.as_str().unicode_len();
    if n == 0 {
        return None;
    }
    let is_current = t.as_str().get_char(0) == '*';
    let name: String;
    if n >= 2 && is_current && t.as_str().get_char(1) == ' ' {
        name = t.as_str().substring_char(2, n).to_owned();
        proof {
            assert(name@ =~= t@.skip(2));
        }
    } else {
        name = t;
    }
    Some(BranchInfo { name, is_current })
}

/// Decodes the output of the branch listing command: one branch per
/// non-blank line, in listing order.
pub fn parse_branch_output(text: &str) -> (r: Vec<BranchInfo>)
    ensures
        r.deep_view() == spec_parse_branches(text@),
{
    let lines = split_lines(text);
    let mut out: Vec<BranchInfo> = Vec::new();
    let mut i: usize = 0;
    proof {
        assert(lines.deep_view().subrange(0, 0) =~= Seq::<Seq<char>>::empty());
    }
    while i < lines.len()
        invariant
            0 <= i <= lines.len(),
            lines.deep_view() == spec_lines(text@),
            out.deep_view() == spec_branch_list(lines.deep_view().subrange(0, i as int)),
        decreases lines.len() - i,
    {
        let ghost prev = out.deep_view();
        let ghost dv = lines.deep_view();
        proof {
            assert(dv[i as int] == lines[i as int]@);
        }
        match parse_branch_line(lines[i].as_str()) {
            Some(b) => {
                out.push(b);
                proof {
                    assert(out.deep_view() =~= prev.push(b@));
                }
            },
            None => {},
        }
        proof {
            assert(dv.subrange(0, i + 1) =~= dv.subrange(0, i as int).push(dv[i as int]));
            lemma_branch_list_push(dv.subrange(0, i as int), dv[i as int]);
            match spec_branch_line(dv[i as int]) {
                Some(b) => {
                    assert(spec_branch_list(dv.subrange(0, i + 1)) =~= prev.push(b));
                },
                None => {
                    assert(spec_branch_list(dv.subrange(0, i + 1)) =~= prev);
                },
            }
        }
        i = i + 1;
    }
    proof {
        let dv = lines.deep_view();
        assert(dv.subrange(0, lines.len() as int) =~= dv);
    }
    out
}

} // verus!

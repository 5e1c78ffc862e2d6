//! Changes to files, as the unified diff that travels in `file_diff`.

use vstd::prelude::*;

use crate::outside;
use crate::text;

verus! {

/// What happened to a line.
#[derive(Debug, Clone, Copy, PartialEq, Eq, Structural)]
pub enum LineChange {
    Equal,
    Delete,
    Insert,
}

/// Unified diff of a file of the workspace.
#[derive(Debug, PartialEq, Eq)]
pub struct FileDiff {
    /// Path relative to the workspace, as the tool asked for it.
    pub path: String,
    /// Unified format, with its headers and hunks.
    pub unified: String,
    pub additions: u32,
    pub deletions: u32,
}

/// Whether two texts have few enough lines for the counters of a diff.
pub open spec fn countable(old: Seq<char>, new: Seq<char>) -> bool {
    outside::line_count(old) + outside::line_count(new) <= u32::MAX
}

impl FileDiff {
    /// Whether this is the diff between two texts, under a path.
    pub open spec fn is_diff(self, path: Seq<char>, old: Seq<char>, new: Seq<char>) -> bool {
        let changes = outside::line_changes(old, new);
        &&& self.path@ == path
        &&& self.additions == outside::change_count(changes, LineChange::Insert)
        &&& self.deletions == outside::change_count(changes, LineChange::Delete)
        &&& self.unified@ == outside::unified_text(old, new, 3, "a/"@ + path, "b/"@ + path)
    }

    /// The diff between two texts, under a path. A new file has an empty old
    /// text. Equal texts, and no others, give an empty diff; a new file has
    /// only additions. The two counters make up the difference in lines.
    pub fn compute(path: &str, old_text: &str, new_text: &str) -> (r: Self)
        requires
            countable(old_text@, new_text@),
        ensures
            r.is_diff(path@, old_text@, new_text@),
            old_text@ == new_text@ <==> r.additions == 0 && r.deletions == 0,
            old_text@ == new_text@ <==> r.unified@.len() == 0,
            old_text@ != new_text@ ==> (outside::unified_header(
                "a/"@ + path@,
                "b/"@ + path@,
            ) + "@@ -"@).is_prefix_of(r.unified@),
            r.additions + outside::line_count(old_text@) == r.deletions + outside::line_count(
                new_text@,
            ),
            r.deletions <= outside::line_count(old_text@),
            old_text@.len() == 0 ==> r.deletions == 0,
            new_text@.len() == 0 ==> r.additions == 0,
    {
        let (additions, deletions) = tally(&outside::diff_lines(old_text, new_text));
        let unified = outside::diff_unified(
            old_text,
            new_text,
            3,
            text::join2("a/", path).as_str(),
            text::join2("b/", path).as_str(),
        );
        FileDiff { path: path.to_owned(), unified, additions, deletions }
    }
}

/// How many lines a list of changes inserts, and how many it deletes.
pub fn tally(changes: &Vec<LineChange>) -> (r: (u32, u32))
    requires
        outside::change_count(changes@, LineChange::Insert) <= u32::MAX,
        outside::change_count(changes@, LineChange::Delete) <= u32::MAX,
    ensures
        r.0 == outside::change_count(changes@, LineChange::Insert),
        r.1 == outside::change_count(changes@, LineChange::Delete),
{
    let mut additions: u32 = 0;
    let mut deletions: u32 = 0;
    let ghost ins = outside::is_change(LineChange::Insert);
    let ghost del = outside::is_change(LineChange::Delete);
    let mut i: usize = 0;
    proof {
        reveal(Seq::filter);
    }
    while i < changes.len()
        invariant
            i <= changes.len(),
            ins == outside::is_change(LineChange::Insert),
            del == outside::is_change(LineChange::Delete),
            additions == changes@.take(i as int).filter(ins).len(),
            deletions == changes@.take(i as int).filter(del).len(),
            changes@.filter(ins).len() <= u32::MAX,
            changes@.filter(del).len() <= u32::MAX,
        decreases changes.len() - i,
    {
        proof {
            lemma_filter_step(changes@, ins, i as int);
            lemma_filter_step(changes@, del, i as int);
        }
        match changes[i] {
            LineChange::Insert => {
                additions += 1;
            },
            LineChange::Delete => {
                deletions += 1;
            },
            LineChange::Equal => {},
        }
        i += 1;
    }
    assert(changes@.take(i as int) == changes@);
    (additions, deletions)
}

/// One more element changes a filtered prefix by at most that element, and no
/// prefix keeps more than the whole.
proof fn lemma_filter_step(s: Seq<LineChange>, keep: spec_fn(LineChange) -> bool, i: int)
    requires
        0 <= i < s.len(),
    ensures
        s.take(i + 1).filter(keep).len() == s.take(i).filter(keep).len() + if keep(s[i]) {
            1nat
        } else {
            0nat
        },
        s.take(i + 1).filter(keep).len() <= s.filter(keep).len(),
    decreases s.len() - i,
{
    reveal(Seq::filter);
    assert(s.take(i + 1).drop_last() == s.take(i));
    if i + 1 < s.len() {
        lemma_filter_step(s, keep, i + 1);
    } else {
        assert(s.take(i + 1) == s);
    }
}

} // verus!

//! Rules of automatic approval.

use vstd::prelude::*;

use crate::outside;
use crate::protocol::api::{NewRule, Rule};
use crate::protocol::ids::RuleId;
use crate::protocol::time::{self, Timestamp};

verus! {

/// A rule as it is stored.
#[derive(Debug, PartialEq)]
pub struct RuleRow {
    pub id: String,
    pub workspace_path: String,
    pub tool: String,
    pub pattern: String,
    pub created_at: String,
}

impl RuleRow {
    /// Whether the row can be read.
    pub open spec fn readable(self) -> bool {
        &&& outside::ulid_number(self.id@) is Some
        &&& outside::rfc3339_instant(self.created_at@) is Some
    }

    /// Whether a rule is what the row holds.
    pub open spec fn reads_as(self, rule: Rule) -> bool {
        &&& outside::ulid_number(self.id@) == Some(rule.id.0)
        &&& rule.workspace_path == self.workspace_path
        &&& rule.tool == self.tool
        &&& rule.pattern == self.pattern
        &&& outside::rfc3339_instant(self.created_at@) == Some(
            (rule.created_at.secs, rule.created_at.nanos),
        )
    }

    /// The rule that the row holds, if it can be read.
    pub fn to_dto(&self) -> (r: Option<Rule>)
        ensures
            r is Some <==> self.readable(),
            r matches Some(rule) ==> self.reads_as(rule),
    {
        let id = match RuleId::from_text(self.id.as_str()) {
            Ok(id) => id,
            Err(_) => return None,
        };
        let created_at = match time::parse_ts(self.created_at.as_str()) {
            Some(t) => t,
            None => return None,
        };
        Some(
            Rule {
                id,
                workspace_path: self.workspace_path.clone(),
                tool: self.tool.clone(),
                pattern: self.pattern.clone(),
                created_at,
            },
        )
    }
}

/// The row of a new rule.
pub fn insert(id: RuleId, rule: &NewRule, now: Timestamp) -> (r: RuleRow)
    requires
        now.in_range(),
    ensures
        r.id@ == outside::ulid_chars(id.0),
        r.workspace_path == rule.workspace_path,
        r.tool == rule.tool,
        r.pattern == rule.pattern,
        r.created_at@ == outside::rfc3339_chars(now.secs, now.nanos),
        r.readable(),
        forall|read: Rule|
            #[trigger] r.reads_as(read) ==> read.id == id && read.created_at == now,
{
    RuleRow {
        id: id.text(),
        workspace_path: rule.workspace_path.clone(),
        tool: rule.tool.clone(),
        pattern: rule.pattern.clone(),
        created_at: now.to_rfc3339(),
    }
}

/// The rows that can be read.
pub open spec fn readable_rows(rows: Seq<RuleRow>) -> Seq<RuleRow> {
    rows.filter(|row: RuleRow| row.readable())
}

/// The rules of the rows that can be read, in order.
pub fn list(rows: &Vec<RuleRow>) -> (r: Vec<Rule>)
    ensures
        r@.len() == readable_rows(rows@).len(),
        forall|i: int| 0 <= i < r@.len() ==> readable_rows(rows@)[i].reads_as(#[trigger] r@[i]),
{
    let mut out: Vec<Rule> = Vec::new();
    let ghost keep = |row: RuleRow| row.readable();
    let mut i: usize = 0;
    proof {
        reveal(Seq::filter);
        assert(rows@.take(0).filter(keep) == Seq::<RuleRow>::empty());
    }
    while i < rows.len()
        invariant
            i <= rows.len(),
            keep == (|row: RuleRow| row.readable()),
            out@.len() == rows@.take(i as int).filter(keep).len(),
            forall|k: int|
                0 <= k < out@.len() ==> rows@.take(i as int).filter(keep)[k].reads_as(
                    #[trigger] out@[k],
                ),
        decreases rows.len() - i,
    {
        proof {
            reveal(Seq::filter);
            assert(rows@.take(i + 1).drop_last() == rows@.take(i as int));
        }
        match rows[i].to_dto() {
            Some(dto) => {
                out.push(dto);
            },
            None => {},
        }
        i += 1;
    }
    assert(rows@.take(i as int) == rows@);
    out
}

/// The rows that replace every rule, with a fresh identifier each and one time
/// of creation.
pub fn replace_all(rules: &Vec<NewRule>, now: Timestamp) -> (r: Vec<RuleRow>)
    requires
        now.in_range(),
    ensures
        r@.len() == rules@.len(),
        forall|i: int|
            #![trigger r@[i]]
            0 <= i < r@.len() ==> {
                &&& r@[i].workspace_path == rules@[i].workspace_path
                &&& r@[i].tool == rules@[i].tool
                &&& r@[i].pattern == rules@[i].pattern
                &&& r@[i].created_at@ == outside::rfc3339_chars(now.secs, now.nanos)
                &&& r@[i].readable()
            },
{
    let mut out: Vec<RuleRow> = Vec::new();
    let mut i: usize = 0;
    while i < rules.len()
        invariant
            i <= rules.len(),
            now.in_range(),
            out@.len() == i,
            forall|k: int|
                #![trigger out@[k]]
                0 <= k < i ==> {
                    &&& out@[k].workspace_path == rules@[k].workspace_path
                    &&& out@[k].tool == rules@[k].tool
                    &&& out@[k].pattern == rules@[k].pattern
                    &&& out@[k].created_at@ == outside::rfc3339_chars(now.secs, now.nanos)
                    &&& out@[k].readable()
                },
        decreases rules.len() - i,
    {
        out.push(insert(RuleId::new(), &rules[i], now));
        i += 1;
    }
    out
}

/// Law: the rows that are read are those of all the rows that can be, and no
/// others; where every row can be read they are the rows themselves.
pub proof fn law_readable_rows(rows: Seq<RuleRow>, row: RuleRow)
    ensures
        readable_rows(rows).contains(row) <==> rows.contains(row) && row.readable(),
        (forall|i: int| 0 <= i < rows.len() ==> (#[trigger] rows[i]).readable()) ==> readable_rows(
            rows,
        ) == rows,
    decreases rows.len(),
{
    reveal(Seq::filter);
    if rows.len() > 0 {
        let rest = rows.drop_last();
        law_readable_rows(rest, row);
        assert(rows == rest.push(rows.last()));
        let kept = readable_rows(rest);
        if rows.last().readable() {
            assert(readable_rows(rows) == kept.push(rows.last()));
        } else {
            assert(readable_rows(rows) == kept);
        }
        assert(rows.contains(row) <==> rest.contains(row) || row == rows.last()) by {
            if rest.contains(row) {
                let i = choose|i: int| 0 <= i < rest.len() && rest[i] == row;
                assert(rows[i] == row);
            }
            if row == rows.last() {
                assert(rows[rows.len() - 1] == row);
            }
            if rows.contains(row) && row != rows.last() {
                let i = choose|i: int| 0 <= i < rows.len() && rows[i] == row;
                assert(rest[i] == row);
            }
        }
        assert(kept.push(rows.last()).contains(row) <==> kept.contains(row) || row
            == rows.last()) by {
            let grown = kept.push(rows.last());
            if kept.contains(row) {
                let i = choose|i: int| 0 <= i < kept.len() && kept[i] == row;
                assert(grown[i] == row);
            }
            assert(grown[kept.len() as int] == rows.last());
            if grown.contains(row) && row != rows.last() {
                let i = choose|i: int| 0 <= i < grown.len() && grown[i] == row;
                assert(kept[i] == row);
            }
        }
        assert forall|i: int| 0 <= i < rest.len() && (forall|j: int|
            0 <= j < rows.len() ==> (#[trigger] rows[j]).readable()) implies (
        #[trigger] rest[i]).readable() by {
            assert(rows[i] == rest[i]);
        }
        if forall|j: int| 0 <= j < rows.len() ==> (#[trigger] rows[j]).readable() {
            assert(rows[rows.len() - 1].readable());
        }
    }
}

/// Law: a rule that is read is for the tool, the pattern and the workspace of
/// its row.
pub proof fn law_rule_shows_its_row(row: RuleRow, rule: Rule)
    requires
        row.reads_as(rule),
    ensures
        outside::ulid_number(row.id@) == Some(rule.id.0),
        rule.tool@ == row.tool@,
        rule.pattern@ == row.pattern@,
        rule.workspace_path@ == row.workspace_path@,
{
}

} // verus!

//! The line-oriented text format of filter lists.
//!
//! Each line of a list is trimmed of surrounding whitespace. An empty line, a
//! comment (`!`) and a section header (`[`) yield nothing. Of any other line,
//! a leading `@@` makes an `Allow` rule, `##` anywhere makes a `Hide` rule, and
//! everything else is a `Block` rule. The pattern is the line without a
//! leading `@@`, up to the first `$`. A line whose pattern would be empty
//! yields nothing, so every parsed rule is well formed.

use super::rule::{rules_view, FilterOptions, FilterRule, FilterRuleType, FilterRuleView};
use crate::text;
use vstd::prelude::*;
use vstd::slice::slice_subrange;

verus! {

/// The rule that one line of a filter list stands for, if any.
pub open spec fn parsed_line(line: Seq<char>) -> Option<FilterRuleView> {
    let t = text::trim(line);
    if t.len() == 0 || t[0] == '!' || t[0] == '[' {
        None
    } else {
        let allow = text::starts_with(t, "@@"@);
        let body = if allow {
            t.skip(2)
        } else {
            t
        };
        let pattern = body.take(text::first_index(body, '$'));
        if pattern.len() == 0 {
            None
        } else {
            Some(
                FilterRuleView {
                    pattern,
                    rule_type: if allow {
                        FilterRuleType::Allow
                    } else if text::contains(t, "##"@) {
                        FilterRuleType::Hide
                    } else {
                        FilterRuleType::Block
                    },
                    domains: None,
                    exceptions: None,
                    options: FilterOptions::all(),
                },
            )
        }
    }
}

/// The rules that the text of a filter list stands for: those of its lines,
/// in order. Lines end at `'\n'`; the last line needs no line end.
pub open spec fn parsed_rules(content: Seq<char>) -> Seq<FilterRuleView>
    decreases content.len(),
{
    let k = text::first_index(content, '\n');
    let head = match parsed_line(content.take(k)) {
        Some(rule) => seq![rule],
        None => Seq::empty(),
    };
    if 0 <= k < content.len() {
        head + parsed_rules(content.skip(k + 1))
    } else {
        head
    }
}

/// Every parsed rule is well formed, scoped to no origin and applicable to
/// every resource kind.
pub proof fn lemma_parsed_rules_plain(content: Seq<char>, i: int)
    requires
        0 <= i < parsed_rules(content).len(),
    ensures
        parsed_rules(content)[i].well_formed(),
        parsed_rules(content)[i].domains is None,
        parsed_rules(content)[i].exceptions is None,
        parsed_rules(content)[i].options == FilterOptions::all(),
    decreases content.len(),
{
    let k = text::first_index(content, '\n');
    let head = match parsed_line(content.take(k)) {
        Some(rule) => seq![rule],
        None => Seq::<FilterRuleView>::empty(),
    };
    if i >= head.len() {
        lemma_parsed_rules_plain(content.skip(k + 1), i - head.len());
    }
}

/// The rule that `line` stands for, if any.
pub fn parse_line(line: &[char]) -> (rule: Option<FilterRule>)
    ensures
        match rule {
            Some(r) => parsed_line(line@) == Some(r@),
            None => parsed_line(line@) is None,
        },
{
    let (a, b) = text::trim_range(line, 0, line.len());
    let t = slice_subrange(line, a, b);
    proof {
        reveal_strlit("@@");
        assert(line@.subrange(0, line@.len() as int) =~= line@);
    }
    if t.len() == 0 {
        return None;
    }
    if t[0] == '!' || t[0] == '[' {
        return None;
    }
    let allow = text::matches_at(t, "@@", 0);
    let body = if allow {
        slice_subrange(t, 2, t.len())
    } else {
        t
    };
    let end = text::find_char(body, 0, body.len(), '$');
    proof {
        assert(body@.subrange(0, body@.len() as int) =~= body@);
        assert(body@.subrange(0, end as int) =~= body@.take(end as int));
    }
    if end == 0 {
        return None;
    }
    let rule_type = if allow {
        FilterRuleType::Allow
    } else if text::contains_str(t, "##") {
        FilterRuleType::Hide
    } else {
        FilterRuleType::Block
    };
    Some(
        FilterRule {
            pattern: text::string_of(body, 0, end),
            rule_type,
            domains: None,
            exceptions: None,
            options: FilterOptions::default(),
        },
    )
}

/// The rules that the text of a filter list stands for.
pub fn parse_rules(content: &str) -> (rules: Vec<FilterRule>)
    ensures
        rules_view(rules@) == parsed_rules(content@),
{
    let owned = text::chars_of(content);
    let chars = owned.as_slice();
    let n = chars.len();
    let mut rules: Vec<FilterRule> = Vec::new();
    let mut pos: usize = 0;
    let mut done = false;
    proof {
        assert(chars@.skip(0) =~= chars@);
        assert(rules_view(rules@) + parsed_rules(chars@) =~= parsed_rules(chars@));
    }
    while !done
        invariant
            n == chars@.len(),
            chars@ == content@,
            pos <= n,
            !done ==> parsed_rules(chars@) == rules_view(rules@) + parsed_rules(
                chars@.skip(pos as int),
            ),
            done ==> parsed_rules(chars@) == rules_view(rules@),
        decreases n - pos + (if done { 0int } else { 1int }),
    {
        let end = text::find_char(chars, pos, n, '\n');
        let line = slice_subrange(chars, pos, end);
        let ghost rest = chars@.skip(pos as int);
        let ghost before = rules_view(rules@);
        proof {
            assert(rest =~= chars@.subrange(pos as int, n as int));
            assert(rest.take(end - pos) =~= line@);
        }
        match parse_line(line) {
            Some(rule) => {
                rules.push(rule);
                proof {
                    assert(rules_view(rules@) =~= before + seq![rule@]);
                }
            },
            None => {
                proof {
                    assert(rules_view(rules@) =~= before + Seq::<FilterRuleView>::empty());
                }
            },
        }
        if end < n {
            proof {
                assert(rest.skip(end - pos + 1) =~= chars@.skip(end + 1));
                let head = rules_view(rules@).skip(before.len() as int);
                assert(rules_view(rules@) =~= before + head);
                assert(parsed_rules(rest) == head + parsed_rules(chars@.skip(end + 1)));
                assert(before + (head + parsed_rules(chars@.skip(end + 1))) =~= (before + head)
                    + parsed_rules(chars@.skip(end + 1)));
            }
            pos = end + 1;
        } else {
            done = true;
        }
    }
    rules
}

} // verus!

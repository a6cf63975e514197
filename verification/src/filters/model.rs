//! The mathematical value of the filter engine, and what follows from it.

use super::decision::{
    lemma_scan_order_without_rule, lemma_undecisive_rule_is_inert, scan_order, should_block,
    without_rule,
};
use super::rule::{resource_kind, FilterListView, FilterRuleView};
use super::shields::{
    law_counters_move_together, shields_after_block, stats_after_block, BlockCategory, GlobalStats,
    SiteShieldsView,
};
use crate::clock::Timestamp;
use vstd::prelude::*;

verus! {

/// The mathematical value of a [`FilterEngine`].
pub struct EngineView {
    /// The ids of the filter lists, in scan order.
    pub list_ids: Seq<Seq<char>>,
    /// The filter lists, each at the position of its id.
    pub lists: Seq<FilterListView>,
    /// The persisted shields, by domain.
    pub shields: Map<Seq<char>, SiteShieldsView>,
    /// The patterns that have a compiled matcher.
    pub compiled: Set<Seq<char>>,
    pub stats: GlobalStats,
}

impl EngineView {
    /// Each list has one id, no id occurs twice, and every rule is well
    /// formed.
    pub open spec fn well_formed(self) -> bool {
        &&& self.list_ids.len() == self.lists.len()
        &&& self.list_ids.no_duplicates()
        &&& forall|i: int| 0 <= i < self.lists.len() ==> (#[trigger] self.lists[i]).well_formed()
    }

    /// The built-in list with the given name and source, empty and enabled.
    pub open spec fn builtin_list(name: Seq<char>, url: Seq<char>, at: Timestamp) -> FilterListView {
        FilterListView { name, url, enabled: true, last_updated: at, rules: Seq::empty() }
    }

    /// The engine as it starts at `at`: the two built-in lists, empty and
    /// enabled, no shields, no compiled pattern, all counters at zero.
    pub open spec fn initial(at: Timestamp) -> EngineView {
        EngineView {
            list_ids: seq!["easylist"@, "easyprivacy"@],
            lists: seq![
                Self::builtin_list("EasyList"@, "https://easylist.to/easylist/easylist.txt"@, at),
                Self::builtin_list(
                    "EasyPrivacy"@,
                    "https://easylist.to/easylist/easyprivacy.txt"@,
                    at,
                ),
            ],
            shields: Map::empty(),
            compiled: Set::empty(),
            stats: GlobalStats::zeroed(Timestamp::epoch()),
        }
    }

    /// Whether the engine blocks a request, given what became of its URL.
    pub open spec fn blocks(
        self,
        target: Option<Option<Seq<char>>>,
        url: Seq<char>,
        request_type: Seq<char>,
        origin: Seq<char>,
    ) -> bool {
        should_block(scan_order(self.lists), self.shields, target, url, request_type, origin)
    }

    /// The shields of `domain`: the persisted entry where there is one, else
    /// the defaults, stamped with `at`.
    pub open spec fn shields_of(self, domain: Seq<char>, at: Timestamp) -> SiteShieldsView {
        if self.shields.contains_key(domain) {
            self.shields[domain]
        } else {
            SiteShieldsView::defaults(domain, at)
        }
    }

    /// Whether a filter list has the id `id`.
    pub open spec fn has_list(self, id: Seq<char>) -> bool {
        self.list_ids.contains(id)
    }

    /// The position of the list with the id `id`.
    pub open spec fn position(self, id: Seq<char>) -> int {
        self.list_ids.index_of(id)
    }

    /// The list with the id `id`.
    pub open spec fn list(self, id: Seq<char>) -> FilterListView {
        self.lists[self.position(id)]
    }

    /// This engine with `list` in the place of the list with the id `id`.
    pub open spec fn with_list(self, id: Seq<char>, list: FilterListView) -> EngineView {
        EngineView { lists: self.lists.update(self.position(id), list), ..self }
    }

    /// The id and the source of each enabled list among the first `n`, in
    /// order.
    pub open spec fn targets_upto(self, n: int) -> Seq<(Seq<char>, Seq<char>)>
        decreases n,
    {
        if n <= 0 {
            Seq::empty()
        } else if self.lists[n - 1].enabled {
            self.targets_upto(n - 1).push((self.list_ids[n - 1], self.lists[n - 1].url))
        } else {
            self.targets_upto(n - 1)
        }
    }

    /// What a refresh has to fetch: the id and the source of each enabled
    /// list, in order.
    pub open spec fn refresh_targets(self) -> Seq<(Seq<char>, Seq<char>)> {
        self.targets_upto(self.lists.len() as int)
    }

    /// In a well-formed engine the list with a given id stands at one
    /// position only.
    pub proof fn lemma_position(self, id: Seq<char>, i: int)
        requires
            self.well_formed(),
            0 <= i < self.list_ids.len(),
            self.list_ids[i] == id,
        ensures
            self.has_list(id),
            self.position(id) == i,
    {
    }

    /// The engine after a block of `block_type` on `domain` was reported at
    /// `now`. Without a persisted entry for the domain, nothing changes.
    pub open spec fn after_block(
        self,
        domain: Seq<char>,
        block_type: Seq<char>,
        now: Timestamp,
    ) -> EngineView {
        if self.shields.contains_key(domain) {
            EngineView {
                shields: self.shields.insert(
                    domain,
                    shields_after_block(self.shields[domain], self.stats, block_type, now),
                ),
                stats: stats_after_block(self.shields[domain], self.stats, block_type),
                ..self
            }
        } else {
            self
        }
    }
}

impl EngineView {
    /// This engine without the rule at position `r` of the list at position
    /// `l`.
    pub open spec fn without_rule(self, l: int, r: int) -> EngineView {
        EngineView { lists: self.lists.update(l, without_rule(self.lists[l], r)), ..self }
    }

    /// A rule that does not match a request never contributes to the
    /// decision on it: the engine decides as it does without the rule. This
    /// holds of a rule whose `domains` do not hold the origin, of a rule whose
    /// `exceptions` hold the origin, of a rule whose flags do not enable the
    /// request's resource kind, and of a rule whose pattern does not occur in
    /// the URL.
    pub proof fn law_unmatched_rule_never_contributes(
        self,
        l: int,
        r: int,
        target: Option<Option<Seq<char>>>,
        url: Seq<char>,
        request_type: Seq<char>,
        origin: Seq<char>,
    )
        requires
            0 <= l < self.lists.len(),
            0 <= r < self.lists[l].rules.len(),
            !self.lists[l].rules[r].matches(url, resource_kind(request_type), origin),
        ensures
            self.without_rule(l, r).blocks(target, url, request_type, origin) == self.blocks(
                target,
                url,
                request_type,
                origin,
            ),
    {
        lemma_scan_order_without_rule(self.lists, l, r);
        if self.lists[l].enabled {
            let at = scan_order(self.lists.take(l)).len() + r;
            lemma_undecisive_rule_is_inert(
                scan_order(self.lists),
                at,
                url,
                resource_kind(request_type),
                origin,
            );
        }
    }

    /// A domain without a persisted entry reads as the defaults: ad blocking,
    /// tracker blocking, fingerprinting protection and HTTPS-only on,
    /// third-party cookies off, nothing counted. Reading is a function of the
    /// state and stores nothing.
    pub proof fn law_unknown_domain_reads_defaults(self, domain: Seq<char>, at: Timestamp)
        requires
            !self.shields.contains_key(domain),
        ensures
            self.shields_of(domain, at).domain == domain,
            self.shields_of(domain, at).ad_blocking,
            self.shields_of(domain, at).tracker_blocking,
            !self.shields_of(domain, at).third_party_cookies,
            self.shields_of(domain, at).fingerprinting_protection,
            self.shields_of(domain, at).https_only,
            self.shields_of(domain, at).ads_blocked == 0,
            self.shields_of(domain, at).trackers_blocked == 0,
            self.shields_of(domain, at).scripts_blocked == 0,
    {
    }

    /// A block reported for a domain without a persisted entry changes
    /// nothing: neither a counter of the domain nor a global counter, and no
    /// entry comes into being.
    pub proof fn law_block_without_entry_changes_nothing(
        self,
        domain: Seq<char>,
        block_type: Seq<char>,
        now: Timestamp,
    )
        requires
            !self.shields.contains_key(domain),
        ensures
            self.after_block(domain, block_type, now) == self,
    {
    }

    /// A reported block never lowers a global counter. The global counter of
    /// a category and the domain's counter of that category rise by the same
    /// amount, one or nothing; the entries of all other domains stay as they
    /// are.
    pub proof fn law_counters_rise_together(
        self,
        domain: Seq<char>,
        block_type: Seq<char>,
        now: Timestamp,
        category: BlockCategory,
    )
        requires
            self.shields.contains_key(domain),
        ensures
            ({
                let after = self.after_block(domain, block_type, now);
                let risen = after.stats.counter(category) - self.stats.counter(category);
                &&& after.shields.dom() == self.shields.dom()
                &&& 0 <= risen <= 1
                &&& risen == after.shields[domain].counter(category) - self.shields[domain].counter(
                    category,
                )
                &&& forall|other: Seq<char>|
                    other != domain && self.shields.contains_key(other) ==> after.shields[other]
                        == self.shields[other]
            }),
    {
        law_counters_move_together(self.shields[domain], self.stats, block_type, now, category);
        let after = self.after_block(domain, block_type, now);
        assert(after.shields.dom() =~= self.shields.dom());
    }

    /// Compiled matchers change no decision: which patterns are compiled is
    /// no part of what `blocks` reads.
    pub proof fn law_compiled_patterns_decide_nothing(
        self,
        compiled: Set<Seq<char>>,
        target: Option<Option<Seq<char>>>,
        url: Seq<char>,
        request_type: Seq<char>,
        origin: Seq<char>,
    )
        ensures
            (EngineView { compiled, ..self }).blocks(target, url, request_type, origin)
                == self.blocks(target, url, request_type, origin),
    {
    }
}

/// The position of the first rule with the pattern `pattern`, or the number
/// of rules where none has it.
pub open spec fn rule_position(rules: Seq<FilterRuleView>, pattern: Seq<char>) -> int
    decreases rules.len(),
{
    if rules.len() == 0 {
        0
    } else if rules[0].pattern == pattern {
        0
    } else {
        1 + rule_position(rules.drop_first(), pattern)
    }
}

/// `rule_position` is the position of the first rule with the pattern, and
/// no other position is.
pub proof fn lemma_rule_position(rules: Seq<FilterRuleView>, pattern: Seq<char>, i: int)
    requires
        0 <= i <= rules.len(),
        forall|j: int| 0 <= j < i ==> (#[trigger] rules[j]).pattern != pattern,
        i < rules.len() ==> rules[i].pattern == pattern,
    ensures
        rule_position(rules, pattern) == i,
    decreases rules.len(),
{
    if rules.len() != 0 && i != 0 {
        let rest = rules.drop_first();
        assert(rules[0].pattern != pattern);
        assert forall|j: int| 0 <= j < i - 1 implies (#[trigger] rest[j]).pattern != pattern by {
            assert(rest[j] == rules[j + 1]);
        }
        lemma_rule_position(rest, pattern, i - 1);
    }
}

} // verus!

//! The filter engine: filter lists, per-site shields and global counters
//! behind one handle.

use super::decision::{
    is_first_decisive, lemma_first_decisive_after, lemma_first_decisive_decides,
    lemma_first_decisive_of_prefix, lemma_none_decides, lemma_none_decides_both,
    lemma_scan_order_prefix, lemma_scan_order_step, none_decides, rules_block, scan_order,
};
use super::error::{FilterError, FilterErrorKind};
use super::model::{lemma_rule_position, rule_position, EngineView};
use super::parser::{lemma_parsed_rules_plain, parse_rules, parsed_rules};
use super::pattern::{can_compile, PatternCache};
use super::rule::{
    all_well_formed, classify_request_type, clone_lists, clone_strings, lists_view, resource_kind,
    rules_view, strings_view, FilterList, FilterListView, FilterRule, FilterRuleType, ResourceKind,
};
use super::shields::{GlobalStats, SiteShields, SiteShieldsView};
use super::target::{parse_url, target_view, url_domain, ParsedUrl};
use crate::clock;
use crate::clock::Timestamp;
use crate::text;
use vstd::hash_map::StringHashMap;
use vstd::prelude::*;

verus! {

/// The engine that decides whether requests are blocked, and keeps the
/// shields and counters.
pub struct FilterEngine {
    list_ids: Vec<String>,
    lists: Vec<FilterList>,
    shields: StringHashMap<SiteShields>,
    shield_domains: Vec<String>,
    compiled: PatternCache,
    stats: GlobalStats,
}

impl View for FilterEngine {
    type V = EngineView;

    closed spec fn view(&self) -> EngineView {
        EngineView {
            list_ids: strings_view(self.list_ids@),
            lists: lists_view(self.lists@),
            shields: Map::new(
                |d: Seq<char>| self.shields@.contains_key(d),
                |d: Seq<char>| self.shields@[d]@,
            ),
            compiled: self.compiled.patterns(),
            stats: self.stats,
        }
    }
}

impl FilterEngine {
    /// The engine's invariant: its value is well formed, every compiled
    /// matcher agrees with substring search, and the list of persisted
    /// domains names each persisted entry once.
    pub closed spec fn wf(&self) -> bool {
        &&& self@.well_formed()
        &&& self.compiled.wf()
        &&& strings_view(self.shield_domains@).no_duplicates()
        &&& forall|d: Seq<char>|
            strings_view(self.shield_domains@).contains(d) <==> self.shields@.contains_key(d)
    }

    /// In every state that the engine reaches, each list has one id, no id
    /// occurs twice, and every rule has a pattern that is not empty.
    pub proof fn law_engine_is_well_formed(&self)
        requires
            self.wf(),
        ensures
            self@.well_formed(),
    {
    }

    /// A built-in list: empty, enabled, stamped with `at`.
    fn builtin_list(name: &str, url: &str, at: Timestamp) -> (list: FilterList)
        ensures
            list@ == EngineView::builtin_list(name@, url@, at),
    {
        let list = FilterList {
            name: name.to_string(),
            url: url.to_string(),
            enabled: true,
            last_updated: at,
            rules: Vec::new(),
        };
        assert(rules_view(list.rules@) =~= Seq::empty());
        list
    }

    /// The engine as it starts at `at`, with the two built-in lists.
    pub fn new_at(at: Timestamp) -> (engine: FilterEngine)
        ensures
            engine.wf(),
            engine@ == EngineView::initial(at),
    {
        let mut list_ids: Vec<String> = Vec::new();
        let mut lists: Vec<FilterList> = Vec::new();
        list_ids.push("easylist".to_string());
        lists.push(Self::builtin_list("EasyList", "https://easylist.to/easylist/easylist.txt", at));
        list_ids.push("easyprivacy".to_string());
        lists.push(
            Self::builtin_list("EasyPrivacy", "https://easylist.to/easylist/easyprivacy.txt", at),
        );
        let engine = FilterEngine {
            list_ids,
            lists,
            shields: StringHashMap::new(),
            shield_domains: Vec::new(),
            compiled: PatternCache::new(),
            stats: GlobalStats::default(),
        };
        proof {
            reveal_strlit("easylist");
            reveal_strlit("easyprivacy");
            assert("easylist"@.len() != "easyprivacy"@.len());
            assert(engine@.list_ids =~= seq!["easylist"@, "easyprivacy"@]);
            assert(engine@.lists =~= EngineView::initial(at).lists);
            assert(engine@.shields =~= Map::empty());
            assert(strings_view(engine.shield_domains@) =~= Seq::empty());
        }
        engine
    }

    /// The engine as it starts now, with the two built-in lists.
    pub fn new() -> (engine: FilterEngine)
        ensures
            engine.wf(),
            engine@ == EngineView::initial(engine@.lists[0].last_updated),
    {
        Self::new_at(clock::now())
    }

    /// Whether `rule` matches the request. The pattern is looked for by the
    /// compiled matcher where there is one, by substring search where there
    /// is none.
    fn rule_matches(
        &self,
        rule: &FilterRule,
        url: &str,
        url_chars: &[char],
        kind: ResourceKind,
        origin: &[char],
    ) -> (b: bool)
        requires
            self.wf(),
            url_chars@ == url@,
        ensures
            b == rule@.matches(url@, kind, origin@),
    {
        self.compiled.occurs_in(rule.pattern.as_str(), url, url_chars) && rule.in_scope(origin)
            && rule.options.applies_to(kind)
    }

    /// Whether `rule` matches a request for `url` of type `request_type`,
    /// made by a page of `origin_domain`.
    pub fn matches_rule(
        &self,
        url: &str,
        rule: &FilterRule,
        request_type: &str,
        origin_domain: &str,
    ) -> (b: bool)
        requires
            self.wf(),
        ensures
            b == rule@.matches(url@, resource_kind(request_type@), origin_domain@),
    {
        let url_chars = text::chars_of(url);
        let origin = text::chars_of(origin_domain);
        let kind = classify_request_type(request_type);
        self.rule_matches(rule, url, url_chars.as_slice(), kind, origin.as_slice())
    }

    /// Scans the rules of one list: what the first deciding rule says, if any
    /// rule decides.
    fn scan_rules(
        &self,
        rules: &Vec<FilterRule>,
        url: &str,
        url_chars: &[char],
        kind: ResourceKind,
        origin: &[char],
    ) -> (verdict: Option<bool>)
        requires
            self.wf(),
            url_chars@ == url@,
        ensures
            match verdict {
                Some(block) => exists|i: int|
                    is_first_decisive(rules_view(rules@), i, url@, kind, origin@) && block == (
                    rules_view(rules@)[i].rule_type is Block),
                None => none_decides(rules_view(rules@), url@, kind, origin@),
            },
    {
        let ghost all = rules_view(rules@);
        let mut i: usize = 0;
        while i < rules.len()
            invariant
                self.wf(),
                url_chars@ == url@,
                all == rules_view(rules@),
                i <= rules@.len(),
                none_decides(all.take(i as int), url@, kind, origin@),
            decreases rules@.len() - i,
        {
            let rule = &rules[i];
            assert(all[i as int] == rule@);
            if self.rule_matches(rule, url, url_chars, kind, origin) {
                match rule.rule_type {
                    FilterRuleType::Block => {
                        assert(is_first_decisive(all, i as int, url@, kind, origin@));
                        return Some(true);
                    },
                    FilterRuleType::Allow => {
                        assert(is_first_decisive(all, i as int, url@, kind, origin@));
                        return Some(false);
                    },
                    _ => {},
                }
            }
            proof {
                assert forall|j: int| 0 <= j < i + 1 implies !(#[trigger] all.take(i + 1)[j]).decides(
                    url@,
                    kind,
                    origin@,
                ) by {
                    if j < i {
                        assert(all.take(i as int)[j] == all[j]);
                    }
                }
            }
            i += 1;
        }
        proof {
            assert(all.take(i as int) =~= all);
        }
        None
    }

    /// Scans the enabled lists in order: whether the first deciding rule is a
    /// `Block`.
    fn scan_lists(&self, url: &str, url_chars: &[char], kind: ResourceKind, origin: &[char]) -> (block:
        bool)
        requires
            self.wf(),
            url_chars@ == url@,
        ensures
            block == rules_block(scan_order(self@.lists), url@, kind, origin@),
    {
        let ghost lists = self@.lists;
        let mut l: usize = 0;
        proof {
            assert(lists.take(0) =~= Seq::empty());
        }
        while l < self.lists.len()
            invariant
                self.wf(),
                url_chars@ == url@,
                lists == self@.lists,
                l <= self.lists@.len(),
                none_decides(scan_order(lists.take(l as int)), url@, kind, origin@),
            decreases self.lists@.len() - l,
        {
            let list = &self.lists[l];
            let ghost before = scan_order(lists.take(l as int));
            proof {
                assert(lists[l as int] == list@);
                lemma_scan_order_step(lists, l as int);
                lemma_scan_order_prefix(lists, l + 1);
            }
            if list.enabled {
                match self.scan_rules(&list.rules, url, url_chars, kind, origin) {
                    Some(block) => {
                        proof {
                            let i = choose|i: int|
                                is_first_decisive(list@.rules, i, url@, kind, origin@) && block == (
                                list@.rules[i].rule_type is Block);
                            lemma_first_decisive_after(before, list@.rules, i, url@, kind, origin@);
                            let n = scan_order(lists.take(l + 1)).len() as int;
                            lemma_first_decisive_of_prefix(
                                scan_order(lists),
                                n,
                                before.len() + i,
                                url@,
                                kind,
                                origin@,
                            );
                            lemma_first_decisive_decides(
                                scan_order(lists),
                                before.len() + i,
                                url@,
                                kind,
                                origin@,
                            );
                            assert(scan_order(lists)[before.len() + i] == list@.rules[i]);
                        }
                        return block;
                    },
                    None => {
                        proof {
                            lemma_none_decides_both(before, list@.rules, url@, kind, origin@);
                        }
                    },
                }
            } else {
                proof {
                    assert(before + list@.scanned_rules() =~= before);
                }
            }
            l += 1;
        }
        proof {
            assert(lists.take(l as int) =~= lists);
            lemma_none_decides(scan_order(lists), url@, kind, origin@);
        }
        false
    }

    /// Whether a request is blocked, given what became of its URL: `None`
    /// where the URL did not parse, else the parsed URL.
    pub fn decide(
        &self,
        target: Option<ParsedUrl>,
        url: &str,
        request_type: &str,
        origin_domain: &str,
    ) -> (block: bool)
        requires
            self.wf(),
        ensures
            block == self@.blocks(target_view(target), url@, request_type@, origin_domain@),
    {
        let parsed = match target {
            Some(parsed) => parsed,
            None => {
                return false;
            },
        };
        let origin_chars = text::chars_of(origin_domain);
        let origin = origin_chars.as_slice();
        match self.shields.get(origin_domain) {
            Some(shields) => {
                if !shields.ad_blocking && !shields.tracker_blocking {
                    return false;
                }
                if shields.third_party_cookies {
                    let same_site = match &parsed.domain {
                        Some(domain) => text::equals_str(origin, domain.as_str()),
                        None => origin.len() == 0,
                    };
                    proof {
                        if parsed.domain is None {
                            assert((origin@.len() == 0) == (origin@ =~= Seq::<char>::empty()));
                        }
                    }
                    if !same_site {
                        return true;
                    }
                }
            },
            None => {},
        }
        let url_chars = text::chars_of(url);
        let kind = classify_request_type(request_type);
        self.scan_lists(url, url_chars.as_slice(), kind, origin)
    }

    /// Whether a request for `url` of type `request_type`, made by a page of
    /// `origin_domain`, is blocked. A URL that does not parse is never
    /// blocked.
    pub fn should_block_request(&self, url: &str, request_type: &str, origin_domain: &str) -> (block:
        bool)
        requires
            self.wf(),
        ensures
            block == self@.blocks(url_domain(url@), url@, request_type@, origin_domain@),
    {
        self.decide(parse_url(url), url, request_type, origin_domain)
    }
}

/// One list that a refresh has to fetch.
#[derive(Debug, Clone, PartialEq, Eq)]
pub struct RefreshTarget {
    pub list_id: String,
    pub url: String,
}

impl View for RefreshTarget {
    type V = (Seq<char>, Seq<char>);

    open spec fn view(&self) -> (Seq<char>, Seq<char>) {
        (self.list_id@, self.url@)
    }
}

/// The values of a sequence of refresh targets.
pub open spec fn targets_view(targets: Seq<RefreshTarget>) -> Seq<(Seq<char>, Seq<char>)> {
    targets.map_values(|t: RefreshTarget| t@)
}

impl FilterEngine {
    /// Stores `shields` as the entry of `domain`, in place of any earlier
    /// entry.
    pub fn update_site_shields(&mut self, domain: &str, shields: SiteShields)
        requires
            old(self).wf(),
        ensures
            final(self).wf(),
            final(self)@ == (EngineView {
                shields: old(self)@.shields.insert(domain@, shields@),
                ..old(self)@
            }),
    {
        let ghost before = strings_view(self.shield_domains@);
        if !self.shields.contains_key(domain) {
            self.shield_domains.push(domain.to_string());
            proof {
                assert(strings_view(self.shield_domains@) =~= before.push(domain@));
            }
        }
        self.shields.insert(domain.to_string(), shields);
        proof {
            let after = strings_view(self.shield_domains@);
            assert forall|d: Seq<char>| after.contains(d) <==> self.shields@.contains_key(d) by {
                if after.contains(d) {
                    let i = choose|i: int| 0 <= i < after.len() && after[i] == d;
                    if i < before.len() {
                        assert(before[i] == d);
                    }
                }
                if self.shields@.contains_key(d) {
                    if d == domain@ {
                        if old(self).shields@.contains_key(d) {
                            let i = choose|i: int| 0 <= i < before.len() && before[i] == d;
                            assert(after[i] == d);
                        } else {
                            assert(after[after.len() - 1] == d);
                        }
                    } else {
                        let i = choose|i: int| 0 <= i < before.len() && before[i] == d;
                        assert(after[i] == d);
                    }
                }
            }
            assert(final(self)@.shields =~= old(self)@.shields.insert(domain@, shields@));
        }
    }

    /// The shields of `domain`: a copy of the persisted entry where there is
    /// one, else the defaults, stamped with `at`. Nothing is stored.
    pub fn get_site_shields_at(&self, domain: &str, at: Timestamp) -> (shields: SiteShields)
        requires
            self.wf(),
        ensures
            shields@ == self@.shields_of(domain@, at),
    {
        match self.shields.get(domain) {
            Some(entry) => entry.clone(),
            None => SiteShields::default_for(domain, at),
        }
    }

    /// The shields of `domain`: a copy of the persisted entry where there is
    /// one, else the defaults, stamped with the current time. Nothing is
    /// stored.
    pub fn get_site_shields(&self, domain: &str) -> (shields: SiteShields)
        requires
            self.wf(),
        ensures
            shields@ == self@.shields_of(domain@, shields@.last_updated),
    {
        match self.shields.get(domain) {
            Some(entry) => entry.clone(),
            None => SiteShields::default_for(domain, clock::now()),
        }
    }

    /// Whether `domain` has a persisted entry.
    pub fn has_site_shields(&self, domain: &str) -> (b: bool)
        requires
            self.wf(),
        ensures
            b == self@.shields.contains_key(domain@),
    {
        self.shields.contains_key(domain)
    }

    /// The domains that have a persisted entry, each once.
    pub fn site_shields_domains(&self) -> (domains: Vec<String>)
        requires
            self.wf(),
        ensures
            strings_view(domains@).no_duplicates(),
            forall|d: Seq<char>|
                strings_view(domains@).contains(d) <==> self@.shields.contains_key(d),
    {
        clone_strings(&self.shield_domains)
    }

    /// Reports at `now` that a request of a page of `domain` was blocked.
    ///
    /// Where `domain` has a persisted entry, its `last_updated` becomes
    /// `now`, and the entry's and the global counter of the category that
    /// `block_type` names rise by one, both or neither. Without an entry
    /// nothing changes.
    pub fn increment_blocked_count_at(&mut self, domain: &str, block_type: &str, now: Timestamp)
        requires
            old(self).wf(),
        ensures
            final(self).wf(),
            final(self)@ == old(self)@.after_block(domain@, block_type@, now),
    {
        let updated = match self.shields.get(domain) {
            Some(entry) => Some(entry.record_block(self.stats, block_type, now)),
            None => None,
        };
        match updated {
            Some((entry, stats)) => {
                self.shields.insert(domain.to_string(), entry);
                self.stats = stats;
                proof {
                    assert(final(self)@.shields =~= old(self)@.after_block(
                        domain@,
                        block_type@,
                        now,
                    ).shields);
                }
            },
            None => {
                proof {
                    assert(final(self)@.shields =~= old(self)@.shields);
                }
            },
        }
    }

    /// Reports that a request of a page of `domain` was blocked just now.
    /// Without a persisted entry for `domain` nothing changes.
    pub fn increment_blocked_count(&mut self, domain: &str, block_type: &str)
        requires
            old(self).wf(),
        ensures
            final(self).wf(),
            !old(self)@.shields.contains_key(domain@) ==> final(self)@ == old(self)@,
            old(self)@.shields.contains_key(domain@) ==> final(self)@ == old(self)@.after_block(
                domain@,
                block_type@,
                final(self)@.shields[domain@].last_updated,
            ),
    {
        if self.shields.contains_key(domain) {
            self.increment_blocked_count_at(domain, block_type, clock::now());
        }
    }

    /// The global counters.
    pub fn global_stats(&self) -> (stats: GlobalStats)
        ensures
            stats == self@.stats,
    {
        self.stats
    }

    /// Sets every global counter to zero and `last_reset` to `now`.
    pub fn reset_stats_at(&mut self, now: Timestamp)
        requires
            old(self).wf(),
        ensures
            final(self).wf(),
            final(self)@ == (EngineView { stats: GlobalStats::zeroed(now), ..old(self)@ }),
    {
        self.stats = GlobalStats::zeroed(now);
        proof {
            assert(final(self)@.shields =~= old(self)@.shields);
        }
    }

    /// Sets every global counter to zero and `last_reset` to the current
    /// time.
    pub fn reset_stats(&mut self)
        requires
            old(self).wf(),
        ensures
            final(self).wf(),
            final(self)@ == (EngineView {
                stats: GlobalStats::zeroed(final(self)@.stats.last_reset),
                ..old(self)@
            }),
    {
        self.reset_stats_at(clock::now());
    }

    /// The position of the list with the id `list_id`, if there is one.
    fn find_list(&self, list_id: &str) -> (found: Option<usize>)
        requires
            self.wf(),
        ensures
            match found {
                Some(i) => i < self@.lists.len() && self@.has_list(list_id@) && self@.position(
                    list_id@,
                ) == i,
                None => !self@.has_list(list_id@),
            },
    {
        let id_chars = text::chars_of(list_id);
        let mut i: usize = 0;
        while i < self.list_ids.len()
            invariant
                self.wf(),
                id_chars@ == list_id@,
                i <= self.list_ids@.len(),
                forall|j: int| 0 <= j < i ==> (#[trigger] self@.list_ids[j]) != list_id@,
            decreases self.list_ids@.len() - i,
        {
            if text::equals_str(id_chars.as_slice(), self.list_ids[i].as_str()) {
                proof {
                    assert(self@.list_ids[i as int] == list_id@);
                    self@.lemma_position(list_id@, i as int);
                }
                return Some(i);
            }
            i += 1;
        }
        None
    }

    /// The ids of the filter lists, in scan order.
    pub fn list_ids(&self) -> (ids: Vec<String>)
        ensures
            strings_view(ids@) == self@.list_ids,
    {
        clone_strings(&self.list_ids)
    }

    /// A copy of the list with the id `list_id`, if there is one.
    pub fn filter_list(&self, list_id: &str) -> (list: Option<FilterList>)
        requires
            self.wf(),
        ensures
            match list {
                Some(l) => self@.has_list(list_id@) && l@ == self@.list(list_id@),
                None => !self@.has_list(list_id@),
            },
    {
        match self.find_list(list_id) {
            Some(i) => {
                let copy = self.lists[i].clone();
                assert(self@.lists[i as int] == self.lists@[i as int]@);
                Some(copy)
            },
            None => None,
        }
    }

    /// Takes the list at position `i` out for a change; `put_back` ends it.
    fn take_list(&mut self, i: usize) -> (list: FilterList)
        requires
            old(self).wf(),
            i < old(self)@.lists.len(),
        ensures
            list@ == old(self)@.lists[i as int],
            list@.well_formed(),
            final(self).list_ids == old(self).list_ids,
            final(self).lists@ == old(self).lists@.remove(i as int),
            final(self).shields == old(self).shields,
            final(self).shield_domains == old(self).shield_domains,
            final(self).compiled == old(self).compiled,
            final(self).stats == old(self).stats,
    {
        assert(self@.lists[i as int] == self.lists@[i as int]@);
        self.lists.remove(i)
    }

    /// Puts `list` back at position `i`, after `take_list`.
    fn put_back(&mut self, Ghost(before): Ghost<FilterEngine>, i: usize, list: FilterList)
        requires
            before.wf(),
            i < before@.lists.len(),
            list@.well_formed(),
            old(self).list_ids == before.list_ids,
            old(self).lists@ == before.lists@.remove(i as int),
            old(self).shields == before.shields,
            old(self).shield_domains == before.shield_domains,
            old(self).compiled == before.compiled,
            old(self).stats == before.stats,
        ensures
            final(self).wf(),
            final(self)@ == (EngineView { lists: before@.lists.update(i as int, list@), ..before@ }),
    {
        let ghost value = list@;
        self.lists.insert(i, list);
        proof {
            assert(final(self)@.lists =~= before@.lists.update(i as int, value));
            assert(final(self)@.shields =~= before@.shields);
        }
    }

    /// Enables or disables the list with the id `list_id`. Fails where there
    /// is no such list.
    pub fn set_list_enabled(&mut self, list_id: &str, enabled: bool) -> (done: Result<
        (),
        FilterError,
    >)
        requires
            old(self).wf(),
        ensures
            final(self).wf(),
            match done {
                Ok(()) => old(self)@.has_list(list_id@) && final(self)@ == old(self)@.with_list(
                    list_id@,
                    (FilterListView { enabled, ..old(self)@.list(list_id@) }),
                ),
                Err(e) => !old(self)@.has_list(list_id@) && final(self)@ == old(self)@
                    && e.is_plain(FilterErrorKind::ListNotFound),
            },
    {
        match self.find_list(list_id) {
            Some(i) => {
                let ghost before = *self;
                let mut list = self.take_list(i);
                list.enabled = enabled;
                self.put_back(Ghost(before), i, list);
                Ok(())
            },
            None => Err(FilterError::of_kind(FilterErrorKind::ListNotFound)),
        }
    }

    /// Whether every rule of `rules` is well formed.
    fn rules_well_formed(rules: &Vec<FilterRule>) -> (b: bool)
        ensures
            b == all_well_formed(rules_view(rules@)),
    {
        let mut i: usize = 0;
        while i < rules.len()
            invariant
                i <= rules@.len(),
                forall|j: int| 0 <= j < i ==> (#[trigger] rules_view(rules@)[j]).well_formed(),
            decreases rules@.len() - i,
        {
            if !rules[i].is_well_formed() {
                assert(!rules_view(rules@)[i as int].well_formed());
                return false;
            }
            i += 1;
        }
        true
    }

    /// Adds `list` under the id `list_id`, behind the lists that are there.
    /// Fails where the id is taken, or where a rule of the list has an empty
    /// pattern.
    pub fn add_filter_list(&mut self, list_id: &str, list: FilterList) -> (done: Result<
        (),
        FilterError,
    >)
        requires
            old(self).wf(),
        ensures
            final(self).wf(),
            match done {
                Ok(()) => !old(self)@.has_list(list_id@) && list@.well_formed() && final(self)@ == (
                EngineView {
                    list_ids: old(self)@.list_ids.push(list_id@),
                    lists: old(self)@.lists.push(list@),
                    ..old(self)@
                }),
                Err(e) => final(self)@ == old(self)@ && if old(self)@.has_list(list_id@) {
                    e.is_plain(FilterErrorKind::ListExists)
                } else {
                    !list@.well_formed() && e.is_plain(FilterErrorKind::InvalidRule)
                },
            },
    {
        if self.find_list(list_id).is_some() {
            return Err(FilterError::of_kind(FilterErrorKind::ListExists));
        }
        if !Self::rules_well_formed(&list.rules) {
            return Err(FilterError::of_kind(FilterErrorKind::InvalidRule));
        }
        let ghost value = list@;
        self.list_ids.push(list_id.to_string());
        self.lists.push(list);
        proof {
            assert(final(self)@.list_ids =~= old(self)@.list_ids.push(list_id@));
            assert(final(self)@.lists =~= old(self)@.lists.push(value));
            assert(final(self)@.shields =~= old(self)@.shields);
        }
        Ok(())
    }

    /// Removes the list with the id `list_id`. Fails where there is no such
    /// list.
    pub fn remove_filter_list(&mut self, list_id: &str) -> (done: Result<(), FilterError>)
        requires
            old(self).wf(),
        ensures
            final(self).wf(),
            match done {
                Ok(()) => old(self)@.has_list(list_id@) && final(self)@ == (EngineView {
                    list_ids: old(self)@.list_ids.remove(old(self)@.position(list_id@)),
                    lists: old(self)@.lists.remove(old(self)@.position(list_id@)),
                    ..old(self)@
                }),
                Err(e) => !old(self)@.has_list(list_id@) && final(self)@ == old(self)@
                    && e.is_plain(FilterErrorKind::ListNotFound),
            },
    {
        match self.find_list(list_id) {
            Some(i) => {
                self.list_ids.remove(i);
                self.lists.remove(i);
                proof {
                    assert(final(self)@.list_ids =~= old(self)@.list_ids.remove(i as int));
                    assert(final(self)@.lists =~= old(self)@.lists.remove(i as int));
                    assert(final(self)@.shields =~= old(self)@.shields);
                }
                Ok(())
            },
            None => Err(FilterError::of_kind(FilterErrorKind::ListNotFound)),
        }
    }

    /// Adds `rule` at the end of the list with the id `list_id`. Fails where
    /// there is no such list, or where the rule's pattern is empty.
    pub fn add_custom_rule(&mut self, list_id: &str, rule: FilterRule) -> (done: Result<
        (),
        FilterError,
    >)
        requires
            old(self).wf(),
        ensures
            final(self).wf(),
            match done {
                Ok(()) => old(self)@.has_list(list_id@) && rule@.well_formed() && final(self)@
                    == old(self)@.with_list(
                    list_id@,
                    (FilterListView {
                        rules: old(self)@.list(list_id@).rules.push(rule@),
                        ..old(self)@.list(list_id@)
                    }),
                ),
                Err(e) => final(self)@ == old(self)@ && if !old(self)@.has_list(list_id@) {
                    e.is_plain(FilterErrorKind::ListNotFound)
                } else {
                    !rule@.well_formed() && e.is_plain(FilterErrorKind::InvalidRule)
                },
            },
    {
        let i = match self.find_list(list_id) {
            Some(i) => i,
            None => {
                return Err(FilterError::of_kind(FilterErrorKind::ListNotFound));
            },
        };
        if !rule.is_well_formed() {
            return Err(FilterError::of_kind(FilterErrorKind::InvalidRule));
        }
        let ghost before = *self;
        let ghost value = rule@;
        let mut list = self.take_list(i);
        let ghost rules_before = list@.rules;
        list.rules.push(rule);
        proof {
            assert(list@.rules =~= rules_before.push(value));
        }
        self.put_back(Ghost(before), i, list);
        Ok(())
    }

    /// The position of the first of `rules` with the pattern `pattern`, or
    /// their number where none has it.
    fn find_rule(rules: &Vec<FilterRule>, pattern: &str) -> (at: usize)
        ensures
            at <= rules@.len(),
            at == rule_position(rules_view(rules@), pattern@),
    {
        let chars = text::chars_of(pattern);
        let mut i: usize = 0;
        while i < rules.len()
            invariant
                chars@ == pattern@,
                i <= rules@.len(),
                forall|j: int| 0 <= j < i ==> (#[trigger] rules_view(rules@)[j]).pattern != pattern@,
            decreases rules@.len() - i,
        {
            if text::equals_str(chars.as_slice(), rules[i].pattern.as_str()) {
                proof {
                    assert(rules_view(rules@)[i as int].pattern == pattern@);
                    lemma_rule_position(rules_view(rules@), pattern@, i as int);
                }
                return i;
            }
            i += 1;
        }
        proof {
            lemma_rule_position(rules_view(rules@), pattern@, i as int);
        }
        i
    }

    /// Removes the first rule with the pattern `pattern` from the list with
    /// the id `list_id`. Fails where there is no such list, or no such rule
    /// in it.
    pub fn remove_custom_rule(&mut self, list_id: &str, pattern: &str) -> (done: Result<
        (),
        FilterError,
    >)
        requires
            old(self).wf(),
        ensures
            final(self).wf(),
            match done {
                Ok(()) => {
                    let rules = old(self)@.list(list_id@).rules;
                    &&& old(self)@.has_list(list_id@)
                    &&& rule_position(rules, pattern@) < rules.len()
                    &&& final(self)@ == old(self)@.with_list(
                        list_id@,
                        (FilterListView {
                            rules: rules.remove(rule_position(rules, pattern@)),
                            ..old(self)@.list(list_id@)
                        }),
                    )
                },
                Err(e) => final(self)@ == old(self)@ && if !old(self)@.has_list(list_id@) {
                    e.is_plain(FilterErrorKind::ListNotFound)
                } else {
                    rule_position(old(self)@.list(list_id@).rules, pattern@) >= old(self)@.list(
                        list_id@,
                    ).rules.len() && e.is_plain(FilterErrorKind::RuleNotFound)
                },
            },
    {
        let i = match self.find_list(list_id) {
            Some(i) => i,
            None => {
                return Err(FilterError::of_kind(FilterErrorKind::ListNotFound));
            },
        };
        assert(self@.lists[i as int] == self.lists@[i as int]@);
        let at = Self::find_rule(&self.lists[i].rules, pattern);
        if at >= self.lists[i].rules.len() {
            return Err(FilterError::of_kind(FilterErrorKind::RuleNotFound));
        }
        let ghost before = *self;
        let mut list = self.take_list(i);
        let ghost rules_before = list@.rules;
        list.rules.remove(at);
        proof {
            assert(list@.rules =~= rules_before.remove(at as int));
        }
        self.put_back(Ghost(before), i, list);
        Ok(())
    }

    /// What a refresh has to fetch: the id and the source of each enabled
    /// list, in scan order.
    pub fn refresh_targets(&self) -> (targets: Vec<RefreshTarget>)
        requires
            self.wf(),
        ensures
            targets_view(targets@) == self@.refresh_targets(),
    {
        let mut targets: Vec<RefreshTarget> = Vec::new();
        let mut i: usize = 0;
        proof {
            assert(targets_view(targets@) =~= self@.targets_upto(0));
        }
        while i < self.lists.len()
            invariant
                self.wf(),
                i <= self.lists@.len(),
                targets_view(targets@) == self@.targets_upto(i as int),
            decreases self.lists@.len() - i,
        {
            let ghost so_far = targets_view(targets@);
            proof {
                assert(self@.lists[i as int] == self.lists@[i as int]@);
                assert(self@.list_ids[i as int] == self.list_ids@[i as int]@);
            }
            if self.lists[i].enabled {
                let target = RefreshTarget {
                    list_id: self.list_ids[i].clone(),
                    url: self.lists[i].url.clone(),
                };
                targets.push(target);
                proof {
                    assert(targets_view(targets@) =~= so_far.push(target@));
                }
            }
            i += 1;
        }
        targets
    }

    /// Puts `rules` in the place of the rules of the list with the id
    /// `list_id`, as a whole, and sets its `last_updated` to `now`. Fails where
    /// there is no such list, or where a rule has an empty pattern; nothing
    /// changes then.
    pub fn install_rules_at(&mut self, list_id: &str, rules: Vec<FilterRule>, now: Timestamp) -> (done:
        Result<(), FilterError>)
        requires
            old(self).wf(),
        ensures
            final(self).wf(),
            match done {
                Ok(()) => old(self)@.has_list(list_id@) && all_well_formed(rules_view(rules@))
                    && final(self)@ == old(self)@.with_list(
                    list_id@,
                    (FilterListView {
                        rules: rules_view(rules@),
                        last_updated: now,
                        ..old(self)@.list(list_id@)
                    }),
                ),
                Err(e) => final(self)@ == old(self)@ && if !old(self)@.has_list(list_id@) {
                    e.is_plain(FilterErrorKind::ListNotFound)
                } else {
                    !all_well_formed(rules_view(rules@)) && e.is_plain(FilterErrorKind::InvalidRule)
                },
            },
    {
        let i = match self.find_list(list_id) {
            Some(i) => i,
            None => {
                return Err(FilterError::of_kind(FilterErrorKind::ListNotFound));
            },
        };
        if !Self::rules_well_formed(&rules) {
            return Err(FilterError::of_kind(FilterErrorKind::InvalidRule));
        }
        let ghost before = *self;
        let mut list = self.take_list(i);
        list.rules = rules;
        list.last_updated = now;
        self.put_back(Ghost(before), i, list);
        Ok(())
    }

    /// Puts `rules` in the place of the rules of the list with the id
    /// `list_id` and stamps the list with the current time; see
    /// [`FilterEngine::install_rules_at`].
    pub fn install_rules(&mut self, list_id: &str, rules: Vec<FilterRule>) -> (done: Result<
        (),
        FilterError,
    >)
        requires
            old(self).wf(),
        ensures
            final(self).wf(),
            match done {
                Ok(()) => old(self)@.has_list(list_id@) && all_well_formed(rules_view(rules@))
                    && final(self)@ == old(self)@.with_list(
                    list_id@,
                    (FilterListView {
                        rules: rules_view(rules@),
                        last_updated: final(self)@.list(list_id@).last_updated,
                        ..old(self)@.list(list_id@)
                    }),
                ),
                Err(e) => final(self)@ == old(self)@ && if !old(self)@.has_list(list_id@) {
                    e.is_plain(FilterErrorKind::ListNotFound)
                } else {
                    !all_well_formed(rules_view(rules@)) && e.is_plain(FilterErrorKind::InvalidRule)
                },
            },
    {
        self.install_rules_at(list_id, rules, clock::now())
    }

    /// Ends the refresh of one list at `now`, with what the fetch of its
    /// source gave: the text of the list, or the reason why there is none.
    ///
    /// On a text the list's rules become the rules parsed from it, as a whole,
    /// and `last_updated` becomes `now`. On a failed fetch, and where there is
    /// no list with the id, nothing changes and the failure is reported.
    pub fn apply_refresh_at(
        &mut self,
        list_id: &str,
        fetched: Result<String, String>,
        now: Timestamp,
    ) -> (done: Result<(), FilterError>)
        requires
            old(self).wf(),
        ensures
            final(self).wf(),
            match done {
                Ok(()) => old(self)@.has_list(list_id@) && fetched is Ok && final(self)@ == old(self)@.with_list(
                    list_id@,
                    (FilterListView {
                        rules: parsed_rules(fetched->Ok_0@),
                        last_updated: now,
                        ..old(self)@.list(list_id@)
                    }),
                ),
                Err(e) => final(self)@ == old(self)@ && if !old(self)@.has_list(list_id@) {
                    e.is_plain(FilterErrorKind::ListNotFound)
                } else {
                    fetched is Err && e.kind == FilterErrorKind::FetchFailed && e.message@
                        == fetched->Err_0@
                },
            },
    {
        let i = match self.find_list(list_id) {
            Some(i) => i,
            None => {
                return Err(FilterError::of_kind(FilterErrorKind::ListNotFound));
            },
        };
        match fetched {
            Ok(content) => {
                let rules = parse_rules(content.as_str());
                proof {
                    assert forall|k: int| 0 <= k < parsed_rules(content@).len() implies (
                    #[trigger] parsed_rules(content@)[k]).well_formed() by {
                        lemma_parsed_rules_plain(content@, k);
                    }
                    assert(all_well_formed(parsed_rules(content@)));
                }
                let ghost before = *self;
                let mut list = self.take_list(i);
                list.rules = rules;
                list.last_updated = now;
                self.put_back(Ghost(before), i, list);
                Ok(())
            },
            Err(reason) => Err(FilterError::fetch_failed(reason)),
        }
    }

    /// Ends the refresh of one list now; see [`FilterEngine::apply_refresh_at`].
    pub fn apply_refresh(&mut self, list_id: &str, fetched: Result<String, String>) -> (done:
        Result<(), FilterError>)
        requires
            old(self).wf(),
        ensures
            final(self).wf(),
            match done {
                Ok(()) => old(self)@.has_list(list_id@) && fetched is Ok && final(self)@ == old(self)@.with_list(
                    list_id@,
                    (FilterListView {
                        rules: parsed_rules(fetched->Ok_0@),
                        last_updated: final(self)@.list(list_id@).last_updated,
                        ..old(self)@.list(list_id@)
                    }),
                ),
                Err(e) => final(self)@ == old(self)@ && if !old(self)@.has_list(list_id@) {
                    e.is_plain(FilterErrorKind::ListNotFound)
                } else {
                    fetched is Err && e.kind == FilterErrorKind::FetchFailed && e.message@
                        == fetched->Err_0@
                },
            },
    {
        self.apply_refresh_at(list_id, fetched, clock::now())
    }

    /// The rules that the text of a filter list stands for.
    pub fn parse_filter_rules(content: &str) -> (rules: Vec<FilterRule>)
        ensures
            rules_view(rules@) == parsed_rules(content@),
    {
        parse_rules(content)
    }

    /// Compiles a matcher for `pattern` and caches it, so that rules with
    /// this pattern are matched by it. Returns whether the pattern could be
    /// compiled. No decision of the engine changes.
    pub fn compile_pattern(&mut self, pattern: &str) -> (cached: bool)
        requires
            old(self).wf(),
        ensures
            final(self).wf(),
            cached == can_compile(pattern@),
            final(self)@ == (EngineView {
                compiled: if cached {
                    old(self)@.compiled.insert(pattern@)
                } else {
                    old(self)@.compiled
                },
                ..old(self)@
            }),
    {
        let cached = self.compiled.compile(pattern);
        proof {
            assert(final(self)@.shields =~= old(self)@.shields);
        }
        cached
    }

    /// Whether `pattern` has a compiled matcher.
    pub fn is_compiled(&self, pattern: &str) -> (b: bool)
        ensures
            b == self@.compiled.contains(pattern@),
    {
        self.compiled.is_compiled(pattern)
    }
}

/// The persisted shields of one domain, as part of a stored state.
#[derive(Debug, PartialEq, Eq)]
pub struct ShieldsEntry {
    /// The domain that the shields are stored under.
    pub domain: String,
    pub shields: SiteShields,
}

/// The whole state of an engine as plain data, for a store to keep between
/// runs. Compiled matchers are not part of it: they are made again on
/// demand.
#[derive(Debug, PartialEq, Eq)]
pub struct EngineState {
    /// The ids of the filter lists, in scan order.
    pub list_ids: Vec<String>,
    /// The filter lists, each at the position of its id.
    pub lists: Vec<FilterList>,
    /// The persisted shields. Of two entries for one domain the later counts.
    pub shields: Vec<ShieldsEntry>,
    pub stats: GlobalStats,
}

/// The shields by domain that a sequence of entries stands for: each entry
/// stored under its domain, one after the other.
pub open spec fn shields_of_entries(entries: Seq<ShieldsEntry>) -> Map<Seq<char>, SiteShieldsView>
    decreases entries.len(),
{
    if entries.len() == 0 {
        Map::empty()
    } else {
        shields_of_entries(entries.drop_last()).insert(
            entries.last().domain@,
            entries.last().shields@,
        )
    }
}

impl View for EngineState {
    type V = EngineView;

    /// The engine that the state stands for, without compiled matchers.
    open spec fn view(&self) -> EngineView {
        EngineView {
            list_ids: strings_view(self.list_ids@),
            lists: lists_view(self.lists@),
            shields: shields_of_entries(self.shields@),
            compiled: Set::empty(),
            stats: self.stats,
        }
    }
}

/// Whether some text stands twice in `items`.
fn has_duplicates(items: &Vec<String>) -> (b: bool)
    ensures
        b == !strings_view(items@).no_duplicates(),
{
    let ghost texts = strings_view(items@);
    let mut i: usize = 0;
    while i < items.len()
        invariant
            i <= items@.len(),
            texts == strings_view(items@),
            forall|a: int, b: int| 0 <= a < b < i ==> texts[a] != texts[b],
        decreases items@.len() - i,
    {
        let chars = text::chars_of(items[i].as_str());
        let mut j: usize = 0;
        while j < i
            invariant
                j <= i < items@.len(),
                texts == strings_view(items@),
                chars@ == texts[i as int],
                forall|a: int| 0 <= a < j ==> texts[a] != texts[i as int],
            decreases i - j,
        {
            if text::equals_str(chars.as_slice(), items[j].as_str()) {
                assert(texts[j as int] == texts[i as int]);
                return true;
            }
            j += 1;
        }
        i += 1;
    }
    proof {
        assert forall|a: int, b: int|
            0 <= a < texts.len() && 0 <= b < texts.len() && a != b implies texts[a] != texts[b] by {
            if a < b {
                assert(texts[a] != texts[b]);
            } else {
                assert(texts[b] != texts[a]);
            }
        }
    }
    false
}

impl FilterEngine {
    /// The whole state of the engine but its compiled matchers, as plain
    /// data.
    pub fn export_state(&self) -> (state: EngineState)
        requires
            self.wf(),
        ensures
            state@ == (EngineView { compiled: Set::empty(), ..self@ }),
            state@.well_formed(),
    {
        let mut entries: Vec<ShieldsEntry> = Vec::new();
        let ghost domains = strings_view(self.shield_domains@);
        let mut i: usize = 0;
        while i < self.shield_domains.len()
            invariant
                self.wf(),
                domains == strings_view(self.shield_domains@),
                i <= self.shield_domains@.len(),
                shields_of_entries(entries@) =~= Map::new(
                    |d: Seq<char>| domains.take(i as int).contains(d),
                    |d: Seq<char>| self@.shields[d],
                ),
            decreases self.shield_domains@.len() - i,
        {
            let domain = &self.shield_domains[i];
            proof {
                assert(domains[i as int] == domain@);
                assert(domains.contains(domain@));
            }
            let ghost before = entries@;
            match self.shields.get(domain.as_str()) {
                Some(shields) => {
                    let entry = ShieldsEntry { domain: domain.clone(), shields: shields.clone() };
                    entries.push(entry);
                    proof {
                        assert(entries@.drop_last() =~= before);
                        assert(entries@.last() == entry);
                        let target = Map::new(
                            |d: Seq<char>| domains.take(i + 1).contains(d),
                            |d: Seq<char>| self@.shields[d],
                        );
                        let shorter = domains.take(i as int);
                        let longer = domains.take(i + 1);
                        assert forall|d: Seq<char>| #[trigger]
                            target.contains_key(d) <==> shields_of_entries(entries@).contains_key(
                                d,
                            ) by {
                            if longer.contains(d) {
                                let k = choose|k: int| 0 <= k < longer.len() && longer[k] == d;
                                if k < i {
                                    assert(shorter[k] == d);
                                }
                            }
                            if shorter.contains(d) {
                                let k = choose|k: int| 0 <= k < shorter.len() && shorter[k] == d;
                                assert(longer[k] == d);
                            }
                            if d == domain@ {
                                assert(longer[i as int] == d);
                            }
                        }
                        assert(shields_of_entries(entries@) =~= target);
                    }
                },
                None => {
                    assert(false);
                },
            }
            i += 1;
        }
        let state = EngineState {
            list_ids: clone_strings(&self.list_ids),
            lists: clone_lists(&self.lists),
            shields: entries,
            stats: self.stats,
        };
        proof {
            assert(domains.take(i as int) =~= domains);
            assert(state@.shields =~= self@.shields);
        }
        state
    }

    /// The engine that `state` stands for, without compiled matchers. Fails
    /// where the state is not well formed: where the ids and the lists differ
    /// in number, an id stands twice, or a rule has an empty pattern.
    pub fn from_state(state: EngineState) -> (made: Result<FilterEngine, FilterError>)
        ensures
            match made {
                Ok(engine) => state@.well_formed() && engine.wf() && engine@ == state@,
                Err(e) => !state@.well_formed() && e.is_plain(FilterErrorKind::InvalidState),
            },
    {
        if state.list_ids.len() != state.lists.len() || has_duplicates(&state.list_ids) {
            return Err(FilterError::of_kind(FilterErrorKind::InvalidState));
        }
        let mut l: usize = 0;
        while l < state.lists.len()
            invariant
                l <= state.lists@.len(),
                forall|k: int| 0 <= k < l ==> (#[trigger] state@.lists[k]).well_formed(),
            decreases state.lists@.len() - l,
        {
            assert(state@.lists[l as int] == state.lists@[l as int]@);
            if !Self::rules_well_formed(&state.lists[l].rules) {
                return Err(FilterError::of_kind(FilterErrorKind::InvalidState));
            }
            l += 1;
        }
        let EngineState { list_ids, lists, shields, stats } = state;
        let mut engine = FilterEngine {
            list_ids,
            lists,
            shields: StringHashMap::new(),
            shield_domains: Vec::new(),
            compiled: PatternCache::new(),
            stats,
        };
        proof {
            assert(strings_view(engine.shield_domains@) =~= Seq::empty());
            assert(engine@.shields =~= Map::empty());
            assert(shields@.take(0) =~= Seq::empty());
            assert(engine@.list_ids == state@.list_ids);
            assert(engine@.lists == state@.lists);
            assert(state@.list_ids.no_duplicates());
            assert(engine@.well_formed());
            assert(engine.compiled.wf());
            assert(strings_view(engine.shield_domains@).no_duplicates());
        }
        let mut i: usize = 0;
        while i < shields.len()
            invariant
                i <= shields@.len(),
                engine.wf(),
                engine@ == (EngineView {
                    shields: shields_of_entries(shields@.take(i as int)),
                    ..state@
                }),
            decreases shields@.len() - i,
        {
            let entry = &shields[i];
            proof {
                assert(shields@.take(i + 1).drop_last() =~= shields@.take(i as int));
                assert(shields@.take(i + 1).last() == shields@[i as int]);
            }
            engine.update_site_shields(entry.domain.as_str(), entry.shields.clone());
            i += 1;
        }
        proof {
            assert(shields@.take(i as int) =~= shields@);
        }
        Ok(engine)
    }
}

} // verus!

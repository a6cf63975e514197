//! The blocking decision, as mathematics: in which order rules are scanned,
//! which rule decides, how a site's shields override the rules, and what
//! follows from that.

use super::rule::{resource_kind, FilterListView, FilterRuleView, ResourceKind};
use super::shields::SiteShieldsView;
use vstd::prelude::*;

verus! {

/// The rules in the order in which a scan visits them: the rules of each
/// enabled list in stored order, the lists in their order.
pub open spec fn scan_order(lists: Seq<FilterListView>) -> Seq<FilterRuleView>
    decreases lists.len(),
{
    if lists.len() == 0 {
        Seq::empty()
    } else {
        scan_order(lists.drop_last()) + lists.last().scanned_rules()
    }
}

/// Whether none of `rules` decides the request.
pub open spec fn none_decides(
    rules: Seq<FilterRuleView>,
    url: Seq<char>,
    kind: ResourceKind,
    origin: Seq<char>,
) -> bool {
    forall|j: int| 0 <= j < rules.len() ==> !(#[trigger] rules[j]).decides(url, kind, origin)
}

/// Whether the rule at position `i` is the first that decides the request.
pub open spec fn is_first_decisive(
    rules: Seq<FilterRuleView>,
    i: int,
    url: Seq<char>,
    kind: ResourceKind,
    origin: Seq<char>,
) -> bool {
    &&& 0 <= i < rules.len()
    &&& rules[i].decides(url, kind, origin)
    &&& none_decides(rules.take(i), url, kind, origin)
}

/// Whether a scan of `rules` blocks the request: the first rule that decides
/// it is a `Block`.
pub open spec fn rules_block(
    rules: Seq<FilterRuleView>,
    url: Seq<char>,
    kind: ResourceKind,
    origin: Seq<char>,
) -> bool {
    exists|i: int| is_first_decisive(rules, i, url, kind, origin) && rules[i].rule_type is Block
}

/// Whether the origin's shields switch blocking off altogether: it has an
/// entry, and both ad blocking and tracker blocking are off in it.
pub open spec fn blocking_is_off(
    shields: Map<Seq<char>, SiteShieldsView>,
    origin: Seq<char>,
) -> bool {
    shields.contains_key(origin) && shields[origin].blocks_nothing()
}

/// The domain that a parsed URL is compared by: the empty text where its host
/// is no domain name.
pub open spec fn target_domain(domain: Option<Seq<char>>) -> Seq<char> {
    match domain {
        Some(d) => d,
        None => Seq::empty(),
    }
}

/// Whether the request is blocked as a third-party request before any rule is
/// looked at: the origin has an entry with third-party cookies on, and the
/// request goes to another domain.
pub open spec fn is_third_party_hit(
    shields: Map<Seq<char>, SiteShieldsView>,
    domain: Option<Seq<char>>,
    origin: Seq<char>,
) -> bool {
    shields.contains_key(origin) && shields[origin].third_party_cookies && target_domain(domain)
        != origin
}

/// Whether a request is blocked.
///
/// `rules` is the scan order, `shields` the persisted shields by domain, and
/// `target` what became of the request's URL: `None` where it did not parse,
/// else the domain of its host. A URL that did not parse is never blocked. An
/// origin whose shields switch blocking off is never blocked. Otherwise a
/// third-party hit blocks, and otherwise the scan of the rules decides.
pub open spec fn should_block(
    rules: Seq<FilterRuleView>,
    shields: Map<Seq<char>, SiteShieldsView>,
    target: Option<Option<Seq<char>>>,
    url: Seq<char>,
    request_type: Seq<char>,
    origin: Seq<char>,
) -> bool {
    match target {
        None => false,
        Some(domain) => if blocking_is_off(shields, origin) {
            false
        } else if is_third_party_hit(shields, domain, origin) {
            true
        } else {
            rules_block(rules, url, resource_kind(request_type), origin)
        },
    }
}

/// The scan order of the first `k` lists is the beginning of the scan order
/// of all of them.
pub proof fn lemma_scan_order_prefix(lists: Seq<FilterListView>, k: int)
    requires
        0 <= k <= lists.len(),
    ensures
        scan_order(lists.take(k)).len() <= scan_order(lists).len(),
        scan_order(lists.take(k)) == scan_order(lists).take(scan_order(lists.take(k)).len() as int),
    decreases lists.len() - k,
{
    if k == lists.len() {
        assert(lists.take(k) =~= lists);
        assert(scan_order(lists).take(scan_order(lists).len() as int) =~= scan_order(lists));
    } else {
        lemma_scan_order_prefix(lists, k + 1);
        lemma_scan_order_step(lists, k);
        let shorter = scan_order(lists.take(k));
        let longer = scan_order(lists.take(k + 1));
        assert(shorter =~= longer.take(shorter.len() as int));
        assert(shorter =~= scan_order(lists).take(shorter.len() as int));
    }
}

/// The scan order of the first `k + 1` lists is that of the first `k`,
/// followed by the scanned rules of list `k`.
pub proof fn lemma_scan_order_step(lists: Seq<FilterListView>, k: int)
    requires
        0 <= k < lists.len(),
    ensures
        scan_order(lists.take(k + 1)) == scan_order(lists.take(k)) + lists[k].scanned_rules(),
{
    assert(lists.take(k + 1).drop_last() =~= lists.take(k));
    assert(lists.take(k + 1).last() == lists[k]);
}

/// Where the first deciding rule stands at `i`, the scan blocks exactly if
/// that rule is a `Block`.
pub proof fn lemma_first_decisive_decides(
    rules: Seq<FilterRuleView>,
    i: int,
    url: Seq<char>,
    kind: ResourceKind,
    origin: Seq<char>,
)
    requires
        is_first_decisive(rules, i, url, kind, origin),
    ensures
        rules_block(rules, url, kind, origin) == (rules[i].rule_type is Block),
{
    if rules_block(rules, url, kind, origin) {
        let k = choose|k: int|
            is_first_decisive(rules, k, url, kind, origin) && rules[k].rule_type is Block;
        if k < i {
            assert(rules.take(i)[k] == rules[k]);
        } else if i < k {
            assert(rules.take(k)[i] == rules[i]);
        }
    }
}

/// Where no rule decides, the scan does not block.
pub proof fn lemma_none_decides(
    rules: Seq<FilterRuleView>,
    url: Seq<char>,
    kind: ResourceKind,
    origin: Seq<char>,
)
    requires
        none_decides(rules, url, kind, origin),
    ensures
        !rules_block(rules, url, kind, origin),
{
}

/// A rule that does not decide the request can be taken out of the scan
/// order without changing what the scan does.
pub proof fn lemma_undecisive_rule_is_inert(
    rules: Seq<FilterRuleView>,
    k: int,
    url: Seq<char>,
    kind: ResourceKind,
    origin: Seq<char>,
)
    requires
        0 <= k < rules.len(),
        !rules[k].decides(url, kind, origin),
    ensures
        rules_block(rules.remove(k), url, kind, origin) == rules_block(rules, url, kind, origin),
{
    let without = rules.remove(k);
    assert(without.len() == rules.len() - 1);
    assert forall|j: int| 0 <= j < without.len() implies without[j] == (if j < k {
        rules[j]
    } else {
        rules[j + 1]
    }) by {}
    if rules_block(rules, url, kind, origin) {
        let i = choose|i: int|
            is_first_decisive(rules, i, url, kind, origin) && rules[i].rule_type is Block;
        let i2 = if i < k {
            i
        } else {
            i - 1
        };
        assert forall|j: int| 0 <= j < i2 implies !(#[trigger] without.take(i2)[j]).decides(
            url,
            kind,
            origin,
        ) by {
            if j < k {
                assert(rules.take(i)[j] == rules[j]);
            } else {
                assert(rules.take(i)[j + 1] == rules[j + 1]);
            }
        }
        assert(is_first_decisive(without, i2, url, kind, origin));
    }
    if rules_block(without, url, kind, origin) {
        let i2 = choose|i: int|
            is_first_decisive(without, i, url, kind, origin) && without[i].rule_type is Block;
        let i = if i2 < k {
            i2
        } else {
            i2 + 1
        };
        assert forall|j: int| 0 <= j < i implies !(#[trigger] rules.take(i)[j]).decides(
            url,
            kind,
            origin,
        ) by {
            if j < k {
                assert(without.take(i2)[j] == without[j]);
            } else if j > k {
                assert(without.take(i2)[j - 1] == without[j - 1]);
            }
        }
        assert(is_first_decisive(rules, i, url, kind, origin));
    }
}

/// Where no rule of `before` decides and the first deciding rule of `rules`
/// stands at `i`, the first deciding rule of `before + rules` stands at
/// `before.len() + i`.
pub proof fn lemma_first_decisive_after(
    before: Seq<FilterRuleView>,
    rules: Seq<FilterRuleView>,
    i: int,
    url: Seq<char>,
    kind: ResourceKind,
    origin: Seq<char>,
)
    requires
        none_decides(before, url, kind, origin),
        is_first_decisive(rules, i, url, kind, origin),
    ensures
        is_first_decisive(before + rules, before.len() + i, url, kind, origin),
{
    let all = before + rules;
    let at = before.len() + i;
    assert(all[at] == rules[i]);
    assert forall|j: int| 0 <= j < at implies !(#[trigger] all.take(at)[j]).decides(
        url,
        kind,
        origin,
    ) by {
        if j < before.len() {
            assert(all.take(at)[j] == before[j]);
        } else {
            assert(all.take(at)[j] == rules.take(i)[j - before.len()]);
        }
    }
}

/// Where neither a rule of `before` nor a rule of `rules` decides, no rule of
/// `before + rules` does.
pub proof fn lemma_none_decides_both(
    before: Seq<FilterRuleView>,
    rules: Seq<FilterRuleView>,
    url: Seq<char>,
    kind: ResourceKind,
    origin: Seq<char>,
)
    requires
        none_decides(before, url, kind, origin),
        none_decides(rules, url, kind, origin),
    ensures
        none_decides(before + rules, url, kind, origin),
{
    let all = before + rules;
    assert forall|j: int| 0 <= j < all.len() implies !(#[trigger] all[j]).decides(
        url,
        kind,
        origin,
    ) by {
        if j < before.len() {
            assert(all[j] == before[j]);
        } else {
            assert(all[j] == rules[j - before.len()]);
        }
    }
}

/// The first deciding rule of the beginning of a scan order is the first
/// deciding rule of the whole.
pub proof fn lemma_first_decisive_of_prefix(
    rules: Seq<FilterRuleView>,
    n: int,
    i: int,
    url: Seq<char>,
    kind: ResourceKind,
    origin: Seq<char>,
)
    requires
        0 <= n <= rules.len(),
        is_first_decisive(rules.take(n), i, url, kind, origin),
    ensures
        is_first_decisive(rules, i, url, kind, origin),
{
    assert(rules.take(n)[i] == rules[i]);
    assert(rules.take(n).take(i) =~= rules.take(i));
}

/// `list` without its rule at position `r`.
pub open spec fn without_rule(list: FilterListView, r: int) -> FilterListView {
    FilterListView { rules: list.rules.remove(r), ..list }
}

/// Taking a rule out of an enabled list takes it out of the scan order, at
/// the position behind the rules of the lists before it; taking a rule out of
/// a disabled list leaves the scan order as it is.
pub proof fn lemma_scan_order_without_rule(lists: Seq<FilterListView>, l: int, r: int)
    requires
        0 <= l < lists.len(),
        0 <= r < lists[l].rules.len(),
    ensures
        ({
            let at = scan_order(lists.take(l)).len() + r;
            let after = scan_order(lists.update(l, without_rule(lists[l], r)));
            if lists[l].enabled {
                &&& 0 <= at < scan_order(lists).len()
                &&& scan_order(lists)[at] == lists[l].rules[r]
                &&& after == scan_order(lists).remove(at)
            } else {
                after == scan_order(lists)
            }
        }),
    decreases lists.len(),
{
    let changed = lists.update(l, without_rule(lists[l], r));
    let front = scan_order(lists.drop_last());
    if l == lists.len() - 1 {
        assert(changed.drop_last() =~= lists.drop_last());
        assert(lists.take(l) =~= lists.drop_last());
        if lists[l].enabled {
            let rules = lists[l].rules;
            assert((front + rules).remove(front.len() + r) =~= front + rules.remove(r));
        }
    } else {
        let shorter = lists.drop_last();
        assert(changed.drop_last() =~= shorter.update(l, without_rule(shorter[l], r)));
        assert(changed.last() == lists.last());
        assert(shorter.take(l) =~= lists.take(l));
        lemma_scan_order_without_rule(shorter, l, r);
        if lists[l].enabled {
            let at = scan_order(lists.take(l)).len() + r;
            let back = lists.last().scanned_rules();
            assert(front.remove(at) + back =~= (front + back).remove(at));
        }
    }
}

/// An `Allow` rule that matches the request, with no matching `Block` rule
/// before it in scan order, keeps the request from being blocked, unless the
/// request is a third-party hit, which is decided before any rule is looked
/// at.
pub proof fn law_allow_before_block(
    rules: Seq<FilterRuleView>,
    shields: Map<Seq<char>, SiteShieldsView>,
    target: Option<Option<Seq<char>>>,
    url: Seq<char>,
    request_type: Seq<char>,
    origin: Seq<char>,
    i: int,
)
    requires
        0 <= i < rules.len(),
        rules[i].rule_type is Allow,
        rules[i].matches(url, resource_kind(request_type), origin),
        forall|j: int|
            0 <= j < i ==> !((#[trigger] rules[j]).rule_type is Block && rules[j].matches(
                url,
                resource_kind(request_type),
                origin,
            )),
        target matches Some(domain) ==> !is_third_party_hit(shields, domain, origin),
    ensures
        !should_block(rules, shields, target, url, request_type, origin),
{
    let kind = resource_kind(request_type);
    if rules_block(rules, url, kind, origin) {
        let k = choose|k: int|
            is_first_decisive(rules, k, url, kind, origin) && rules[k].rule_type is Block;
        if i < k {
            assert(rules.take(k)[i] == rules[i]);
        }
    }
}

/// A request is blocked only for one of two reasons: it is a third-party
/// hit, or some `Block` rule in scan order matches it, so that the origin
/// lies in that rule's scope and the rule applies to the request's resource
/// kind.
pub proof fn law_block_needs_matching_rule(
    rules: Seq<FilterRuleView>,
    shields: Map<Seq<char>, SiteShieldsView>,
    target: Option<Option<Seq<char>>>,
    url: Seq<char>,
    request_type: Seq<char>,
    origin: Seq<char>,
)
    requires
        should_block(rules, shields, target, url, request_type, origin),
    ensures
        target is Some,
        !blocking_is_off(shields, origin),
        is_third_party_hit(shields, target->Some_0, origin) || exists|i: int|
            0 <= i < rules.len() && (#[trigger] rules[i]).rule_type is Block && rules[i].matches(
                url,
                resource_kind(request_type),
                origin,
            ),
{
    if !is_third_party_hit(shields, target->Some_0, origin) {
        let kind = resource_kind(request_type);
        let k = choose|k: int|
            is_first_decisive(rules, k, url, kind, origin) && rules[k].rule_type is Block;
        assert(rules[k].rule_type is Block && rules[k].matches(url, kind, origin));
    }
}

/// A rule with a `domains` scope that does not hold the origin matches no
/// request of that origin, and the decision is the same as without the rule:
/// such a rule blocks only requests whose origin is in its scope.
pub proof fn law_domains_scope(
    rules: Seq<FilterRuleView>,
    shields: Map<Seq<char>, SiteShieldsView>,
    target: Option<Option<Seq<char>>>,
    url: Seq<char>,
    request_type: Seq<char>,
    origin: Seq<char>,
    k: int,
)
    requires
        0 <= k < rules.len(),
        rules[k].domains is Some,
        !rules[k].domains->Some_0.contains(origin),
    ensures
        !rules[k].matches(url, resource_kind(request_type), origin),
        should_block(rules.remove(k), shields, target, url, request_type, origin) == should_block(
            rules,
            shields,
            target,
            url,
            request_type,
            origin,
        ),
{
    lemma_undecisive_rule_is_inert(rules, k, url, resource_kind(request_type), origin);
}

/// A rule with an `exceptions` scope that holds the origin matches no request
/// of that origin, even where its pattern occurs in the URL, and the decision
/// is the same as without the rule.
pub proof fn law_exceptions_scope(
    rules: Seq<FilterRuleView>,
    shields: Map<Seq<char>, SiteShieldsView>,
    target: Option<Option<Seq<char>>>,
    url: Seq<char>,
    request_type: Seq<char>,
    origin: Seq<char>,
    k: int,
)
    requires
        0 <= k < rules.len(),
        rules[k].exceptions is Some,
        rules[k].exceptions->Some_0.contains(origin),
    ensures
        !rules[k].matches(url, resource_kind(request_type), origin),
        should_block(rules.remove(k), shields, target, url, request_type, origin) == should_block(
            rules,
            shields,
            target,
            url,
            request_type,
            origin,
        ),
{
    lemma_undecisive_rule_is_inert(rules, k, url, resource_kind(request_type), origin);
}

/// A rule whose flags do not enable the request's resource kind matches no
/// request of that kind, and the decision is the same as without the rule.
pub proof fn law_disabled_resource_type(
    rules: Seq<FilterRuleView>,
    shields: Map<Seq<char>, SiteShieldsView>,
    target: Option<Option<Seq<char>>>,
    url: Seq<char>,
    request_type: Seq<char>,
    origin: Seq<char>,
    k: int,
)
    requires
        0 <= k < rules.len(),
        !rules[k].options.applies_to(resource_kind(request_type)),
    ensures
        !rules[k].matches(url, resource_kind(request_type), origin),
        should_block(rules.remove(k), shields, target, url, request_type, origin) == should_block(
            rules,
            shields,
            target,
            url,
            request_type,
            origin,
        ),
{
    lemma_undecisive_rule_is_inert(rules, k, url, resource_kind(request_type), origin);
}

} // verus!

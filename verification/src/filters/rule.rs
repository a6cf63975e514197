//! Filter rules and filter lists, and what it means for a rule to match a
//! request.

use crate::clock::Timestamp;
use crate::text;
use vstd::prelude::*;

verus! {

/// What a rule does with a request that it matches.
#[derive(Debug, Clone, Copy, PartialEq, Eq, Structural)]
pub enum FilterRuleType {
    /// The request is blocked.
    Block,
    /// The request is let through, whatever later rules say.
    Allow,
    /// Cosmetic hiding; decides nothing about the request.
    Hide,
    /// Redirection; decides nothing about the request.
    Redirect,
}

/// The kind of resource that a request asks for, as far as rules tell kinds
/// apart.
#[derive(Debug, Clone, Copy, PartialEq, Eq, Structural)]
pub enum ResourceKind {
    Script,
    Image,
    Stylesheet,
    XmlHttpRequest,
    Subdocument,
    /// Every other request type, known or not.
    Other,
}

/// The resource types that a rule applies to.
#[derive(Debug, Clone, Copy, PartialEq, Eq, Structural)]
pub struct FilterOptions {
    pub script: bool,
    pub image: bool,
    pub stylesheet: bool,
    pub xmlhttprequest: bool,
    pub subdocument: bool,
    pub third_party: bool,
    pub popup: bool,
}

/// The resource kind that a request type names.
pub open spec fn resource_kind(request_type: Seq<char>) -> ResourceKind {
    if request_type == "script"@ {
        ResourceKind::Script
    } else if request_type == "image"@ {
        ResourceKind::Image
    } else if request_type == "stylesheet"@ {
        ResourceKind::Stylesheet
    } else if request_type == "xmlhttprequest"@ {
        ResourceKind::XmlHttpRequest
    } else if request_type == "subdocument"@ {
        ResourceKind::Subdocument
    } else {
        ResourceKind::Other
    }
}

/// The resource kind that `request_type` names.
pub fn classify_request_type(request_type: &str) -> (kind: ResourceKind)
    ensures
        kind == resource_kind(request_type@),
{
    let chars = text::chars_of(request_type);
    let t = chars.as_slice();
    if text::equals_str(t, "script") {
        ResourceKind::Script
    } else if text::equals_str(t, "image") {
        ResourceKind::Image
    } else if text::equals_str(t, "stylesheet") {
        ResourceKind::Stylesheet
    } else if text::equals_str(t, "xmlhttprequest") {
        ResourceKind::XmlHttpRequest
    } else if text::equals_str(t, "subdocument") {
        ResourceKind::Subdocument
    } else {
        ResourceKind::Other
    }
}

impl FilterOptions {
    /// The options with every flag set: the rule applies to every request.
    pub open spec fn all() -> FilterOptions {
        FilterOptions {
            script: true,
            image: true,
            stylesheet: true,
            xmlhttprequest: true,
            subdocument: true,
            third_party: true,
            popup: true,
        }
    }

    /// Whether a rule with these options applies to requests of `kind`. A
    /// kind without a flag of its own is always applicable.
    pub open spec fn spec_applies_to(self, kind: ResourceKind) -> bool {
        match kind {
            ResourceKind::Script => self.script,
            ResourceKind::Image => self.image,
            ResourceKind::Stylesheet => self.stylesheet,
            ResourceKind::XmlHttpRequest => self.xmlhttprequest,
            ResourceKind::Subdocument => self.subdocument,
            ResourceKind::Other => true,
        }
    }

    /// Whether a rule with these options applies to requests of `kind`.
    #[verifier::when_used_as_spec(spec_applies_to)]
    pub fn applies_to(self, kind: ResourceKind) -> (b: bool)
        ensures
            b == self.spec_applies_to(kind),
    {
        match kind {
            ResourceKind::Script => self.script,
            ResourceKind::Image => self.image,
            ResourceKind::Stylesheet => self.stylesheet,
            ResourceKind::XmlHttpRequest => self.xmlhttprequest,
            ResourceKind::Subdocument => self.subdocument,
            ResourceKind::Other => true,
        }
    }
}

impl Default for FilterOptions {
    /// Every flag set.
    fn default() -> (options: FilterOptions)
        ensures
            options == FilterOptions::all(),
    {
        FilterOptions {
            script: true,
            image: true,
            stylesheet: true,
            xmlhttprequest: true,
            subdocument: true,
            third_party: true,
            popup: true,
        }
    }
}

/// The texts of a sequence of strings.
pub open spec fn strings_view(items: Seq<String>) -> Seq<Seq<char>> {
    items.map_values(|s: String| s@)
}

/// The texts of an optional list of strings.
pub open spec fn scope_view(scope: Option<Vec<String>>) -> Option<Seq<Seq<char>>> {
    match scope {
        Some(items) => Some(strings_view(items@)),
        None => None,
    }
}

/// One parsed filter rule.
#[derive(Debug, PartialEq, Eq)]
pub struct FilterRule {
    /// The text that a URL must contain.
    pub pattern: String,
    pub rule_type: FilterRuleType,
    /// Where present, the rule holds only for requests from these origins.
    pub domains: Option<Vec<String>>,
    /// Where present, the rule does not hold for requests from these origins.
    pub exceptions: Option<Vec<String>>,
    pub options: FilterOptions,
}

/// The mathematical value of a [`FilterRule`].
pub struct FilterRuleView {
    pub pattern: Seq<char>,
    pub rule_type: FilterRuleType,
    pub domains: Option<Seq<Seq<char>>>,
    pub exceptions: Option<Seq<Seq<char>>>,
    pub options: FilterOptions,
}

impl View for FilterRule {
    type V = FilterRuleView;

    open spec fn view(&self) -> FilterRuleView {
        FilterRuleView {
            pattern: self.pattern@,
            rule_type: self.rule_type,
            domains: scope_view(self.domains),
            exceptions: scope_view(self.exceptions),
            options: self.options,
        }
    }
}

impl FilterRuleView {
    /// A rule is well formed where its pattern is not empty.
    pub open spec fn well_formed(self) -> bool {
        self.pattern.len() > 0
    }

    /// Whether the origin lies in the rule's scope: among `domains` where
    /// that is present, and not among `exceptions` where that is present.
    pub open spec fn in_scope(self, origin: Seq<char>) -> bool {
        &&& self.domains matches Some(domains) ==> domains.contains(origin)
        &&& self.exceptions matches Some(exceptions) ==> !exceptions.contains(origin)
    }

    /// Whether the rule matches a request: the URL contains the pattern, the
    /// origin lies in the rule's scope, and the rule applies to the request's
    /// resource kind.
    pub open spec fn matches(self, url: Seq<char>, kind: ResourceKind, origin: Seq<char>) -> bool {
        &&& text::contains(url, self.pattern)
        &&& self.in_scope(origin)
        &&& self.options.applies_to(kind)
    }

    /// Whether the rule matches the request and decides it: a matching
    /// `Block` or `Allow`.
    pub open spec fn decides(self, url: Seq<char>, kind: ResourceKind, origin: Seq<char>) -> bool {
        &&& self.matches(url, kind, origin)
        &&& (self.rule_type is Block || self.rule_type is Allow)
    }
}

/// A copy of `items`.
pub fn clone_strings(items: &Vec<String>) -> (copy: Vec<String>)
    ensures
        strings_view(copy@) == strings_view(items@),
{
    let mut copy: Vec<String> = Vec::new();
    let mut i: usize = 0;
    while i < items.len()
        invariant
            i <= items@.len(),
            copy@.len() == i,
            forall|j: int| 0 <= j < i ==> copy@[j]@ == items@[j]@,
        decreases items@.len() - i,
    {
        copy.push(items[i].clone());
        i += 1;
    }
    assert(strings_view(copy@) =~= strings_view(items@));
    copy
}

/// Whether `origin` is one of `items`.
fn scope_contains(items: &Vec<String>, origin: &[char]) -> (b: bool)
    ensures
        b == strings_view(items@).contains(origin@),
{
    let b = text::any_equals(items, origin);
    proof {
        let texts = strings_view(items@);
        if b {
            let i = choose|i: int| 0 <= i < items@.len() && #[trigger] items@[i]@ == origin@;
            assert(texts[i] == origin@);
        } else if texts.contains(origin@) {
            let i = choose|i: int| 0 <= i < texts.len() && texts[i] == origin@;
            assert(items@[i]@ == origin@);
        }
    }
    b
}

impl Clone for FilterRule {
    fn clone(&self) -> (copy: FilterRule)
        ensures
            copy@ == self@,
    {
        FilterRule {
            pattern: self.pattern.clone(),
            rule_type: self.rule_type,
            domains: match &self.domains {
                Some(items) => Some(clone_strings(items)),
                None => None,
            },
            exceptions: match &self.exceptions {
                Some(items) => Some(clone_strings(items)),
                None => None,
            },
            options: self.options,
        }
    }
}

impl FilterRule {
    /// A rule of the given type on `pattern`, for every origin and every
    /// resource kind.
    pub fn new(pattern: String, rule_type: FilterRuleType) -> (rule: FilterRule)
        ensures
            rule@ == (FilterRuleView {
                pattern: pattern@,
                rule_type,
                domains: None,
                exceptions: None,
                options: FilterOptions::all(),
            }),
    {
        FilterRule {
            pattern,
            rule_type,
            domains: None,
            exceptions: None,
            options: FilterOptions::default(),
        }
    }

    /// Whether the pattern is not empty.
    pub fn is_well_formed(&self) -> (b: bool)
        ensures
            b == self@.well_formed(),
    {
        !self.pattern.as_str().is_empty()
    }

    /// Whether `origin` lies in the rule's scope.
    pub fn in_scope(&self, origin: &[char]) -> (b: bool)
        ensures
            b == self@.in_scope(origin@),
    {
        let included = match &self.domains {
            Some(domains) => scope_contains(domains, origin),
            None => true,
        };
        if !included {
            return false;
        }
        match &self.exceptions {
            Some(exceptions) => !scope_contains(exceptions, origin),
            None => true,
        }
    }

    /// Whether the rule matches a request for `url`, of resource kind `kind`,
    /// made by a page of `origin`.
    pub fn matches(&self, url: &[char], kind: ResourceKind, origin: &[char]) -> (b: bool)
        ensures
            b == self@.matches(url@, kind, origin@),
    {
        text::contains_str(url, self.pattern.as_str()) && self.in_scope(origin)
            && self.options.applies_to(kind)
    }
}

/// The values of a sequence of rules.
pub open spec fn rules_view(rules: Seq<FilterRule>) -> Seq<FilterRuleView> {
    rules.map_values(|r: FilterRule| r@)
}

/// A copy of `rules`.
pub fn clone_rules(rules: &Vec<FilterRule>) -> (copy: Vec<FilterRule>)
    ensures
        rules_view(copy@) == rules_view(rules@),
{
    let mut copy: Vec<FilterRule> = Vec::new();
    let mut i: usize = 0;
    while i < rules.len()
        invariant
            i <= rules@.len(),
            copy@.len() == i,
            forall|j: int| 0 <= j < i ==> copy@[j]@ == rules@[j]@,
        decreases rules@.len() - i,
    {
        copy.push(rules[i].clone());
        i += 1;
    }
    assert(rules_view(copy@) =~= rules_view(rules@));
    copy
}

/// A named list of rules that was loaded from a URL.
#[derive(Debug, PartialEq, Eq)]
pub struct FilterList {
    pub name: String,
    /// Where the list's text is fetched from.
    pub url: String,
    /// Only the rules of an enabled list are scanned.
    pub enabled: bool,
    /// When the rules were last replaced.
    pub last_updated: Timestamp,
    /// The rules, in the order in which they are scanned.
    pub rules: Vec<FilterRule>,
}

/// The mathematical value of a [`FilterList`].
pub struct FilterListView {
    pub name: Seq<char>,
    pub url: Seq<char>,
    pub enabled: bool,
    pub last_updated: Timestamp,
    pub rules: Seq<FilterRuleView>,
}

impl View for FilterList {
    type V = FilterListView;

    open spec fn view(&self) -> FilterListView {
        FilterListView {
            name: self.name@,
            url: self.url@,
            enabled: self.enabled,
            last_updated: self.last_updated,
            rules: rules_view(self.rules@),
        }
    }
}

/// Whether each of `rules` is well formed.
pub open spec fn all_well_formed(rules: Seq<FilterRuleView>) -> bool {
    forall|i: int| 0 <= i < rules.len() ==> (#[trigger] rules[i]).well_formed()
}

impl FilterListView {
    /// A list is well formed where each of its rules is.
    pub open spec fn well_formed(self) -> bool {
        all_well_formed(self.rules)
    }

    /// The rules that a scan of this list goes through: all of them where the
    /// list is enabled, none where it is not.
    pub open spec fn scanned_rules(self) -> Seq<FilterRuleView> {
        if self.enabled {
            self.rules
        } else {
            Seq::empty()
        }
    }
}

impl Clone for FilterList {
    fn clone(&self) -> (copy: FilterList)
        ensures
            copy@ == self@,
    {
        FilterList {
            name: self.name.clone(),
            url: self.url.clone(),
            enabled: self.enabled,
            last_updated: self.last_updated,
            rules: clone_rules(&self.rules),
        }
    }
}

/// The values of a sequence of lists.
pub open spec fn lists_view(lists: Seq<FilterList>) -> Seq<FilterListView> {
    lists.map_values(|l: FilterList| l@)
}

/// A copy of `lists`.
pub fn clone_lists(lists: &Vec<FilterList>) -> (copy: Vec<FilterList>)
    ensures
        lists_view(copy@) == lists_view(lists@),
{
    let mut copy: Vec<FilterList> = Vec::new();
    let mut i: usize = 0;
    while i < lists.len()
        invariant
            i <= lists@.len(),
            copy@.len() == i,
            forall|j: int| 0 <= j < i ==> copy@[j]@ == lists@[j]@,
        decreases lists@.len() - i,
    {
        copy.push(lists[i].clone());
        i += 1;
    }
    assert(lists_view(copy@) =~= lists_view(lists@));
    copy
}

} // verus!

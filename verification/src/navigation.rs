//! Navigation: what address an input of the address bar stands for, and the
//! list of visited addresses with the place where the browser is in it.

use crate::encoding::{percent_encode, percent_encoded};
use crate::text;
use vstd::prelude::*;
use vstd::string::StringExecFns;

verus! {

/// Whether `input` names an address as it is: one of the browser's own pages
/// or a web address with its scheme.
pub open spec fn has_scheme(input: Seq<char>) -> bool {
    ||| text::starts_with(input, "sw3do://"@)
    ||| text::starts_with(input, "http://"@)
    ||| text::starts_with(input, "https://"@)
}

/// Whether `input` looks like a host name: it holds a dot and no space.
pub open spec fn looks_like_host(input: Seq<char>) -> bool {
    text::contains(input, "."@) && !text::contains(input, " "@)
}

/// The address that an input of the address bar stands for: the input itself
/// where it has a scheme, the input behind `https://` where it looks like a
/// host name, and else the search page for the percent-encoded input.
pub open spec fn final_address_of(input: Seq<char>) -> Seq<char> {
    if has_scheme(input) {
        input
    } else if looks_like_host(input) {
        "https://"@ + input
    } else {
        "sw3do://search?q="@ + percent_encoded(input)
    }
}

/// The address that `url`, an input of the address bar, stands for.
pub fn final_address(url: &str) -> (address: String)
    ensures
        address@ == final_address_of(url@),
{
    let owned = text::chars_of(url);
    let chars = owned.as_slice();
    if text::matches_at(chars, "sw3do://", 0) || text::matches_at(chars, "http://", 0)
        || text::matches_at(chars, "https://", 0) {
        url.to_string()
    } else if text::contains_str(chars, ".") && !text::contains_str(chars, " ") {
        "https://".to_string().concat(url)
    } else {
        let encoded = percent_encode(url);
        "sw3do://search?q=".to_string().concat(encoded.as_str())
    }
}

/// The texts of a sequence of addresses.
pub open spec fn addresses_view(entries: Seq<String>) -> Seq<Seq<char>> {
    entries.map_values(|s: String| s@)
}

/// The visited addresses, oldest first, and the place of the current one.
pub struct NavigationHistory {
    entries: Vec<String>,
    current_index: usize,
}

/// The mathematical value of a [`NavigationHistory`].
pub struct NavigationView {
    pub entries: Seq<Seq<char>>,
    pub current_index: int,
}

impl NavigationView {
    /// The current place lies in the list.
    pub open spec fn well_formed(self) -> bool {
        0 <= self.current_index < self.entries.len()
    }

    /// The history at the start: the home page alone.
    pub open spec fn initial() -> NavigationView {
        NavigationView { entries: seq!["sw3do://home"@], current_index: 0 }
    }

    /// The history after going to `address`: the addresses up to the current
    /// one, then `address`, which is the current one now. What lay ahead is
    /// gone.
    pub open spec fn after_navigate(self, address: Seq<char>) -> NavigationView {
        NavigationView {
            entries: self.entries.take(self.current_index + 1).push(address),
            current_index: self.current_index + 1,
        }
    }

    /// Whether there is an address behind the current one.
    pub open spec fn can_go_back(self) -> bool {
        self.current_index > 0
    }

    /// Whether there is an address ahead of the current one.
    pub open spec fn can_go_forward(self) -> bool {
        self.current_index < self.entries.len() - 1
    }

    /// The current address.
    pub open spec fn current(self) -> Seq<char> {
        self.entries[self.current_index]
    }
}

impl View for NavigationHistory {
    type V = NavigationView;

    closed spec fn view(&self) -> NavigationView {
        NavigationView {
            entries: addresses_view(self.entries@),
            current_index: self.current_index as int,
        }
    }
}

impl NavigationHistory {
    /// The invariant: the current place lies in the list.
    pub closed spec fn wf(&self) -> bool {
        self@.well_formed()
    }

    /// In every state the current place lies in the list, so there is a
    /// current address.
    pub proof fn law_current_place_is_valid(&self)
        requires
            self.wf(),
        ensures
            self@.well_formed(),
    {
    }

    /// The history at the start: the home page alone.
    pub fn new() -> (history: NavigationHistory)
        ensures
            history.wf(),
            history@ == NavigationView::initial(),
    {
        let mut entries: Vec<String> = Vec::new();
        entries.push("sw3do://home".to_string());
        let history = NavigationHistory { entries, current_index: 0 };
        assert(history@.entries =~= seq!["sw3do://home"@]);
        history
    }

    /// Goes to `address`: what lay ahead of the current address is dropped,
    /// `address` is added and is the current address now.
    pub fn navigate(&mut self, address: String)
        requires
            old(self).wf(),
        ensures
            final(self).wf(),
            final(self)@ == old(self)@.after_navigate(address@),
    {
        let n = self.entries.len();
        assert(self@.entries.len() == n);
        self.entries.truncate(self.current_index + 1);
        self.entries.push(address);
        self.current_index = self.entries.len() - 1;
        proof {
            assert(final(self)@.entries =~= old(self)@.after_navigate(address@).entries);
        }
    }

    /// Whether there is an address behind the current one.
    pub fn can_go_back(&self) -> (b: bool)
        requires
            self.wf(),
        ensures
            b == self@.can_go_back(),
    {
        self.current_index > 0
    }

    /// Whether there is an address ahead of the current one.
    pub fn can_go_forward(&self) -> (b: bool)
        requires
            self.wf(),
        ensures
            b == self@.can_go_forward(),
    {
        assert(self@.entries.len() == self.entries@.len());
        self.current_index < self.entries.len() - 1
    }

    /// Steps back by one address and returns it; where there is none behind,
    /// nothing changes and `None` is returned.
    pub fn go_back(&mut self) -> (address: Option<String>)
        requires
            old(self).wf(),
        ensures
            final(self).wf(),
            final(self)@.entries == old(self)@.entries,
            match address {
                Some(a) => old(self)@.can_go_back() && final(self)@.current_index == old(
                    self,
                )@.current_index - 1 && a@ == final(self)@.current(),
                None => !old(self)@.can_go_back() && final(self)@ == old(self)@,
            },
    {
        assert(self@.entries.len() == self.entries@.len());
        if self.current_index > 0 {
            self.current_index = self.current_index - 1;
            let address = self.entries[self.current_index].clone();
            assert(self@.entries[self.current_index as int] == self.entries@[self.current_index as int]@);
            Some(address)
        } else {
            None
        }
    }

    /// Steps ahead by one address and returns it; where there is none ahead,
    /// nothing changes and `None` is returned.
    pub fn go_forward(&mut self) -> (address: Option<String>)
        requires
            old(self).wf(),
        ensures
            final(self).wf(),
            final(self)@.entries == old(self)@.entries,
            match address {
                Some(a) => old(self)@.can_go_forward() && final(self)@.current_index == old(
                    self,
                )@.current_index + 1 && a@ == final(self)@.current(),
                None => !old(self)@.can_go_forward() && final(self)@ == old(self)@,
            },
    {
        assert(self@.entries.len() == self.entries@.len());
        if self.current_index < self.entries.len() - 1 {
            self.current_index = self.current_index + 1;
            let address = self.entries[self.current_index].clone();
            assert(self@.entries[self.current_index as int] == self.entries@[self.current_index as int]@);
            Some(address)
        } else {
            None
        }
    }

    /// The current address.
    pub fn get_current_url(&self) -> (address: String)
        requires
            self.wf(),
        ensures
            address@ == self@.current(),
    {
        assert(self@.entries.len() == self.entries@.len());
        let address = self.entries[self.current_index].clone();
        assert(self@.entries[self.current_index as int] == self.entries@[self.current_index as int]@);
        address
    }

    /// The visited addresses, oldest first.
    pub fn entries(&self) -> (entries: Vec<String>)
        ensures
            addresses_view(entries@) == self@.entries,
    {
        let mut copy: Vec<String> = Vec::new();
        let mut i: usize = 0;
        while i < self.entries.len()
            invariant
                i <= self.entries@.len(),
                copy@.len() == i,
                forall|j: int| 0 <= j < i ==> copy@[j]@ == self.entries@[j]@,
            decreases self.entries@.len() - i,
        {
            copy.push(self.entries[i].clone());
            i += 1;
        }
        assert(addresses_view(copy@) =~= addresses_view(self.entries@));
        copy
    }
}

} // verus!

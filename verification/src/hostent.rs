//! The host structure that the engine fills in, held in owned memory.
//!
//! The engine keeps a host's aliases and addresses in arrays that end at a
//! null entry.  Here such an array is a vector of optional entries: `None`
//! stands for the null pointer, and whatever follows the first `None` is
//! never looked at.
//!
//! The engine names the family of a host's addresses by a native number.
//! The structure here holds, beside that number, the family that the number
//! names, so that whoever reads the addresses knows how long each of them
//! is.

use vstd::prelude::*;
use crate::types::AddressFamily;
use crate::utils::{address_family, names_family};

verus! {

/// Whether a list holds a null entry.
pub open spec fn has_null<T>(list: Seq<Option<T>>) -> bool {
    exists|i: int| 0 <= i < list.len() && list[i] is None
}

/// The entries of a list that stand before its first null entry, in order.
/// Where the list holds no null entry these are all of its entries.
pub open spec fn until_null<T>(list: Seq<Option<T>>) -> Seq<T>
    decreases list.len(),
{
    if list.len() == 0 {
        Seq::empty()
    } else {
        match list[0] {
            None => Seq::empty(),
            Some(entry) => seq![entry] + until_null(list.drop_first()),
        }
    }
}

/// A list whose first `k` entries are not null yields at least those `k`
/// entries, unchanged and in order.  It yields exactly those where entry `k`
/// is null or the list ends there: nothing behind the first null entry is
/// yielded.
pub proof fn lemma_until_null_prefix<T>(list: Seq<Option<T>>, k: int)
    requires
        0 <= k <= list.len(),
        forall|j: int| 0 <= j < k ==> list[j] is Some,
    ensures
        until_null(list).len() >= k,
        forall|j: int| 0 <= j < k ==> until_null(list)[j] == list[j]->0,
        k == list.len() || list[k] is None ==> until_null(list).len() == k,
    decreases k,
{
    if k > 0 {
        lemma_until_null_prefix(list.drop_first(), k - 1);
    }
}

/// What stands behind the first null entry of a list does not change what
/// the list yields.
pub proof fn lemma_until_null_ignores_tail<T>(list: Seq<Option<T>>, n: int)
    requires
        0 <= n < list.len(),
        list[n] is None,
    ensures
        until_null(list) == until_null(list.take(n + 1)),
    decreases n,
{
    if list[0] is Some {
        lemma_until_null_ignores_tail(list.drop_first(), n - 1);
        assert(list.take(n + 1).drop_first() == list.drop_first().take(n));
    }
}

/// A host structure as a mathematical value.
pub struct HostentView {
    /// The host's official name.
    pub name: Seq<char>,
    /// The alias array; `None` is a null entry.
    pub aliases: Seq<Option<Seq<char>>>,
    /// The native number of the address family.
    pub addrtype: i32,
    /// The address family that the native number names, if it names one.
    pub family: Option<AddressFamily>,
    /// The number of bytes in each address.
    pub length: i32,
    /// The address array; `None` is a null entry.
    pub addr_list: Seq<Option<Seq<u8>>>,
}

impl HostentView {
    /// The shape that the engine keeps: both arrays end at a null entry,
    /// each address before that entry holds `length` bytes, and `length` is
    /// no less than what an address of the structure's family takes.
    pub open spec fn well_formed(self) -> bool {
        &&& has_null(self.aliases)
        &&& has_null(self.addr_list)
        &&& 0 <= self.length
        &&& forall|i: int|
            0 <= i < until_null(self.addr_list).len() ==> (#[trigger] until_null(
                self.addr_list,
            )[i]).len() == self.length
        &&& self.family matches Some(family) ==> self.length >= family.spec_address_len()
    }

    /// The host's aliases: the entries of the alias array before its first
    /// null entry.
    pub open spec fn alias_names(self) -> Seq<Seq<char>> {
        until_null(self.aliases)
    }

    /// The host's addresses as raw bytes: the entries of the address array
    /// before its first null entry.
    pub open spec fn raw_addresses(self) -> Seq<Seq<u8>> {
        until_null(self.addr_list)
    }

    /// The addresses that can be read: the raw addresses where the family
    /// is known, and none where the native number names no family.
    pub open spec fn addresses(self) -> Seq<Seq<u8>> {
        match self.family {
            Some(_) => self.raw_addresses(),
            None => Seq::empty(),
        }
    }
}

/// A walk over the aliases of a host structure yields exactly the entries
/// of the alias array that stand before its first null entry, in order:
/// where that entry stands at position `n`, there are `n` aliases, alias `i`
/// is entry `i`, and what stands behind position `n` plays no part.
pub proof fn lemma_alias_walk(host: HostentView, n: int)
    requires
        0 <= n < host.aliases.len(),
        host.aliases[n] is None,
        forall|i: int| 0 <= i < n ==> host.aliases[i] is Some,
    ensures
        host.alias_names().len() == n,
        forall|i: int| 0 <= i < n ==> host.alias_names()[i] == host.aliases[i]->0,
        host.alias_names() == until_null(host.aliases.take(n + 1)),
{
    lemma_until_null_prefix(host.aliases, n);
    lemma_until_null_ignores_tail(host.aliases, n);
}

/// A walk over the addresses of a host structure whose family is known
/// yields exactly the entries of the address array that stand before its
/// first null entry, in order: where that entry stands at position `n`,
/// there are `n` addresses, address `i` is entry `i`, and what stands behind
/// position `n` plays no part.  In a well-formed structure each of them is
/// long enough to hold an address of the family.
pub proof fn lemma_address_walk(host: HostentView, n: int)
    requires
        host.family is Some,
        0 <= n < host.addr_list.len(),
        host.addr_list[n] is None,
        forall|i: int| 0 <= i < n ==> host.addr_list[i] is Some,
    ensures
        host.addresses().len() == n,
        forall|i: int| 0 <= i < n ==> host.addresses()[i] == host.addr_list[i]->0,
        host.addresses() == until_null(host.addr_list.take(n + 1)),
        host.well_formed() ==> forall|i: int|
            0 <= i < n ==> (#[trigger] host.addresses()[i]).len()
                >= host.family->0.spec_address_len(),
{
    lemma_until_null_prefix(host.addr_list, n);
    lemma_until_null_ignores_tail(host.addr_list, n);
}

/// A host structure in owned memory.  Every value of this type has the shape
/// that `HostentView::well_formed` describes.
#[derive(Debug)]
pub struct Hostent {
    h_name: String,
    h_aliases: Vec<Option<String>>,
    h_addrtype: i32,
    family: Option<AddressFamily>,
    h_length: i32,
    h_addr_list: Vec<Option<Vec<u8>>>,
}

impl View for Hostent {
    type V = HostentView;

    closed spec fn view(&self) -> HostentView {
        HostentView {
            name: self.h_name@,
            aliases: self.h_aliases.deep_view(),
            addrtype: self.h_addrtype,
            family: self.family,
            length: self.h_length,
            addr_list: self.h_addr_list.deep_view(),
        }
    }
}

/// Whether a list holds a null entry.
fn holds_null<T: DeepView>(list: &Vec<Option<T>>) -> (found: bool)
    ensures
        found == has_null(list.deep_view()),
{
    let mut i: usize = 0;
    while i < list.len()
        invariant
            i <= list.len(),
            forall|j: int| 0 <= j < i ==> list.deep_view()[j] is Some,
        decreases list.len() - i,
    {
        if list[i].is_none() {
            assert(list.deep_view()[i as int] is None);
            return true;
        }
        i += 1;
    }
    false
}

/// Whether each address before the first null entry holds `length` bytes.
fn addresses_hold(list: &Vec<Option<Vec<u8>>>, length: usize) -> (ok: bool)
    ensures
        ok == (forall|i: int|
            0 <= i < until_null(list.deep_view()).len() ==> (#[trigger] until_null(
                list.deep_view(),
            )[i]).len() == length),
{
    let ghost entries = list.deep_view();
    let mut i: usize = 0;
    while i < list.len()
        invariant
            i <= list.len(),
            entries == list.deep_view(),
            forall|j: int| 0 <= j < i ==> entries[j] is Some,
            forall|j: int| 0 <= j < i ==> (#[trigger] entries[j])->0.len() == length,
        decreases list.len() - i,
    {
        match &list[i] {
            None => {
                proof {
                    lemma_until_null_prefix(entries, i as int);
                }
                return true;
            },
            Some(address) => {
                if address.len() != length {
                    proof {
                        lemma_until_null_prefix(entries, i + 1);
                        assert(until_null(entries)[i as int] == entries[i as int]->0);
                    }
                    return false;
                }
            },
        }
        i += 1;
    }
    proof {
        lemma_until_null_prefix(entries, i as int);
    }
    true
}

impl Hostent {
    #[verifier::type_invariant]
    spec fn shaped(&self) -> bool {
        self@.well_formed()
    }

    /// Takes a host structure into owned memory, provided it has the shape
    /// that the engine keeps.  The family of its addresses is read from
    /// `h_addrtype` by the numbers that the platform gives the two families;
    /// a number that is neither of them names no family.
    ///
    /// The result is `None` where an array lacks its null entry, where
    /// `h_length` is negative, where an address before the null entry does
    /// not hold `h_length` bytes, or where `h_length` is less than what an
    /// address of the family takes.
    pub fn new(
        h_name: String,
        h_aliases: Vec<Option<String>>,
        h_addrtype: i32,
        h_length: i32,
        h_addr_list: Vec<Option<Vec<u8>>>,
    ) -> (host: Option<Hostent>)
        ensures
            exists|family: Option<AddressFamily>|
                {
                    let given = HostentView {
                        name: h_name@,
                        aliases: h_aliases.deep_view(),
                        addrtype: h_addrtype,
                        family,
                        length: h_length,
                        addr_list: h_addr_list.deep_view(),
                    };
                    &&& #[trigger] names_family(h_addrtype, family)
                    &&& match host {
                        Some(h) => given.well_formed() && h@ == given,
                        None => !given.well_formed(),
                    }
                },
            host matches Some(h) ==> {
                &&& h@.well_formed()
                &&& h@.name == h_name@
                &&& h@.aliases == h_aliases.deep_view()
                &&& h@.addrtype == h_addrtype
                &&& h@.length == h_length
                &&& h@.addr_list == h_addr_list.deep_view()
            },
            h_length >= 16 ==> (host is Some <==> (HostentView {
                name: h_name@,
                aliases: h_aliases.deep_view(),
                addrtype: h_addrtype,
                family: None,
                length: h_length,
                addr_list: h_addr_list.deep_view(),
            }).well_formed()),
    {
        let family = address_family(h_addrtype);
        Hostent::with_family(h_name, h_aliases, h_addrtype, family, h_length, h_addr_list)
    }

    /// Takes a host structure into owned memory, provided it has the shape
    /// that the engine keeps, where `family` is the family that `h_addrtype`
    /// names.
    ///
    /// The result is `None` where an array lacks its null entry, where
    /// `h_length` is negative, where an address before the null entry does
    /// not hold `h_length` bytes, or where `h_length` is less than what an
    /// address of `family` takes.
    pub fn with_family(
        h_name: String,
        h_aliases: Vec<Option<String>>,
        h_addrtype: i32,
        family: Option<AddressFamily>,
        h_length: i32,
        h_addr_list: Vec<Option<Vec<u8>>>,
    ) -> (host: Option<Hostent>)
        ensures
            ({
                let given = HostentView {
                    name: h_name@,
                    aliases: h_aliases.deep_view(),
                    addrtype: h_addrtype,
                    family,
                    length: h_length,
                    addr_list: h_addr_list.deep_view(),
                };
                match host {
                    Some(h) => given.well_formed() && h@ == given,
                    None => !given.well_formed(),
                }
            }),
    {
        if h_length < 0 {
            return None;
        }
        if !holds_null(&h_aliases) || !holds_null(&h_addr_list) {
            return None;
        }
        if !addresses_hold(&h_addr_list, h_length as usize) {
            return None;
        }
        match family {
            Some(known) => {
                if (h_length as usize) < known.address_len() {
                    return None;
                }
            },
            None => {},
        }
        Some(Hostent { h_name, h_aliases, h_addrtype, family, h_length, h_addr_list })
    }

    /// The host's official name.
    pub fn h_name(&self) -> (name: &str)
        ensures
            name@ == self@.name,
            self@.well_formed(),
    {
        proof {
            use_type_invariant(self);
        }
        self.h_name.as_str()
    }

    /// The alias array.
    pub fn h_aliases(&self) -> (aliases: &Vec<Option<String>>)
        ensures
            aliases.deep_view() == self@.aliases,
            self@.well_formed(),
    {
        proof {
            use_type_invariant(self);
        }
        &self.h_aliases
    }

    /// The native number of the address family.
    pub fn h_addrtype(&self) -> (addrtype: i32)
        ensures
            addrtype == self@.addrtype,
            self@.well_formed(),
    {
        proof {
            use_type_invariant(self);
        }
        self.h_addrtype
    }

    /// The address family that the native number names, if it names one.
    pub fn family(&self) -> (family: Option<AddressFamily>)
        ensures
            family == self@.family,
            self@.well_formed(),
    {
        proof {
            use_type_invariant(self);
        }
        self.family
    }

    /// The number of bytes in each address.
    pub fn h_length(&self) -> (length: i32)
        ensures
            length == self@.length,
            self@.well_formed(),
    {
        proof {
            use_type_invariant(self);
        }
        self.h_length
    }

    /// The address array.
    pub fn h_addr_list(&self) -> (addr_list: &Vec<Option<Vec<u8>>>)
        ensures
            addr_list.deep_view() == self@.addr_list,
            self@.well_formed(),
    {
        proof {
            use_type_invariant(self);
        }
        &self.h_addr_list
    }
}

} // verus!

//! The result of a host lookup: views over a host structure that the engine
//! filled in.

use vstd::prelude::*;
use crate::error::{spec_ares_error, AresError, ARES_SUCCESS};
use crate::hostent::{has_null, until_null, Hostent, HostentView};
use crate::types::{AddressFamily, IpAddr, Ipv4Addr, Ipv6Addr};
use crate::utils::{ares_error, bytes_segments, ipv6_from_bytes};

verus! {

/// The result of a successful host lookup.
pub struct HostResults<'a> {
    hostent: &'a Hostent,
}

/// An alias, as retrieved from a host lookup.
pub struct HostAliasResult<'a> {
    h_alias: &'a String,
}

/// An address, as retrieved from a host lookup.
pub struct HostAddressResult<'a> {
    family: AddressFamily,
    h_addr: &'a Vec<u8>,
}

/// Walks the addresses of a host structure, from the first one up to the
/// null entry that ends them.
pub struct HostAddressResultsIterator<'a> {
    family: AddressFamily,
    list: Option<&'a Vec<Option<Vec<u8>>>>,
    next: usize,
}

/// Walks the aliases of a host structure, from the first one up to the null
/// entry that ends them.
pub struct HostAliasResultsIterator<'a> {
    list: &'a Vec<Option<String>>,
    next: usize,
}

/// The family under which a walk reads the addresses: the one that was
/// found, and IPv4 where none was.
pub open spec fn spec_walk_family(family: Option<AddressFamily>) -> AddressFamily {
    match family {
        Some(f) => f,
        None => AddressFamily::INET,
    }
}

impl<'a> View for HostResults<'a> {
    type V = HostentView;

    closed spec fn view(&self) -> HostentView {
        self.hostent@
    }
}

impl<'a> HostResults<'a> {
    /// The result that looks at `hostent`.
    pub closed spec fn over(hostent: &'a Hostent) -> HostResults<'a> {
        HostResults { hostent }
    }

    /// The result that looks at a host structure shows that structure.
    pub proof fn lemma_over(hostent: &'a Hostent)
        ensures
            Self::over(hostent)@ == hostent@,
    {
    }

    /// Makes the result of a host lookup from the structure that the engine
    /// filled in.
    pub fn new(hostent: &'a Hostent) -> (results: HostResults<'a>)
        ensures
            results == Self::over(hostent),
            results@ == hostent@,
    {
        HostResults { hostent }
    }

    /// Returns the hostname from this `HostResults`.
    pub fn hostname(&self) -> (name: &'a str)
        ensures
            name@ == self@.name,
    {
        self.hostent.h_name()
    }

    /// Returns a walk over the `HostAddressResult` values in this
    /// `HostResults`: one for each entry of the address array before its
    /// first null entry, in order.
    ///
    /// Where the structure's family number names no family, the walk yields
    /// nothing.
    pub fn addresses(&self) -> (walk: HostAddressResultsIterator<'a>)
        ensures
            walk.family() == spec_walk_family(self@.family),
            walk.remaining() == self@.addresses(),
    {
        match self.hostent.family() {
            Some(family) => {
                let list = self.hostent.h_addr_list();
                assert(list.deep_view().skip(0) =~= list.deep_view());
                HostAddressResultsIterator { family, list: Some(list), next: 0 }
            },
            None => HostAddressResultsIterator { family: AddressFamily::INET, list: None, next: 0 },
        }
    }

    /// Returns a walk over the `HostAliasResult` values in this
    /// `HostResults`.
    pub fn aliases(&self) -> (walk: HostAliasResultsIterator<'a>)
        ensures
            walk.remaining() == self@.alias_names(),
    {
        let list = self.hostent.h_aliases();
        assert(list.deep_view().skip(0) =~= list.deep_view());
        HostAliasResultsIterator { list, next: 0 }
    }
}

impl<'a> HostAddressResultsIterator<'a> {
    #[verifier::type_invariant]
    spec fn sound(&self) -> bool {
        &&& match self.list {
            Some(list) => self.next <= list@.len() && has_null(
                list.deep_view().skip(self.next as int),
            ),
            None => true,
        }
        &&& forall|i: int|
            0 <= i < self.remaining().len() ==> (#[trigger] self.remaining()[i]).len()
                >= self.family.spec_address_len()
    }

    /// The family under which the addresses are read.
    pub closed spec fn family(&self) -> AddressFamily {
        self.family
    }

    /// The raw addresses that are still to come, in order.
    pub closed spec fn remaining(&self) -> Seq<Seq<u8>> {
        match self.list {
            Some(list) => until_null(list.deep_view().skip(self.next as int)),
            None => Seq::empty(),
        }
    }

    /// Yields the next address, or `None` at the null entry that ends the
    /// addresses.  At that entry the walk stays where it is, so that it goes
    /// on yielding `None`.
    pub fn next(&mut self) -> (item: Option<HostAddressResult<'a>>)
        ensures
            final(self).family() == old(self).family(),
            match item {
                Some(address) => {
                    &&& old(self).remaining().len() > 0
                    &&& address.family() == old(self).family()
                    &&& address@ == old(self).remaining()[0]
                    &&& final(self).remaining() == old(self).remaining().drop_first()
                },
                None => old(self).remaining().len() == 0 && *final(self) == *old(self),
            },
    {
        proof {
            use_type_invariant(&*self);
        }
        match self.list {
            None => None,
            Some(list) => {
                let ghost entries = list.deep_view().skip(self.next as int);
                assert(self.next < list.len());
                match &list[self.next] {
                    None => None,
                    Some(h_addr) => {
                        proof {
                            let rest = list.deep_view().skip(self.next as int + 1);
                            assert(entries.drop_first() =~= rest);
                            assert(self.remaining()[0] == h_addr@);
                            let i = choose|i: int| 0 <= i < entries.len() && entries[i] is None;
                            assert(rest[i - 1] is None);
                            assert forall|i: int| 0 <= i < until_null(rest).len() implies (
                            #[trigger] until_null(rest)[i]).len()
                                >= self.family.spec_address_len() by {
                                assert(until_null(rest)[i] == self.remaining()[i + 1]);
                            }
                        }
                        let address = HostAddressResult { family: self.family, h_addr };
                        self.next = self.next + 1;
                        Some(address)
                    },
                }
            },
        }
    }

    /// Yields all the addresses that are still to come, in order.
    pub fn collect(self) -> (items: Vec<HostAddressResult<'a>>)
        ensures
            items@.len() == self.remaining().len(),
            forall|i: int|
                0 <= i < items@.len() ==> (#[trigger] items@[i])@ == self.remaining()[i]
                    && items@[i].family() == self.family(),
    {
        let ghost all = self.remaining();
        let ghost family = self.family();
        let mut walk = self;
        let mut items: Vec<HostAddressResult<'a>> = Vec::new();
        loop
            invariant
                walk.family() == family,
                items@.len() + walk.remaining().len() == all.len(),
                walk.remaining() == all.skip(items@.len() as int),
                forall|i: int|
                    0 <= i < items@.len() ==> (#[trigger] items@[i])@ == all[i]
                        && items@[i].family() == family,
            ensures
                items@.len() == all.len(),
                forall|i: int|
                    0 <= i < items@.len() ==> (#[trigger] items@[i])@ == all[i]
                        && items@[i].family() == family,
            decreases walk.remaining().len(),
        {
            match walk.next() {
                None => {
                    break ;
                },
                Some(address) => {
                    items.push(address);
                },
            }
        }
        items
    }
}

impl<'a> HostAliasResultsIterator<'a> {
    #[verifier::type_invariant]
    spec fn sound(&self) -> bool {
        self.next <= self.list@.len() && has_null(self.list.deep_view().skip(self.next as int))
    }

    /// The aliases that are still to come, in order.
    pub closed spec fn remaining(&self) -> Seq<Seq<char>> {
        until_null(self.list.deep_view().skip(self.next as int))
    }

    /// Yields the next alias, or `None` at the null entry that ends the
    /// aliases.  At that entry the walk stays where it is, so that it goes on
    /// yielding `None`.
    pub fn next(&mut self) -> (item: Option<HostAliasResult<'a>>)
        ensures
            match item {
                Some(alias) => {
                    &&& old(self).remaining().len() > 0
                    &&& alias@ == old(self).remaining()[0]
                    &&& final(self).remaining() == old(self).remaining().drop_first()
                },
                None => old(self).remaining().len() == 0 && *final(self) == *old(self),
            },
    {
        proof {
            use_type_invariant(&*self);
        }
        let list = self.list;
        let ghost entries = list.deep_view().skip(self.next as int);
        assert(self.next < list.len());
        match &list[self.next] {
            None => None,
            Some(h_alias) => {
                proof {
                    let rest = list.deep_view().skip(self.next as int + 1);
                    assert(entries.drop_first() =~= rest);
                    let i = choose|i: int| 0 <= i < entries.len() && entries[i] is None;
                    assert(rest[i - 1] is None);
                }
                self.next = self.next + 1;
                Some(HostAliasResult { h_alias })
            },
        }
    }

    /// Yields all the aliases that are still to come, in order.
    pub fn collect(self) -> (items: Vec<HostAliasResult<'a>>)
        ensures
            items@.len() == self.remaining().len(),
            forall|i: int| 0 <= i < items@.len() ==> (#[trigger] items@[i])@ == self.remaining()[i],
    {
        let ghost all = self.remaining();
        let mut walk = self;
        let mut items: Vec<HostAliasResult<'a>> = Vec::new();
        loop
            invariant
                items@.len() + walk.remaining().len() == all.len(),
                walk.remaining() == all.skip(items@.len() as int),
                forall|i: int| 0 <= i < items@.len() ==> (#[trigger] items@[i])@ == all[i],
            ensures
                items@.len() == all.len(),
                forall|i: int| 0 <= i < items@.len() ==> (#[trigger] items@[i])@ == all[i],
            decreases walk.remaining().len(),
        {
            match walk.next() {
                None => {
                    break ;
                },
                Some(alias) => {
                    items.push(alias);
                },
            }
        }
        items
    }
}

impl<'a> View for HostAddressResult<'a> {
    type V = Seq<u8>;

    /// The raw bytes of the address.
    closed spec fn view(&self) -> Seq<u8> {
        self.h_addr@
    }
}

impl<'a> HostAddressResult<'a> {
    #[verifier::type_invariant]
    spec fn sound(&self) -> bool {
        self.h_addr@.len() >= self.family.spec_address_len()
    }

    /// The family under which the address is read.
    pub closed spec fn family(&self) -> AddressFamily {
        self.family
    }

    /// Returns the IP address in this `HostAddressResult`: an IPv4 address
    /// from the first four bytes, or an IPv6 address from the first sixteen
    /// bytes, each 16-bit group with its most significant byte first.
    pub fn ip_address(&self) -> (ip: IpAddr)
        ensures
            match ip {
                IpAddr::V4(ipv4) => self.family() == AddressFamily::INET && ipv4.octets@
                    == self@.take(4),
                IpAddr::V6(ipv6) => self.family() == AddressFamily::INET6 && ipv6.segments@
                    == bytes_segments(self@.take(16)),
            },
    {
        proof {
            use_type_invariant(self);
        }
        match self.family {
            AddressFamily::INET => {
                let ipv4 = self.ipv4_address();
                IpAddr::V4(ipv4)
            },
            AddressFamily::INET6 => {
                let ipv6 = self.ipv6_addr();
                IpAddr::V6(ipv6)
            },
        }
    }

    /// The IPv4 address that the first four bytes hold.
    fn ipv4_address(&self) -> (ipv4: Ipv4Addr)
        requires
            self@.len() >= 4,
        ensures
            ipv4.octets@ == self@.take(4),
    {
        let h_addr = self.h_addr;
        Ipv4Addr::new(h_addr[0], h_addr[1], h_addr[2], h_addr[3])
    }

    /// The IPv6 address that the first sixteen bytes hold.
    fn ipv6_addr(&self) -> (ipv6: Ipv6Addr)
        requires
            self@.len() >= 16,
        ensures
            ipv6.segments@ == bytes_segments(self@.take(16)),
    {
        ipv6_from_bytes(self.h_addr.as_slice())
    }
}

impl<'a> View for HostAliasResult<'a> {
    type V = Seq<char>;

    /// The characters of the alias.
    closed spec fn view(&self) -> Seq<char> {
        self.h_alias@
    }
}

impl<'a> HostAliasResult<'a> {
    /// Returns the alias in this `HostAliasResult`.
    pub fn alias(&self) -> (alias: &'a str)
        ensures
            alias@ == self@,
    {
        self.h_alias.as_str()
    }
}

/// What a host lookup hands to its completion handler: the error that the
/// status stands for where the status is not success, the view over the host
/// structure where it is, and a bad-response error where the engine reports
/// success and gives no structure.
pub open spec fn spec_host_result<'a>(status: i32, hostent: Option<&'a Hostent>) -> Result<
    HostResults<'a>,
    AresError,
> {
    if status != ARES_SUCCESS {
        Err(spec_ares_error(status))
    } else {
        match hostent {
            Some(h) => Ok(HostResults::over(h)),
            None => Err(AresError::EBADRESP),
        }
    }
}

/// Works out what a host lookup hands to its completion handler.
pub fn host_result<'a>(status: i32, hostent: Option<&'a Hostent>) -> (result: Result<
    HostResults<'a>,
    AresError,
>)
    ensures
        result == spec_host_result(status, hostent),
        result matches Ok(results) ==> hostent matches Some(h) && results@ == h@,
{
    if status != ARES_SUCCESS {
        Err(ares_error(status))
    } else {
        match hostent {
            Some(h) => Ok(HostResults::new(h)),
            None => Err(AresError::EBADRESP),
        }
    }
}

/// Completes a host lookup: calls `handler`, once, with the outcome that
/// `status` and `hostent` stand for.
pub fn get_host_callback<'a, F>(
    handler: F,
    status: i32,
    _timeouts: i32,
    hostent: Option<&'a Hostent>,
) where F: FnOnce(Result<HostResults<'a>, AresError>)
    requires
        handler.requires((spec_host_result(status, hostent),)),
    ensures
        handler.ensures((spec_host_result(status, hostent),), ()),
{
    let result = host_result(status, hostent);
    handler(result);
}

} // verus!

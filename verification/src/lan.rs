//! The choice of the LAN address that the server announces: the host's
//! network interfaces are filtered to usable IPv4 addresses, ordered with
//! physical adapters and home subnets first, and repeated addresses removed.
use vstd::prelude::*;

use crate::i18n::{tr_owned, tr_spec, GuiLanguage};
use crate::text::{ascii_lower, contains_chars};
use crate::labels::{is_virtual_adapter, lan_address_rank, lan_rank, virtual_adapter_rank};

verus! {

/// An address of a network interface, as the host lists it; `ipv4` is
/// `None` for an IPv6 address.
#[derive(Debug, Clone, PartialEq, Eq)]
pub struct InterfaceAddress {
    pub name: String,
    pub ipv4: Option<[u8; 4]>,
}

/// A usable LAN address and the adapter that carries it.
#[derive(Debug, Clone, PartialEq, Eq)]
pub struct LanCandidate {
    pub name: String,
    pub address: [u8; 4],
}

/// An interface address as characters and octets.
pub struct InterfaceView {
    pub name: Seq<char>,
    pub ipv4: Option<Seq<u8>>,
}

/// A candidate as characters and octets.
pub struct CandidateView {
    pub name: Seq<char>,
    pub address: Seq<u8>,
}

impl View for InterfaceAddress {
    type V = InterfaceView;

    open spec fn view(&self) -> InterfaceView {
        InterfaceView {
            name: self.name@,
            ipv4: match self.ipv4 {
                Some(a) => Some(a@),
                None => None,
            },
        }
    }
}

impl View for LanCandidate {
    type V = CandidateView;

    open spec fn view(&self) -> CandidateView {
        CandidateView { name: self.name@, address: self.address@ }
    }
}

/// An address that other machines can reach: not loopback (127/8), not
/// `0.0.0.0`, not multicast (224/4) and not link-local (169.254/16).
pub open spec fn usable_lan_address(a: Seq<u8>) -> bool {
    &&& a[0] != 127
    &&& !(a[0] == 0 && a[1] == 0 && a[2] == 0 && a[3] == 0)
    &&& !(224 <= a[0] <= 239)
    &&& !(a[0] == 169 && a[1] == 254)
}

/// The 32-bit number of an address (its order as an IPv4 address).
pub open spec fn address_value(a: Seq<u8>) -> int {
    a[0] * 0x100_0000 + a[1] * 0x1_0000 + a[2] * 0x100 + a[3]
}

/// The rank of a candidate: adapter rank, then address rank, then the
/// address itself, combined into one number whose order is the
/// lexicographic order of the three.
pub open spec fn candidate_key(c: CandidateView) -> int {
    (if is_virtual_adapter(c.name) {
        1int
    } else {
        0int
    }) * 0x100_0000_0000 + lan_rank(c.address) * 0x1_0000_0000 + address_value(c.address)
}

/// The usable IPv4 addresses of the interfaces, in the host's order.
pub open spec fn usable_candidates(s: Seq<InterfaceView>) -> Seq<CandidateView>
    decreases s.len(),
{
    if s.len() == 0 {
        Seq::empty()
    } else {
        let rest = usable_candidates(s.drop_last());
        match s.last().ipv4 {
            Some(a) => if usable_lan_address(a) {
                rest.push(CandidateView { name: s.last().name, address: a })
            } else {
                rest
            },
            None => rest,
        }
    }
}

/// `x` inserted into `s` after every element whose rank is not greater.
pub open spec fn insert_by_rank(s: Seq<CandidateView>, x: CandidateView) -> Seq<CandidateView>
    decreases s.len(),
{
    if s.len() == 0 || candidate_key(s.last()) <= candidate_key(x) {
        s.push(x)
    } else {
        insert_by_rank(s.drop_last(), x).push(s.last())
    }
}

/// The stable sort of candidates by rank: equal ranks keep their order.
pub open spec fn sort_by_rank(s: Seq<CandidateView>) -> Seq<CandidateView>
    decreases s.len(),
{
    if s.len() == 0 {
        s
    } else {
        insert_by_rank(sort_by_rank(s.drop_last()), s.last())
    }
}

/// All but the first of each run of consecutive candidates with the same address.
pub open spec fn dedup_by_address(s: Seq<CandidateView>) -> Seq<CandidateView>
    decreases s.len(),
{
    if s.len() == 0 {
        s
    } else {
        let rest = dedup_by_address(s.drop_last());
        if rest.len() > 0 && rest.last().address == s.last().address {
            rest
        } else {
            rest.push(s.last())
        }
    }
}

/// The LAN candidates of a host's interface addresses, best first.
pub open spec fn lan_candidates(s: Seq<InterfaceView>) -> Seq<CandidateView> {
    dedup_by_address(sort_by_rank(usable_candidates(s)))
}

pub open spec fn ranked(s: Seq<CandidateView>) -> bool {
    forall|i: int, j: int|
        0 <= i <= j < s.len() ==> candidate_key(#[trigger] s[i]) <= candidate_key(#[trigger] s[j])
}

pub open spec fn no_lan_address_message(language: GuiLanguage) -> Seq<char> {
    tr_spec(
        language,
        "사용 가능한 LAN IPv4 주소를 찾지 못했습니다"@,
        "No usable LAN IPv4 address was found"@,
        "未找到可用的局域网 IPv4 地址"@,
    )
}

/// `p` is where `x` goes in ranked `s`: after exactly the candidates whose
/// rank is not greater.
pub open spec fn insert_point(s: Seq<CandidateView>, x: CandidateView, p: int) -> bool {
    &&& 0 <= p <= s.len()
    &&& forall|k: int| 0 <= k < p ==> candidate_key(#[trigger] s[k]) <= candidate_key(x)
    &&& forall|k: int| p <= k < s.len() ==> candidate_key(#[trigger] s[k]) > candidate_key(x)
}

/// Inserting into ranked candidates places the new one after exactly the
/// ones whose rank is not greater.
proof fn lemma_insert_position(s: Seq<CandidateView>, x: CandidateView, p: int)
    requires
        ranked(s),
        insert_point(s, x, p),
    ensures
        insert_by_rank(s, x) == s.take(p).push(x) + s.skip(p),
        ranked(insert_by_rank(s, x)),
    decreases s.len(),
{
    if s.len() == 0 || candidate_key(s.last()) <= candidate_key(x) {
        if s.len() > 0 && p < s.len() {
            assert(candidate_key(s[s.len() - 1]) > candidate_key(x));
        }
        assert(p == s.len());
        assert(s.take(p) =~= s);
        assert(s.skip(p) =~= Seq::<CandidateView>::empty());
        assert(s.take(p).push(x) + s.skip(p) =~= s.push(x));
    } else {
        let t = s.drop_last();
        assert(p < s.len()) by {
            if p == s.len() {
                assert(candidate_key(s[s.len() - 1]) <= candidate_key(x));
            }
        }
        assert(ranked(t));
        lemma_insert_position(t, x, p);
        assert(t.take(p) =~= s.take(p));
        assert(t.skip(p).push(s.last()) =~= s.skip(p));
        assert(insert_by_rank(s, x) =~= s.take(p).push(x) + s.skip(p));
    }
    let r = s.take(p).push(x) + s.skip(p);
    assert forall|i: int, j: int| 0 <= i <= j < r.len() implies candidate_key(#[trigger] r[i])
        <= candidate_key(#[trigger] r[j]) by {
        if i < p && j < p {
            assert(r[i] == s[i] && r[j] == s[j]);
        } else if i < p && j == p {
            assert(r[i] == s[i]);
        } else if i < p {
            assert(r[i] == s[i] && r[j] == s[j - 1]);
        } else if i == p && j > p {
            assert(r[j] == s[j - 1]);
        } else if i > p {
            assert(r[i] == s[i - 1] && r[j] == s[j - 1]);
        }
    }
}

/// The stable sort orders candidates by rank.
pub proof fn lemma_sort_by_rank_ranked(s: Seq<CandidateView>)
    ensures
        ranked(sort_by_rank(s)),
        sort_by_rank(s).len() == s.len(),
    decreases s.len(),
{
    if s.len() > 0 {
        let t = sort_by_rank(s.drop_last());
        lemma_sort_by_rank_ranked(s.drop_last());
        let x = s.last();
        let p = choose|p: int| #[trigger] insert_point(t, x, p);
        lemma_insert_point_exists(t, x);
        lemma_insert_position(t, x, p);
    }
}

proof fn lemma_insert_point_exists(t: Seq<CandidateView>, x: CandidateView)
    requires
        ranked(t),
    ensures
        exists|p: int| #[trigger] insert_point(t, x, p),
    decreases t.len(),
{
    if t.len() == 0 {
        assert(insert_point(t, x, 0));
    } else if candidate_key(t.last()) <= candidate_key(x) {
        let p = t.len() as int;
        assert(forall|k: int| 0 <= k < p ==> candidate_key(#[trigger] t[k]) <= candidate_key(x))
            by {
            assert forall|k: int| 0 <= k < p implies candidate_key(#[trigger] t[k])
                <= candidate_key(x) by {
                assert(candidate_key(t[k]) <= candidate_key(t[t.len() - 1]));
            }
        }
        assert(insert_point(t, x, p));
    } else {
        let u = t.drop_last();
        assert(ranked(u));
        lemma_insert_point_exists(u, x);
        let p = choose|p: int| #[trigger] insert_point(u, x, p);
        assert(forall|k: int| 0 <= k < p ==> candidate_key(#[trigger] t[k]) <= candidate_key(x))
            by {
            assert forall|k: int| 0 <= k < p implies candidate_key(#[trigger] t[k])
                <= candidate_key(x) by {
                assert(t[k] == u[k]);
            }
        }
        assert(forall|k: int| p <= k < t.len() ==> candidate_key(#[trigger] t[k]) > candidate_key(x))
            by {
            assert forall|k: int| p <= k < t.len() implies candidate_key(#[trigger] t[k])
                > candidate_key(x) by {
                if k < u.len() {
                    assert(t[k] == u[k]);
                }
            }
        }
        assert(insert_point(t, x, p));
    }
}

/// Removing repeated addresses keeps candidates in rank order, keeps only
/// candidates of the input, and leaves no two neighbours with one address.
proof fn lemma_dedup_by_address(s: Seq<CandidateView>)
    requires
        ranked(s),
    ensures
        ranked(dedup_by_address(s)),
        forall|i: int|
            0 <= i < dedup_by_address(s).len() ==> exists|m: int|
                0 <= m < s.len() && #[trigger] dedup_by_address(s)[i] == s[m],
        forall|i: int|
            0 <= i < dedup_by_address(s).len() - 1 ==> (#[trigger] dedup_by_address(s)[i]).address
                != dedup_by_address(s)[i + 1].address,
    decreases s.len(),
{
    if s.len() > 0 {
        let t = s.drop_last();
        assert(ranked(t));
        lemma_dedup_by_address(t);
        let rest = dedup_by_address(t);
        let d = dedup_by_address(s);
        assert forall|i: int| 0 <= i < d.len() implies exists|m: int|
            0 <= m < s.len() && #[trigger] d[i] == s[m] by {
            if i < rest.len() {
                let m = choose|m: int| 0 <= m < t.len() && rest[i] == t[m];
                assert(d[i] == s[m]);
            } else {
                assert(d[i] == s[s.len() - 1]);
            }
        }
        if !(rest.len() > 0 && rest.last().address == s.last().address) {
            assert forall|i: int, j: int| 0 <= i <= j < d.len() implies candidate_key(
                #[trigger] d[i],
            ) <= candidate_key(#[trigger] d[j]) by {
                if j == d.len() - 1 && i < j {
                    let m = choose|m: int| 0 <= m < t.len() && rest[i] == t[m];
                    assert(d[i] == s[m]);
                    assert(d[j] == s[s.len() - 1]);
                } else if j < d.len() - 1 {
                    assert(d[i] == rest[i] && d[j] == rest[j]);
                }
            }
            assert forall|i: int| 0 <= i < d.len() - 1 implies (#[trigger] d[i]).address != d[i
                + 1].address by {
                if i < d.len() - 2 {
                    assert(d[i] == rest[i] && d[i + 1] == rest[i + 1]);
                }
            }
        }
    }
}

/// Order of the LAN candidates: best rank first, and no address twice in a row.
pub proof fn lemma_lan_candidates_ordered(s: Seq<InterfaceView>)
    ensures
        ranked(lan_candidates(s)),
        forall|i: int|
            0 <= i < lan_candidates(s).len() - 1 ==> (#[trigger] lan_candidates(s)[i]).address
                != lan_candidates(s)[i + 1].address,
{
    lemma_sort_by_rank_ranked(usable_candidates(s));
    lemma_dedup_by_address(sort_by_rank(usable_candidates(s)));
}

/// The rank of a candidate, computed.
fn candidate_rank(name: &str, address: [u8; 4]) -> (res: u64)
    ensures
        res == candidate_key(CandidateView { name: name@, address: address@ }),
{
    let adapter = virtual_adapter_rank(name) as u64;
    let subnet = lan_address_rank(address) as u64;
    let value = address[0] as u64 * 0x100_0000 + address[1] as u64 * 0x1_0000 + address[2] as u64
        * 0x100 + address[3] as u64;
    adapter * 0x100_0000_0000 + subnet * 0x1_0000_0000 + value
}

fn usable_address(a: [u8; 4]) -> (res: bool)
    ensures
        res == usable_lan_address(a@),
{
    a[0] != 127 && !(a[0] == 0 && a[1] == 0 && a[2] == 0 && a[3] == 0) && !(a[0] >= 224 && a[0]
        <= 239) && !(a[0] == 169 && a[1] == 254)
}

fn same_address(a: [u8; 4], b: [u8; 4]) -> (res: bool)
    ensures
        res == (a@ == b@),
{
    let res = a[0] == b[0] && a[1] == b[1] && a[2] == b[2] && a[3] == b[3];
    if res {
        assert(a@ =~= b@);
    }
    res
}

/// The LAN candidates among a host's interface addresses, best first: usable
/// IPv4 addresses, physical adapters before virtual ones, then by address
/// rank and address, keeping the host's order among equals, and each address
/// once per run of equal addresses.  No candidate at all is an error.
pub fn select_lan_candidates(interfaces: &Vec<InterfaceAddress>, language: GuiLanguage) -> (res:
    Result<Vec<LanCandidate>, String>)
    ensures
        ({
            let expected = lan_candidates(interfaces@.map_values(|i: InterfaceAddress| i@));
            match res {
                Ok(candidates) => expected.len() > 0 && candidates@.map_values(
                    |c: LanCandidate| c@,
                ) == expected,
                Err(m) => expected.len() == 0 && m@ == no_lan_address_message(language),
            }
        }),
{
    let ghost input = interfaces@.map_values(|i: InterfaceAddress| i@);
    let mut sorted: Vec<LanCandidate> = Vec::new();
    let mut ranks: Vec<u64> = Vec::new();
    let mut i: usize = 0;
    while i < interfaces.len()
        invariant
            i <= interfaces@.len(),
            input == interfaces@.map_values(|i: InterfaceAddress| i@),
            sorted@.map_values(|c: LanCandidate| c@) == sort_by_rank(
                usable_candidates(input.take(i as int)),
            ),
            ranks@.len() == sorted@.len(),
            forall|k: int| 0 <= k < sorted@.len() ==> #[trigger] ranks@[k] == candidate_key(sorted@[k]@),
        decreases interfaces@.len() - i,
    {
        let ghost before = sorted@.map_values(|c: LanCandidate| c@);
        proof {
            assert(input.take(i + 1).drop_last() =~= input.take(i as int));
            assert(input.take(i + 1).last() == interfaces@[i as int]@);
            lemma_sort_by_rank_ranked(usable_candidates(input.take(i as int)));
        }
        let interface = &interfaces[i];
        match interface.ipv4 {
            Some(address) => {
                if usable_address(address) {
                    let candidate = LanCandidate { name: interface.name.clone(), address };
                    let rank = candidate_rank(interface.name.as_str(), address);
                    let mut j = sorted.len();
                    while j > 0 && ranks[j - 1] > rank
                        invariant
                            j <= sorted@.len(),
                            ranks@.len() == sorted@.len(),
                            forall|k: int|
                                0 <= k < sorted@.len() ==> #[trigger] ranks@[k] == candidate_key(
                                    sorted@[k]@,
                                ),
                            forall|k: int| j <= k < sorted@.len() ==> #[trigger] ranks@[k] > rank,
                        decreases j,
                    {
                        j = j - 1;
                    }
                    proof {
                        let x = candidate@;
                        assert(rank == candidate_key(x));
                        assert forall|k: int| 0 <= k < j implies candidate_key(#[trigger] before[k])
                            <= candidate_key(x) by {
                            assert(before[k] == sorted@[k]@);
                            assert(before[j - 1] == sorted@[j - 1]@);
                            assert(ranks@[j - 1] <= rank);
                        }
                        assert forall|k: int| j <= k < before.len() implies candidate_key(
                            #[trigger] before[k],
                        ) > candidate_key(x) by {
                            assert(before[k] == sorted@[k]@);
                            assert(ranks@[k] > rank);
                            assert(ranks@[k] == candidate_key(sorted@[k]@));
                        }
                        assert(insert_point(before, x, j as int));
                        lemma_insert_position(before, x, j as int);
                    }
                    let ghost sorted_before = sorted@;
                    let ghost ranks_before = ranks@;
                    sorted.insert(j, candidate);
                    ranks.insert(j, rank);
                    proof {
                        let x = candidate@;
                        let u = usable_candidates(input.take(i as int));
                        assert(usable_candidates(input.take(i + 1)) == u.push(x));
                        assert(u.push(x).drop_last() =~= u);
                        assert(sort_by_rank(u.push(x)) == insert_by_rank(sort_by_rank(u), x));
                        assert(sorted@.map_values(|c: LanCandidate| c@) =~= before.take(j as int).push(
                            x,
                        ) + before.skip(j as int));
                        assert forall|k: int| 0 <= k < sorted@.len() implies #[trigger] ranks@[k]
                            == candidate_key(sorted@[k]@) by {
                            if k > j {
                                assert(sorted@[k] == sorted_before[k - 1]);
                                assert(ranks@[k] == ranks_before[k - 1]);
                            } else if k < j {
                                assert(sorted@[k] == sorted_before[k]);
                                assert(ranks@[k] == ranks_before[k]);
                            }
                        }
                    }
                }
            },
            None => {},
        }
        i = i + 1;
    }
    proof {
        assert(input.take(interfaces@.len() as int) =~= input);
    }
    let ghost ordered = sorted@.map_values(|c: LanCandidate| c@);
    let mut result: Vec<LanCandidate> = Vec::new();
    let mut k: usize = 0;
    while k < sorted.len()
        invariant
            k <= sorted@.len(),
            ordered == sorted@.map_values(|c: LanCandidate| c@),
            result@.map_values(|c: LanCandidate| c@) == dedup_by_address(ordered.take(k as int)),
        decreases sorted@.len() - k,
    {
        proof {
            assert(ordered.take(k + 1).drop_last() =~= ordered.take(k as int));
            assert(ordered.take(k + 1).last() == sorted@[k as int]@);
        }
        let keep = if result.len() == 0 {
            true
        } else {
            let last = result.len() - 1;
            !same_address(result[last].address, sorted[k].address)
        };
        if keep {
            let candidate = LanCandidate { name: sorted[k].name.clone(), address: sorted[k].address };
            result.push(candidate);
        }
        k = k + 1;
        proof {
            assert(result@.map_values(|c: LanCandidate| c@) =~= dedup_by_address(
                ordered.take(k as int),
            ));
        }
    }
    proof {
        assert(ordered.take(sorted@.len() as int) =~= ordered);
    }
    if result.len() == 0 {
        return Err(
            tr_owned(
                language,
                "사용 가능한 LAN IPv4 주소를 찾지 못했습니다",
                "No usable LAN IPv4 address was found",
                "未找到可用的局域网 IPv4 地址",
            ),
        );
    }
    Ok(result)
}

/// An adapter name, lower-cased in ASCII, holds one of the words that mark a
/// virtual, VPN or tunnel adapter.
pub open spec fn names_virtual_adapter(name: Seq<char>) -> bool {
    let lower = name.map_values(|c: char| ascii_lower(c));
    ||| contains_chars(lower, "virtual"@)
    ||| contains_chars(lower, "vethernet"@)
    ||| contains_chars(lower, "vmware"@)
    ||| contains_chars(lower, "virtualbox"@)
    ||| contains_chars(lower, "wsl"@)
    ||| contains_chars(lower, "vpn"@)
    ||| contains_chars(lower, "tailscale"@)
    ||| contains_chars(lower, "radmin"@)
    ||| contains_chars(lower, "hyper-v"@)
}

/// Physical adapters first: among the LAN candidates, every candidate of an
/// adapter whose name holds one of the virtual-adapter words (a VPN tunnel
/// such as "OpenVPN TAP-Windows6" among them) comes after every candidate of
/// an adapter whose name holds none of them.
pub proof fn lemma_physical_adapters_first(s: Seq<InterfaceView>)
    ensures
        forall|i: int, j: int|
            #![trigger lan_candidates(s)[i], lan_candidates(s)[j]]
            0 <= i < j < lan_candidates(s).len() && names_virtual_adapter(lan_candidates(s)[i].name)
                ==> names_virtual_adapter(lan_candidates(s)[j].name),
{
    lemma_lan_candidates_ordered(s);
    let out = lan_candidates(s);
    assert forall|i: int, j: int|
        #![trigger out[i], out[j]]
        0 <= i < j < out.len() && names_virtual_adapter(out[i].name) implies names_virtual_adapter(
            out[j].name,
        ) by {
        assert(candidate_key(out[i]) <= candidate_key(out[j]));
        assert(is_virtual_adapter(out[i].name));
        if !is_virtual_adapter(out[j].name) {
            let a = out[j].address;
            assert(address_value(a) <= 0xffff_ffff);
            assert(lan_rank(a) <= 4);
            assert(candidate_key(out[j]) < 0x100_0000_0000);
            assert(candidate_key(out[i]) >= 0x100_0000_0000);
        }
    }
}

} // verus!

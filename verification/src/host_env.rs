//! The host's network cards that the UI offers for reaching the board:
//! physical adapters with a usable IPv4 address, wireless first, then wired
//! LAN, then the rest, each group by name and address.
use vstd::prelude::*;

use crate::text::{
    chars_of, contains_seq, contains_str, dec, push_dec, push_str, starts_with_seq,
    starts_with_str, string_of, to_lowercase, trim, trim_chars, unicode_lowercase,
};

verus! {

/// A network card of the host and one of its IPv4 addresses.
pub struct NetworkCard {
    pub name: String,
    pub ipv4: String,
}

/// The cards offered to the user, or why they could not be read.
pub struct LocalNetworkInfo {
    pub success: bool,
    pub cards: Vec<NetworkCard>,
    pub error: Option<String>,
}

/// An address of a host interface.
pub enum HostAddr {
    V4([u8; 4]),
    V6,
}

/// A host interface: its name and addresses.
pub struct HostInterface {
    pub name: String,
    pub addrs: Vec<HostAddr>,
}

// ---------------------------------------------------------------------------
// Adapter classification
// ---------------------------------------------------------------------------

/// A wired LAN adapter, by its name and its lower-case name `l`: `l`
/// starts with `eth`, or the name holds 以太网.
pub open spec fn lan_text(name: Seq<char>, l: Seq<char>) -> bool {
    starts_with_seq(l, "eth"@) || starts_with_seq(l, "ethernet"@) || contains_seq(name, "以太网"@)
}

/// A wireless adapter, by its name and its lower-case name `l`.
pub open spec fn wireless_text(name: Seq<char>, l: Seq<char>) -> bool {
    contains_seq(l, "wi-fi"@) || contains_seq(l, "wifi"@) || contains_seq(l, "wlan"@)
        || contains_seq(l, "wireless"@) || contains_seq(name, "无线"@)
}

/// A virtual adapter (VMware, Hyper-V, WSL, Docker, bridges, tunnels...), by
/// its lower-case name `l`.
pub open spec fn virtual_text(l: Seq<char>) -> bool {
    contains_seq(l, "vmware"@) || contains_seq(l, "vethernet"@) || contains_seq(l, "wsl"@)
        || contains_seq(l, "hyper-v"@) || contains_seq(l, "docker"@) || contains_seq(l, "br-"@)
        || contains_seq(l, "virbr"@) || contains_seq(l, "veth"@) || contains_seq(l, "loopback"@)
        || contains_seq(l, "pseudo"@) || contains_seq(l, "tunnel"@) || contains_seq(
        l,
        "microsoft kernel debug"@,
    )
}

/// An adapter that is never shown, by its lower-case name `l`.
pub open spec fn skipped_text(l: Seq<char>) -> bool {
    starts_with_seq(l, "loopback"@) || starts_with_seq(l, "isatap"@) || starts_with_seq(
        l,
        "teredo"@,
    ) || starts_with_seq(l, "local area connection*"@) || starts_with_seq(l, "本地连接*"@)
}

/// A Bluetooth adapter, by its name and its lower-case name `l`.
pub open spec fn bluetooth_text(name: Seq<char>, l: Seq<char>) -> bool {
    contains_seq(l, "bluetooth"@) || contains_seq(name, "蓝牙"@)
}

/// Whether address `ip` of the adapter is hidden, by the adapter's name and
/// lower-case name `l`: every address of a Bluetooth or virtual adapter,
/// and a link-local (169.254/16) address of a Wi-Fi Direct or virtual
/// "local area connection" adapter.
pub open spec fn filtered_text(name: Seq<char>, l: Seq<char>, ip: [u8; 4]) -> bool {
    (ip[0] == 169 && ip[1] == 254 && (starts_with_seq(l, "本地连接*"@) || starts_with_seq(
        l,
        "local area connection*"@,
    ) || contains_seq(l, "wi-fi direct"@) || contains_seq(l, "microsoft wi-fi direct"@)))
        || bluetooth_text(name, l) || virtual_text(l)
}

/// The group of an adapter, by its name and lower-case name `l`: 0
/// wireless, 1 wired LAN, 2 the rest.
pub open spec fn priority_text(name: Seq<char>, l: Seq<char>) -> u8 {
    if wireless_text(name, l) {
        0
    } else if lan_text(name, l) {
        1
    } else {
        2
    }
}

/// A wired LAN adapter, by its name.
pub open spec fn is_preferred_lan(name: Seq<char>) -> bool {
    lan_text(name, unicode_lowercase(name))
}

/// A wireless adapter, by its name.
pub open spec fn is_wireless(name: Seq<char>) -> bool {
    wireless_text(name, unicode_lowercase(name))
}

/// A virtual adapter, by its name.
pub open spec fn is_virtual(name: Seq<char>) -> bool {
    virtual_text(unicode_lowercase(name))
}

/// An adapter that is never shown, by its name.
pub open spec fn is_skipped(name: Seq<char>) -> bool {
    skipped_text(unicode_lowercase(name))
}

/// A Bluetooth adapter, by its name.
pub open spec fn is_bluetooth(name: Seq<char>) -> bool {
    bluetooth_text(name, unicode_lowercase(name))
}

/// Whether address `ip` of the named adapter is hidden.
pub open spec fn is_filtered(name: Seq<char>, ip: [u8; 4]) -> bool {
    filtered_text(name, unicode_lowercase(name), ip)
}

/// Neither a loopback (127/8) nor the unspecified (0.0.0.0) address.
pub open spec fn is_usable_ipv4(ip: [u8; 4]) -> bool {
    ip[0] != 127 && !(ip[0] == 0 && ip[1] == 0 && ip[2] == 0 && ip[3] == 0)
}

/// The group of an adapter: 0 wireless, 1 wired LAN, 2 the rest.
pub open spec fn priority(name: Seq<char>) -> u8 {
    priority_text(name, unicode_lowercase(name))
}

/// Whether the adapter named `name`, whose lower-case name is `lowered`, is
/// a wired LAN adapter.
pub fn lan_adapter_by_lowered(name: &str, lowered: &str) -> (r: bool)
    ensures
        r == lan_text(name@, lowered@),
{
    let lc = chars_of(lowered);
    let n = chars_of(name);
    starts_with_str(lc.as_slice(), "eth") || starts_with_str(lc.as_slice(), "ethernet")
        || contains_str(n.as_slice(), "以太网")
}

/// Whether the adapter named `name`, whose lower-case name is `lowered`, is
/// wireless.
pub fn wireless_adapter_by_lowered(name: &str, lowered: &str) -> (r: bool)
    ensures
        r == wireless_text(name@, lowered@),
{
    let lc = chars_of(lowered);
    let n = chars_of(name);
    contains_str(lc.as_slice(), "wi-fi") || contains_str(lc.as_slice(), "wifi") || contains_str(
        lc.as_slice(),
        "wlan",
    ) || contains_str(lc.as_slice(), "wireless") || contains_str(n.as_slice(), "无线")
}

/// Whether the adapter whose lower-case name is `lowered` is virtual.
pub fn virtual_adapter_by_lowered(lowered: &str) -> (r: bool)
    ensures
        r == virtual_text(lowered@),
{
    let lc = chars_of(lowered);
    let s = lc.as_slice();
    contains_str(s, "vmware") || contains_str(s, "vethernet") || contains_str(s, "wsl")
        || contains_str(s, "hyper-v") || contains_str(s, "docker") || contains_str(s, "br-")
        || contains_str(s, "virbr") || contains_str(s, "veth") || contains_str(s, "loopback")
        || contains_str(s, "pseudo") || contains_str(s, "tunnel") || contains_str(
        s,
        "microsoft kernel debug",
    )
}

/// Whether the adapter whose lower-case name is `lowered` is never shown.
pub fn skipped_adapter_by_lowered(lowered: &str) -> (r: bool)
    ensures
        r == skipped_text(lowered@),
{
    let lc = chars_of(lowered);
    let s = lc.as_slice();
    starts_with_str(s, "loopback") || starts_with_str(s, "isatap") || starts_with_str(s, "teredo")
        || starts_with_str(s, "local area connection*") || starts_with_str(s, "本地连接*")
}

/// Whether address `ip` of the adapter named `name`, whose lower-case name
/// is `lowered`, is hidden.
pub fn filtered_adapter_by_lowered(name: &str, lowered: &str, ip: [u8; 4]) -> (r: bool)
    ensures
        r == filtered_text(name@, lowered@, ip),
{
    let lc = chars_of(lowered);
    let n = chars_of(name);
    let s = lc.as_slice();
    if ip[0] == 169 && ip[1] == 254 {
        if starts_with_str(s, "本地连接*") || starts_with_str(s, "local area connection*")
            || contains_str(s, "wi-fi direct") || contains_str(s, "microsoft wi-fi direct") {
            return true;
        }
    }
    contains_str(s, "bluetooth") || contains_str(n.as_slice(), "蓝牙")
        || virtual_adapter_by_lowered(lowered)
}

/// The group of the adapter named `name`, whose lower-case name is
/// `lowered`: 0 wireless, 1 wired LAN, 2 the rest.
pub fn priority_by_lowered(name: &str, lowered: &str) -> (r: u8)
    ensures
        r == priority_text(name@, lowered@),
{
    if wireless_adapter_by_lowered(name, lowered) {
        0
    } else if lan_adapter_by_lowered(name, lowered) {
        1
    } else {
        2
    }
}

/// Whether the adapter is a wired LAN adapter.
pub fn is_preferred_lan_adapter_name(name: &str) -> (r: bool)
    ensures
        r == is_preferred_lan(name@),
{
    let l = to_lowercase(name);
    lan_adapter_by_lowered(name, l.as_str())
}

/// Whether the adapter is wireless.
pub fn is_wireless_adapter_name(name: &str) -> (r: bool)
    ensures
        r == is_wireless(name@),
{
    let l = to_lowercase(name);
    wireless_adapter_by_lowered(name, l.as_str())
}

/// Whether the adapter is virtual.
pub fn is_virtual_adapter_name(name: &str) -> (r: bool)
    ensures
        r == is_virtual(name@),
{
    let l = to_lowercase(name);
    virtual_adapter_by_lowered(l.as_str())
}

/// Whether the adapter is never shown.
pub fn should_skip_adapter_name(name: &str) -> (r: bool)
    ensures
        r == is_skipped(name@),
{
    let l = to_lowercase(name);
    skipped_adapter_by_lowered(l.as_str())
}

/// Whether the address of this adapter is hidden.
pub fn should_filter_adapter(name: &str, ip: [u8; 4]) -> (r: bool)
    ensures
        r == is_filtered(name@, ip),
{
    let l = to_lowercase(name);
    filtered_adapter_by_lowered(name, l.as_str(), ip)
}

/// Whether the address can reach the board.
pub fn should_include_ipv4(ip: [u8; 4]) -> (r: bool)
    ensures
        r == is_usable_ipv4(ip),
{
    ip[0] != 127 && !(ip[0] == 0 && ip[1] == 0 && ip[2] == 0 && ip[3] == 0)
}

/// The group of an adapter: 0 wireless, 1 wired LAN, 2 the rest.
pub fn network_priority(name: &str) -> (r: u8)
    ensures
        r == priority(name@),
{
    let l = to_lowercase(name);
    priority_by_lowered(name, l.as_str())
}

// ---------------------------------------------------------------------------
// Order of the cards
// ---------------------------------------------------------------------------

/// Lexicographic order of character sequences by code point (the order of
/// `str`): negative, zero or positive.
pub open spec fn seq_order(a: Seq<char>, b: Seq<char>) -> int
    decreases a.len(),
{
    if a.len() == 0 {
        if b.len() == 0 {
            0
        } else {
            -1
        }
    } else if b.len() == 0 {
        1
    } else if a[0] < b[0] {
        -1
    } else if b[0] < a[0] {
        1
    } else {
        seq_order(a.drop_first(), b.drop_first())
    }
}

/// The view of a card: its name and address.
pub open spec fn card_view(c: NetworkCard) -> (Seq<char>, Seq<char>) {
    (c.name@, c.ipv4@)
}

/// The order of the cards: by group, then name, then address.
pub open spec fn card_order(a: (Seq<char>, Seq<char>), b: (Seq<char>, Seq<char>)) -> int {
    if priority(a.0) < priority(b.0) {
        -1
    } else if priority(b.0) < priority(a.0) {
        1
    } else if seq_order(a.0, b.0) != 0 {
        seq_order(a.0, b.0)
    } else {
        seq_order(a.1, b.1)
    }
}

pub proof fn lemma_seq_order_antisym(a: Seq<char>, b: Seq<char>)
    ensures
        seq_order(a, b) == -seq_order(b, a),
        seq_order(a, b) == 0 <==> a == b,
    decreases a.len(),
{
    if a.len() > 0 && b.len() > 0 && a[0] == b[0] {
        lemma_seq_order_antisym(a.drop_first(), b.drop_first());
        if a.drop_first() == b.drop_first() {
            assert(a == seq![a[0]] + a.drop_first());
            assert(b == seq![b[0]] + b.drop_first());
        }
    }
    if a.len() == 0 && b.len() == 0 {
        assert(a == b);
    }
}

pub proof fn lemma_seq_order_trans(a: Seq<char>, b: Seq<char>, c: Seq<char>)
    requires
        seq_order(a, b) <= 0,
        seq_order(b, c) <= 0,
    ensures
        seq_order(a, c) <= 0,
    decreases a.len(),
{
    if a.len() > 0 && b.len() > 0 && c.len() > 0 && a[0] == b[0] && b[0] == c[0] {
        lemma_seq_order_trans(a.drop_first(), b.drop_first(), c.drop_first());
    }
}

proof fn lemma_card_order_antisym(a: (Seq<char>, Seq<char>), b: (Seq<char>, Seq<char>))
    ensures
        card_order(a, b) == -card_order(b, a),
        card_order(a, b) == 0 <==> a == b,
{
    lemma_seq_order_antisym(a.0, b.0);
    lemma_seq_order_antisym(a.1, b.1);
}

proof fn lemma_card_order_trans(
    a: (Seq<char>, Seq<char>),
    b: (Seq<char>, Seq<char>),
    c: (Seq<char>, Seq<char>),
)
    requires
        card_order(a, b) <= 0,
        card_order(b, c) <= 0,
    ensures
        card_order(a, c) <= 0,
{
    lemma_seq_order_antisym(a.0, b.0);
    lemma_seq_order_antisym(b.0, c.0);
    lemma_seq_order_antisym(a.0, c.0);
    lemma_seq_order_antisym(a.1, b.1);
    lemma_seq_order_antisym(b.1, c.1);
    if priority(a.0) == priority(b.0) && priority(b.0) == priority(c.0) {
        lemma_seq_order_trans(a.0, b.0, c.0);
        if seq_order(a.0, b.0) == 0 && seq_order(b.0, c.0) == 0 {
            lemma_seq_order_trans(a.1, b.1, c.1);
        }
    }
}

pub(crate) fn chars_order(a: &[char], b: &[char]) -> (r: i8)
    ensures
        r == seq_order(a@, b@),
{
    let mut i: usize = 0;
    assert(a@.skip(0) == a@);
    assert(b@.skip(0) == b@);
    while i < a.len() && i < b.len() && a[i] == b[i]
        invariant
            0 <= i <= a.len(),
            i <= b.len(),
            seq_order(a@, b@) == seq_order(a@.skip(i as int), b@.skip(i as int)),
        decreases a.len() - i,
    {
        assert(a@.skip(i as int).drop_first() == a@.skip(i + 1));
        assert(b@.skip(i as int).drop_first() == b@.skip(i + 1));
        i = i + 1;
    }
    if i == a.len() {
        if i == b.len() {
            0
        } else {
            -1
        }
    } else if i == b.len() {
        1
    } else if a[i] < b[i] {
        -1
    } else {
        1
    }
}

fn card_order_of(a: &NetworkCard, b: &NetworkCard) -> (r: i8)
    ensures
        r == card_order(card_view(*a), card_view(*b)),
{
    let pa = network_priority(a.name.as_str());
    let pb = network_priority(b.name.as_str());
    if pa < pb {
        return -1;
    }
    if pb < pa {
        return 1;
    }
    let n = chars_order(chars_of(a.name.as_str()).as_slice(), chars_of(b.name.as_str()).as_slice());
    if n != 0 {
        return n;
    }
    chars_order(chars_of(a.ipv4.as_str()).as_slice(), chars_of(b.ipv4.as_str()).as_slice())
}

/// The order in which cards are listed: wireless adapters first, then wired
/// LAN adapters, then the rest; within a group by name, then by address.
pub fn sort_network_cards(a: &NetworkCard, b: &NetworkCard) -> (r: core::cmp::Ordering)
    ensures
        (r == core::cmp::Ordering::Less) == (card_order(card_view(*a), card_view(*b)) < 0),
        (r == core::cmp::Ordering::Equal) == (card_order(card_view(*a), card_view(*b)) == 0),
        (r == core::cmp::Ordering::Greater) == (card_order(card_view(*a), card_view(*b)) > 0),
{
    let o = card_order_of(a, b);
    if o < 0 {
        core::cmp::Ordering::Less
    } else if o == 0 {
        core::cmp::Ordering::Equal
    } else {
        core::cmp::Ordering::Greater
    }
}

// ---------------------------------------------------------------------------
// Collecting the cards
// ---------------------------------------------------------------------------

/// An IPv4 address in dotted decimal.
pub open spec fn ipv4_text(ip: [u8; 4]) -> Seq<char> {
    dec(ip[0] as nat) + "."@ + dec(ip[1] as nat) + "."@ + dec(ip[2] as nat) + "."@ + dec(
        ip[3] as nat,
    )
}

/// The cards of one adapter (already trimmed and not skipped): its usable,
/// unfiltered IPv4 addresses, in order.
pub open spec fn iface_cards(name: Seq<char>, addrs: Seq<HostAddr>) -> Seq<(Seq<char>, Seq<char>)>
    decreases addrs.len(),
{
    if addrs.len() == 0 {
        seq![]
    } else {
        let prev = iface_cards(name, addrs.drop_last());
        match addrs.last() {
            HostAddr::V4(ip) => if is_usable_ipv4(ip) && !is_filtered(name, ip) {
                prev.push((name, ipv4_text(ip)))
            } else {
                prev
            },
            HostAddr::V6 => prev,
        }
    }
}

/// The cards of all adapters, in order, with repetitions: each adapter by
/// its trimmed name, adapters with an empty or skipped name left out.
pub open spec fn host_cards(ifaces: Seq<HostInterface>) -> Seq<(Seq<char>, Seq<char>)>
    decreases ifaces.len(),
{
    if ifaces.len() == 0 {
        seq![]
    } else {
        let prev = host_cards(ifaces.drop_last());
        let name = trim(ifaces.last().name@);
        if name.len() == 0 || is_skipped(name) {
            prev
        } else {
            prev + iface_cards(name, ifaces.last().addrs@)
        }
    }
}

/// The views of a list of cards.
pub open spec fn card_views(v: Seq<NetworkCard>) -> Seq<(Seq<char>, Seq<char>)> {
    v.map_values(|c: NetworkCard| card_view(c))
}

/// Each card comes strictly before the next ones (so none is repeated).
pub open spec fn strictly_sorted(s: Seq<(Seq<char>, Seq<char>)>) -> bool {
    forall|i: int, j: int| 0 <= i < j < s.len() ==> card_order(#[trigger] s[i], #[trigger] s[j]) < 0
}

fn ipv4_string(ip: [u8; 4]) -> (r: String)
    ensures
        r@ == ipv4_text(ip),
{
    let mut v: Vec<char> = Vec::new();
    push_dec(&mut v, ip[0] as u64);
    push_str(&mut v, ".");
    push_dec(&mut v, ip[1] as u64);
    push_str(&mut v, ".");
    push_dec(&mut v, ip[2] as u64);
    push_str(&mut v, ".");
    push_dec(&mut v, ip[3] as u64);
    string_of(v.as_slice())
}

fn insert_card(cards: &mut Vec<NetworkCard>, card: NetworkCard)
    requires
        strictly_sorted(card_views(old(cards)@)),
    ensures
        strictly_sorted(card_views(final(cards)@)),
        forall|c: (Seq<char>, Seq<char>)|
            #[trigger] card_views(final(cards)@).contains(c) <==> (card_views(old(cards)@).contains(
                c,
            ) || c == card_view(card)),
{
    let ghost old_v = card_views(cards@);
    let ghost x = card_view(card);
    let mut j: usize = 0;
    while j < cards.len() && card_order_of(&cards[j], &card) < 0
        invariant
            0 <= j <= cards.len(),
            old_v == card_views(cards@),
            old_v.len() == cards@.len(),
            x == card_view(card),
            forall|k: int| 0 <= k < j ==> card_order(#[trigger] old_v[k], x) < 0,
        decreases cards.len() - j,
    {
        j = j + 1;
    }
    if j < cards.len() && card_order_of(&cards[j], &card) == 0 {
        proof {
            lemma_card_order_antisym(old_v[j as int], x);
            assert(old_v[j as int] == x);
        }
        return;
    }
    proof {
        if j < old_v.len() {
            lemma_card_order_antisym(old_v[j as int], x);
        }
        assert forall|k: int| j <= k < old_v.len() implies card_order(x, #[trigger] old_v[k]) < 0 by {
            lemma_card_order_antisym(old_v[j as int], x);
            if k > j {
                lemma_card_order_trans(x, old_v[j as int], old_v[k]);
                lemma_card_order_antisym(x, old_v[k]);
                if x == old_v[k] {
                    lemma_card_order_antisym(old_v[j as int], old_v[k]);
                }
            }
        }
    }
    cards.insert(j, card);
    proof {
        let nv = card_views(cards@);
        old_v.insert_ensures(j as int, x);
        let ins = old_v.insert(j as int, x);
        assert(nv =~= ins);
        assert forall|a: int, b: int| 0 <= a < b < nv.len() implies card_order(
            #[trigger] nv[a],
            #[trigger] nv[b],
        ) < 0 by {
            if a < j && b == j {
            } else if a < j && b > j {
                assert(nv[b] == old_v[b - 1]);
            } else if a == j && b > j {
                assert(nv[b] == old_v[b - 1]);
            } else if a > j {
                assert(nv[a] == old_v[a - 1]);
                assert(nv[b] == old_v[b - 1]);
            }
        }
        assert forall|c: (Seq<char>, Seq<char>)| nv.contains(c) <==> (old_v.contains(c) || c == x) by {
            if nv.contains(c) {
                let i = choose|i: int| 0 <= i < nv.len() && nv[i] == c;
                if i < j {
                    assert(old_v[i] == c);
                } else if i > j {
                    assert(old_v[i - 1] == c);
                }
            }
            if old_v.contains(c) {
                let i = choose|i: int| 0 <= i < old_v.len() && old_v[i] == c;
                if i < j {
                    assert(nv[i] == c);
                } else {
                    assert(nv[i + 1] == c);
                }
            }
            if c == x {
                assert(nv[j as int] == c);
            }
        }
    }
}

/// The cards offered for the given host interfaces: one per distinct
/// (trimmed name, IPv4 address) of a shown adapter, in card order.
pub fn collect_network_cards(interfaces: &Vec<HostInterface>) -> (r: Vec<NetworkCard>)
    ensures
        strictly_sorted(card_views(r@)),
        forall|c: (Seq<char>, Seq<char>)|
            card_views(r@).contains(c) <==> host_cards(interfaces@).contains(c),
{
    let mut cards: Vec<NetworkCard> = Vec::new();
    let mut i: usize = 0;
    while i < interfaces.len()
        invariant
            0 <= i <= interfaces.len(),
            strictly_sorted(card_views(cards@)),
            forall|c: (Seq<char>, Seq<char>)|
                #[trigger] card_views(cards@).contains(c) <==> host_cards(
                    interfaces@.take(i as int),
                ).contains(c),
        decreases interfaces.len() - i,
    {
        let ghost pre = host_cards(interfaces@.take(i as int));
        assert(interfaces@.take(i + 1).drop_last() == interfaces@.take(i as int));
        assert(interfaces@.take(i + 1).last() == interfaces@[i as int]);
        let iface = &interfaces[i];
        let name = crate::text::trim_str(iface.name.as_str());
        if chars_of(name.as_str()).len() == 0 || should_skip_adapter_name(name.as_str()) {
            assert(host_cards(interfaces@.take(i + 1)) == pre);
            i = i + 1;
            continue;
        }
        let ghost nm = name@;
        let mut k: usize = 0;
        while k < iface.addrs.len()
            invariant
                0 <= k <= iface.addrs.len(),
                nm == name@,
                strictly_sorted(card_views(cards@)),
                forall|c: (Seq<char>, Seq<char>)|
                    #[trigger] card_views(cards@).contains(c) <==> (pre.contains(c) || iface_cards(
                        nm,
                        iface.addrs@.take(k as int),
                    ).contains(c)),
            decreases iface.addrs.len() - k,
        {
            let ghost before = iface_cards(nm, iface.addrs@.take(k as int));
            assert(iface.addrs@.take(k + 1).drop_last() == iface.addrs@.take(k as int));
            assert(iface.addrs@.take(k + 1).last() == iface.addrs@[k as int]);
            match &iface.addrs[k] {
                HostAddr::V4(ip) => {
                    let ip = *ip;
                    if should_include_ipv4(ip) && !should_filter_adapter(name.as_str(), ip) {
                        let card = NetworkCard { name: name.clone(), ipv4: ipv4_string(ip) };
                        let ghost x = card_view(card);
                        let ghost old_cards = card_views(cards@);
                        insert_card(&mut cards, card);
                        proof {
                            let after = iface_cards(nm, iface.addrs@.take(k + 1));
                            assert(after == before.push(x));
                            assert forall|c: (Seq<char>, Seq<char>)| after.contains(c) <==> (
                            before.contains(c) || c == x) by {
                                if after.contains(c) {
                                    let t = choose|t: int| 0 <= t < after.len() && after[t] == c;
                                    if t < before.len() {
                                        assert(before[t] == c);
                                    }
                                }
                                if before.contains(c) {
                                    let t = choose|t: int| 0 <= t < before.len() && before[t] == c;
                                    assert(after[t] == c);
                                }
                                if c == x {
                                    assert(after[before.len() as int] == c);
                                }
                            }
                            assert forall|c: (Seq<char>, Seq<char>)| card_views(cards@).contains(c)
                                <==> (pre.contains(c) || after.contains(c)) by {
                                assert(card_views(cards@).contains(c) <==> (old_cards.contains(c)
                                    || c == x));
                                assert(old_cards.contains(c) <==> (pre.contains(c)
                                    || before.contains(c)));
                                assert(after.contains(c) <==> (before.contains(c) || c == x));
                            }
                        }
                    } else {
                        assert(iface_cards(nm, iface.addrs@.take(k + 1)) == before);
                    }
                },
                HostAddr::V6 => {
                    assert(iface_cards(nm, iface.addrs@.take(k + 1)) == before);
                },
            }
            k = k + 1;
        }
        proof {
            assert(iface.addrs@.take(iface.addrs@.len() as int) == iface.addrs@);
            let cur = iface_cards(nm, iface.addrs@);
            let all = host_cards(interfaces@.take(i + 1));
            assert(iface.name@ == interfaces@[i as int].name@);
            assert(nm == trim(interfaces@[i as int].name@));
            assert(all == pre + cur);
            assert forall|c: (Seq<char>, Seq<char>)| all.contains(c) <==> (pre.contains(c)
                || cur.contains(c)) by {
                if all.contains(c) {
                    let t = choose|t: int| 0 <= t < all.len() && all[t] == c;
                    if t < pre.len() {
                        assert(pre[t] == c);
                    } else {
                        assert(cur[t - pre.len()] == c);
                    }
                }
                if pre.contains(c) {
                    let t = choose|t: int| 0 <= t < pre.len() && pre[t] == c;
                    assert(all[t] == c);
                }
                if cur.contains(c) {
                    let t = choose|t: int| 0 <= t < cur.len() && cur[t] == c;
                    assert(all[t + pre.len()] == c);
                }
            }
            assert forall|c: (Seq<char>, Seq<char>)| card_views(cards@).contains(c) <==> all.contains(
                c,
            ) by {
                assert(card_views(cards@).contains(c) <==> (pre.contains(c) || iface_cards(
                    nm,
                    iface.addrs@.take(iface.addrs@.len() as int),
                ).contains(c)));
            }
        }
        i = i + 1;
    }
    assert(interfaces@.take(interfaces.len() as int) == interfaces@);
    cards
}

/// The network information of the host, from its interfaces or from the
/// error that prevented reading them.
pub fn get_local_network_info(interfaces: Result<Vec<HostInterface>, String>) -> (r:
    LocalNetworkInfo)
    ensures
        match interfaces {
            Ok(v) => r.success && r.error is None && strictly_sorted(card_views(r.cards@)) && forall|
                c: (Seq<char>, Seq<char>),
            | card_views(r.cards@).contains(c) <==> host_cards(v@).contains(c),
            Err(e) => !r.success && r.cards@.len() == 0 && r.error is Some && r.error->0@
                == "读取本机网络信息失败: "@ + e@,
        },
{
    match interfaces {
        Ok(v) => LocalNetworkInfo {
            success: true,
            cards: collect_network_cards(&v),
            error: None,
        },
        Err(e) => LocalNetworkInfo {
            success: false,
            cards: Vec::new(),
            error: Some(crate::text::concat("读取本机网络信息失败: ", e.as_str())),
        },
    }
}

// ---------------------------------------------------------------------------
// What is listed
// ---------------------------------------------------------------------------

/// The address of a listed card is usable and not filtered for its adapter.
pub open spec fn listed_card(c: (Seq<char>, Seq<char>)) -> bool {
    exists|ip: [u8; 4]| is_usable_ipv4(ip) && !is_filtered(c.0, ip) && c.1 == ipv4_text(ip)
}

proof fn lemma_iface_cards_listed(name: Seq<char>, addrs: Seq<HostAddr>, c: (Seq<char>, Seq<char>))
    requires
        iface_cards(name, addrs).contains(c),
    ensures
        c.0 == name,
        listed_card(c),
    decreases addrs.len(),
{
    let prev = iface_cards(name, addrs.drop_last());
    if prev.contains(c) {
        lemma_iface_cards_listed(name, addrs.drop_last(), c);
    } else {
        match addrs.last() {
            HostAddr::V4(ip) => {
                let x = (name, ipv4_text(ip));
                assert(iface_cards(name, addrs) == prev.push(x));
                let i = choose|i: int| 0 <= i < prev.push(x).len() && prev.push(x)[i] == c;
                if i < prev.len() {
                    assert(prev[i] == c);
                }
                assert(c == x);
                assert(is_usable_ipv4(ip) && !is_filtered(c.0, ip) && c.1 == ipv4_text(ip));
            },
            HostAddr::V6 => {},
        }
    }
}

/// Every card listed for the host is a shown adapter (by a non-empty name
/// that is neither skipped nor virtual) with a usable IPv4 address that is
/// not filtered for it: virtual, VMware, Hyper-V, WSL, Docker, loopback,
/// tunnel and Bluetooth adapters never appear, nor link-local addresses of
/// Wi-Fi Direct and virtual "local area connection" adapters. In particular
/// no listed name, in lower case, contains `vmware`, `vethernet`, `wsl`,
/// `hyper-v`, `docker`, `br-`, `virbr`, `veth`, `loopback`, `pseudo`,
/// `tunnel`, `microsoft kernel debug` or `bluetooth`, none contains `蓝牙`,
/// and none starts with `isatap`, `teredo`, `local area connection*` or
/// `本地连接*`.
pub proof fn lemma_listed_cards_are_physical(ifaces: Seq<HostInterface>, c: (Seq<char>, Seq<char>))
    requires
        host_cards(ifaces).contains(c),
    ensures
        c.0.len() > 0,
        !is_skipped(c.0),
        !is_virtual(c.0),
        !is_bluetooth(c.0),
        listed_card(c),
        !contains_seq(unicode_lowercase(c.0), "vmware"@),
        !contains_seq(unicode_lowercase(c.0), "vethernet"@),
        !contains_seq(unicode_lowercase(c.0), "wsl"@),
        !contains_seq(unicode_lowercase(c.0), "hyper-v"@),
        !contains_seq(unicode_lowercase(c.0), "docker"@),
        !contains_seq(unicode_lowercase(c.0), "br-"@),
        !contains_seq(unicode_lowercase(c.0), "virbr"@),
        !contains_seq(unicode_lowercase(c.0), "veth"@),
        !contains_seq(unicode_lowercase(c.0), "loopback"@),
        !contains_seq(unicode_lowercase(c.0), "pseudo"@),
        !contains_seq(unicode_lowercase(c.0), "tunnel"@),
        !contains_seq(unicode_lowercase(c.0), "microsoft kernel debug"@),
        !contains_seq(unicode_lowercase(c.0), "bluetooth"@),
        !contains_seq(c.0, "蓝牙"@),
        !starts_with_seq(unicode_lowercase(c.0), "isatap"@),
        !starts_with_seq(unicode_lowercase(c.0), "teredo"@),
        !starts_with_seq(unicode_lowercase(c.0), "local area connection*"@),
        !starts_with_seq(unicode_lowercase(c.0), "本地连接*"@),
    decreases ifaces.len(),
{
    let prev = host_cards(ifaces.drop_last());
    if prev.contains(c) {
        lemma_listed_cards_are_physical(ifaces.drop_last(), c);
    } else {
        let name = trim(ifaces.last().name@);
        let cur = iface_cards(name, ifaces.last().addrs@);
        assert(!(name.len() == 0 || is_skipped(name)));
        assert(host_cards(ifaces) == prev + cur);
        let i = choose|i: int| 0 <= i < (prev + cur).len() && (prev + cur)[i] == c;
        if i < prev.len() {
            assert(prev[i] == c);
        }
        assert(cur[i - prev.len()] == c);
        lemma_iface_cards_listed(name, ifaces.last().addrs@, c);
        let ip = choose|ip: [u8; 4]| is_usable_ipv4(ip) && !is_filtered(c.0, ip) && c.1 == ipv4_text(ip);
        assert(!is_filtered(c.0, ip));
    }
}

/// Cards are shown in three groups: wireless adapters first (the name, in
/// lower case, contains `wi-fi`, `wifi`, `wlan` or `wireless`, or the name
/// contains `无线`), then wired ones (the lower-case name starts with `eth`,
/// or the name contains `以太网`), then the rest.
pub proof fn lemma_priority_groups(name: Seq<char>)
    ensures
        priority(name) == (if contains_seq(unicode_lowercase(name), "wi-fi"@) || contains_seq(
            unicode_lowercase(name),
            "wifi"@,
        ) || contains_seq(unicode_lowercase(name), "wlan"@) || contains_seq(
            unicode_lowercase(name),
            "wireless"@,
        ) || contains_seq(name, "无线"@) {
            0u8
        } else if starts_with_seq(unicode_lowercase(name), "eth"@) || contains_seq(name, "以太网"@) {
            1u8
        } else {
            2u8
        }),
{
    reveal_strlit("eth");
    reveal_strlit("ethernet");
    let l = unicode_lowercase(name);
    if starts_with_seq(l, "ethernet"@) {
        assert(l.subrange(0, 3) =~= "eth"@);
    }
}

/// In the host's card list (as [`get_local_network_info`] orders it) no card
/// comes after one of a later group.
pub proof fn lemma_cards_by_group(cards: Seq<(Seq<char>, Seq<char>)>, i: int, j: int)
    requires
        strictly_sorted(cards),
        0 <= i < j < cards.len(),
    ensures
        priority(cards[i].0) <= priority(cards[j].0),
{
    assert(card_order(cards[i], cards[j]) < 0);
}

} // verus!

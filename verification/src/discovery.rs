//! Discovery: which interfaces qualify for a broadcast, how one
//! datagram becomes a device entry, and how the per-interface result
//! lists merge into one, resolving duplicate sender addresses by
//! last-write-wins with exactly one entry per address.
//!
//! The sockets themselves are owned by the caller's per-interface
//! tasks; this module holds every decision those tasks make.

use vstd::prelude::*;

use crate::codec::{clarify, spec_clarify};
use crate::commands::discovery_query;
use crate::datatypes::{decode_device_data, rel_device_data, DeviceData};
use crate::devices::{Endpoint, V4Addr};
use crate::parse::{json_of, parse_json};
use crate::text::{lossy_of, utf8_lossy};

verus! {

/// How many times the discovery query is sent on each interface: a
/// fixed, non-adaptive resend against UDP's unreliable delivery.
pub const DISCOVERY_SEND_COUNT: u32 = 3;

/// One local IPv4 interface, as plain values: its address and its
/// broadcast address, when it has one.
#[derive(Clone, Copy, Debug)]
pub struct IfaceV4 {
    /// The interface's own address.
    pub ip: V4Addr,
    /// The interface's broadcast address, when it exposes one.
    pub broadcast: Option<V4Addr>,
}

/// Decides whether an interface takes part in discovery: it must not
/// be loopback and must expose a broadcast address; the pair returned
/// is the address to bind and the address to broadcast to.
pub fn can_interface_broadcast(iface: &IfaceV4) -> (r: Option<(V4Addr, V4Addr)>)
    ensures
        match r {
            Some((ip, bcast)) => !iface.ip.spec_is_loopback() && ip == iface.ip
                && iface.broadcast == Some(bcast),
            None => iface.ip.spec_is_loopback() || iface.broadcast is None,
        },
{
    if iface.ip.is_loopback() {
        return None;
    }
    match iface.broadcast {
        Some(bcast) => Some((iface.ip, bcast)),
        None => None,
    }
}

/// The discovery query as it leaves the socket: deciphered bytes,
/// without the length prefix, as UDP replies arrive unframed.
pub fn discovery_datagram() -> (r: Vec<u8>)
    ensures
        r@ == crate::codec::spec_obfuscate(
            vstd::utf8::encode_utf8(discovery_query_view()),
        ),
{
    let q = discovery_query();
    let bytes = q.as_str().as_bytes_vec();
    crate::codec::obfuscate(bytes.as_slice())
}

/// The text of the discovery query.
pub open spec fn discovery_query_view() -> Seq<char> {
    "{\"system\":{\"get_sysinfo\":null},\"emeter\":{\"get_realtime\":null},\"smartlife.iot.dimmer\":{\"get_dimmer_parameters\":null},\"smartlife.iot.common.emeter\":{\"get_realtime\":null},\"smartlife.iot.smartbulb.lightingservice\":{\"get_light_state\":null}}"@
}

/// Turns one received datagram into a device entry: deciphers it,
/// decodes the bytes as text, parses the text, and decodes the
/// document; an entry comes back exactly from that chain. Malformed or
/// foreign datagrams yield nothing and are dropped silently by
/// discovery.
pub fn parse_discovery_reply(datagram: &[u8]) -> (r: Option<DeviceData>)
    ensures
        r matches Some(dd) ==> (json_of(lossy_of(spec_clarify(datagram@))) matches Some(v)
            && rel_device_data(v, dd)),
{
    let plain = clarify(datagram);
    let text = utf8_lossy(plain.as_slice());
    match parse_json(text.as_str()) {
        Some(doc) => match decode_device_data(doc) {
            Ok(dd) => Some(dd),
            Err(_) => None,
        },
        None => None,
    }
}

// ---------------------------------------------------------------------
// merging per-interface results

/// The concatenation of the per-interface result lists, in task order.
pub open spec fn concat_all(ls: Seq<Seq<(Endpoint, DeviceData)>>) -> Seq<(Endpoint, DeviceData)>
    decreases ls.len(),
{
    if ls.len() == 0 {
        Seq::empty()
    } else {
        concat_all(ls.drop_last()).add(ls.last())
    }
}

/// The value written last for an address, scanning from the end.
pub open spec fn last_entry(s: Seq<(Endpoint, DeviceData)>, a: Endpoint) -> Option<DeviceData>
    decreases s.len(),
{
    if s.len() == 0 {
        None
    } else if s.last().0 == a {
        Some(s.last().1)
    } else {
        last_entry(s.drop_last(), a)
    }
}

/// Whether every address appears at most once.
pub open spec fn keys_distinct(s: Seq<(Endpoint, DeviceData)>) -> bool {
    forall|i: int, j: int| 0 <= i < j < s.len() ==> (#[trigger] s[i]).0 != (#[trigger] s[j]).0
}

/// How many entries carry the address.
pub open spec fn count_key(s: Seq<(Endpoint, DeviceData)>, a: Endpoint) -> int
    decreases s.len(),
{
    if s.len() == 0 {
        0
    } else {
        count_key(s.drop_last(), a) + if s.last().0 == a { 1int } else { 0int }
    }
}

/// Removing an entry whose address is not `a` leaves the last-written
/// value for `a` unchanged.
proof fn lemma_last_entry_remove(s: Seq<(Endpoint, DeviceData)>, i: int, a: Endpoint)
    requires
        0 <= i < s.len(),
        s[i].0 != a,
    ensures
        last_entry(s.remove(i), a) == last_entry(s, a),
    decreases s.len(),
{
    if i == s.len() - 1 {
        assert(s.remove(i) =~= s.drop_last());
    } else {
        assert(s.remove(i).drop_last() =~= s.drop_last().remove(i));
        assert(s.remove(i).last() == s.last());
        lemma_last_entry_remove(s.drop_last(), i, a);
    }
}

/// Appending one entry overwrites the last-written value for its own
/// address and no other.
proof fn lemma_last_entry_push(s: Seq<(Endpoint, DeviceData)>, entry: (Endpoint, DeviceData), a: Endpoint)
    ensures
        last_entry(s.push(entry), a) == if entry.0 == a {
            Some(entry.1)
        } else {
            last_entry(s, a)
        },
{
    assert(s.push(entry).drop_last() =~= s);
    assert(s.push(entry).last() == entry);
}

/// In a list with distinct addresses, an address that is written at
/// all is written exactly once: the merged discovery result has one
/// entry per replying device address.
pub proof fn lemma_one_entry_per_address(s: Seq<(Endpoint, DeviceData)>, a: Endpoint)
    requires
        keys_distinct(s),
        last_entry(s, a) is Some,
    ensures
        count_key(s, a) == 1,
    decreases s.len(),
{
    if s.len() > 0 {
        if s.last().0 == a {
            lemma_absent_count_zero(s.drop_last(), a);
        } else {
            lemma_one_entry_per_address(s.drop_last(), a);
        }
    }
}

/// An address written nowhere is counted zero times.
proof fn lemma_absent_count_zero(s: Seq<(Endpoint, DeviceData)>, a: Endpoint)
    requires
        forall|i: int| 0 <= i < s.len() ==> (#[trigger] s[i]).0 != a,
    ensures
        count_key(s, a) == 0,
        last_entry(s, a) is None,
    decreases s.len(),
{
    if s.len() > 0 {
        lemma_absent_count_zero(s.drop_last(), a);
    }
}

/// Inserts one entry, overwriting any previous entry of the same
/// address while keeping addresses distinct.
#[verifier::loop_isolation(false)]
fn upsert(out: &mut Vec<(Endpoint, DeviceData)>, entry: (Endpoint, DeviceData))
    requires
        keys_distinct(old(out)@),
    ensures
        keys_distinct(final(out)@),
        forall|a: Endpoint| last_entry(final(out)@, a)
            == last_entry(old(out)@.push(entry), a),
{
    let ghost e = entry;
    let a0 = entry.0;
    let mut k: usize = 0;
    while k < out.len()
        invariant
            out@ == old(out)@,
            keys_distinct(out@),
            k <= out@.len(),
            forall|j: int| 0 <= j < k ==> (#[trigger] out@[j]).0 != a0,
        decreases out@.len() - k,
    {
        if out[k].0 == a0 {
            let ghost before = out@;
            proof {
                assert(before[k as int].0 == a0);
            }
            let _ = out.remove(k);
            out.push(entry);
            proof {
                assert(e.0 == a0);
                let mid = before.remove(k as int);
                before.remove_ensures(k as int);
                assert(out@ =~= mid.push(e));
                assert forall|i: int| 0 <= i < mid.len()
                    implies (#[trigger] mid[i]).0 != a0 by {
                    if i < k {
                        assert(mid[i] == before[i]);
                    } else {
                        assert(mid[i] == before[i + 1]);
                        assert(before[k as int].0 == a0);
                    }
                }
                assert forall|i: int, j: int| 0 <= i < j < out@.len()
                    implies (#[trigger] out@[i]).0 != (#[trigger] out@[j]).0 by {
                    if j == out@.len() - 1 {
                        assert(out@[j] == e);
                        assert(out@[i] == mid[i]);
                    } else {
                        assert(out@[i] == mid[i]);
                        assert(out@[j] == mid[j]);
                        if i < k {
                            assert(mid[i] == before[i]);
                        } else {
                            assert(mid[i] == before[i + 1]);
                        }
                        if j < k {
                            assert(mid[j] == before[j]);
                        } else {
                            assert(mid[j] == before[j + 1]);
                        }
                    }
                }
                assert forall|a: Endpoint| last_entry(out@, a)
                    == last_entry(before.push(e), a) by {
                    lemma_last_entry_push(mid, e, a);
                    lemma_last_entry_push(before, e, a);
                    assert(last_entry(out@, a) == last_entry(mid.push(e), a));
                    if e.0 != a {
                        assert(before[k as int].0 == a0 && a0 != a);
                        lemma_last_entry_remove(before, k as int, a);
                    }
                }
            }
            return;
        }
        k += 1;
    }
    let ghost before = out@;
    out.push(entry);
    proof {
        assert(out@ =~= before.push(e));
        assert forall|i: int, j: int| 0 <= i < j < out@.len()
            implies (#[trigger] out@[i]).0 != (#[trigger] out@[j]).0 by {
            if j == out@.len() - 1 {
                assert(out@[i] == before[i]);
                assert(before[i].0 != a0);
            } else {
                assert(out@[i] == before[i]);
                assert(out@[j] == before[j]);
            }
        }
    }
}

/// Merges the per-interface result lists into one: every address that
/// any interface heard appears exactly once, carrying the value
/// written last in task order.
#[verifier::loop_isolation(false)]
pub fn merge_discoveries(lists: Vec<Vec<(Endpoint, DeviceData)>>)
    -> (r: Vec<(Endpoint, DeviceData)>)
    ensures
        keys_distinct(r@),
        forall|a: Endpoint| #[trigger] last_entry(r@, a)
            == last_entry(concat_all(Seq::new(lists@.len(), |i: int| lists@[i]@)), a),
{
    let ghost views = Seq::new(lists@.len(), |i: int| lists@[i]@);
    let ghost total: int = views.len() as int;
    let mut out: Vec<(Endpoint, DeviceData)> = Vec::new();
    let ghost mut done: Seq<(Endpoint, DeviceData)> = Seq::empty();
    let ghost mut li: int = 0;
    proof {
        assert(concat_all(views.take(0)) =~= Seq::<(Endpoint, DeviceData)>::empty());
    }
    let mut rest = lists;
    while rest.len() > 0
        invariant
            0 <= li <= total,
            rest@.len() == total - li,
            forall|i: int| 0 <= i < rest@.len() ==> views[li + i] == (#[trigger] rest@[i])@,
            keys_distinct(out@),
            done == concat_all(views.take(li)),
            forall|a: Endpoint| #[trigger] last_entry(out@, a) == last_entry(done, a),
        decreases rest@.len(),
    {
        let ghost rest_entry = rest@;
        let mut inner = rest.remove(0);
        let ghost full = inner@;
        proof {
            assert(rest_entry.len() > 0);
            assert(li < total);
            assert(total == views.len() as int);
            assert(full == views[li]);
        }
        let ghost mut k: int = 0;
        let ghost done_before = done;
        proof {
            assert(full.take(0) =~= Seq::<(Endpoint, DeviceData)>::empty());
            assert(done == done_before.add(full.take(0)));
        }
        while inner.len() > 0
            invariant
                0 <= k <= full.len(),
                inner@.len() == full.len() - k,
                inner@ =~= full.skip(k),
                keys_distinct(out@),
                done == done_before.add(full.take(k)),
                forall|a: Endpoint| #[trigger] last_entry(out@, a) == last_entry(done, a),
            decreases inner@.len(),
        {
            let entry = inner.remove(0);
            let ghost ent = entry;
            let ghost out_before = out@;
            proof {
                assert(ent == full[k]);
            }
            upsert(&mut out, entry);
            proof {
                let pushed = done.push(ent);
                assert forall|a: Endpoint| #[trigger] last_entry(out@, a)
                    == last_entry(pushed, a) by {
                    assert(last_entry(out@, a) == last_entry(out_before.push(ent), a));
                    lemma_last_entry_push(out_before, ent, a);
                    lemma_last_entry_push(done, ent, a);
                }
                done = pushed;
                k = k + 1;
                assert(full.take(k).drop_last() =~= full.take(k - 1));
                assert(done =~= done_before.add(full.take(k)));
                assert(inner@ =~= full.skip(k));
            }
        }
        proof {
            assert(li + 1 <= views.len());
            assert(full.take(full.len() as int) =~= full);
            assert(done =~= done_before.add(full));
            assert(views.take(li + 1).drop_last() =~= views.take(li));
            assert(views.take(li + 1).last() == views[li]);
            assert(done =~= concat_all(views.take(li + 1)));
            li = li + 1;
        }
    }
    proof {
        assert(views.take(total as int) =~= views);
    }
    out
}

} // verus!

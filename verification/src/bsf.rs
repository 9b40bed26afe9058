//! The packet-transform (bitstream filter) chain.
//!
//! A filter declaration names a target codec; at initialization the session
//! builds one filter context per declaration whose codec matches the active
//! stream's codec, in declaration order. The native transform of the packet
//! bytes is a collaborator's job; what the pipeline owes each transformed
//! packet is its source packet's stream association, flags and timestamps,
//! which `packets_with_metadata_of` establishes.

use vstd::prelude::*;
use crate::packet::Packet;

verus! {

/// One configured packet-transform declaration.
#[derive(Debug)]
pub struct BsfFilter {
    /// Codec name the filter applies to; matched against the active
    /// stream's codec name.
    pub codec: String,
    /// The native filter's name.
    pub name: String,
    /// Ordered string key/value options handed to the native filter.
    pub params: Vec<(String, String)>,
}

impl BsfFilter {
    /// A filter declaration from its parts.
    pub fn new(codec: String, name: String, params: Vec<(String, String)>) -> (r: BsfFilter)
        ensures
            r.codec == codec,
            r.name == name,
            r.params == params,
    {
        BsfFilter { codec, name, params }
    }
}

/// One built packet-transform stage of the active chain.
///
/// The native context itself lives with the collaborator that built it;
/// the pipeline tracks the stage by the filter's name.
pub struct BitStreamFilterContext {
    name: String,
}

impl BitStreamFilterContext {
    /// The filter name the stage was built from.
    pub closed spec fn spec_name(self) -> Seq<char> {
        self.name@
    }

    /// A stage for the given declaration.
    pub fn from_filter(f: &BsfFilter) -> (r: BitStreamFilterContext)
        ensures
            r.spec_name() == f.name@,
    {
        BitStreamFilterContext { name: f.name.clone() }
    }

    /// The stage's filter name.
    pub fn name(&self) -> (r: String)
        ensures
            r@ == self.spec_name(),
    {
        self.name.clone()
    }
}

/// The names of the declarations that match the given codec, in
/// declaration order.
pub open spec fn matching_filter_names(fs: Seq<BsfFilter>, codec: Seq<char>) -> Seq<Seq<char>>
    decreases fs.len(),
{
    if fs.len() == 0 {
        Seq::empty()
    } else {
        matching_filter_names(fs.drop_last(), codec) + (if fs.last().codec@ == codec {
            seq![fs.last().name@]
        } else {
            Seq::empty()
        })
    }
}

/// Builds the active chain: one stage per declaration whose codec matches
/// the stream's codec name, in declaration order.
pub fn select_filters(filters: &Vec<BsfFilter>, codec_name: &String) -> (r: Vec<
    BitStreamFilterContext,
>)
    ensures
        r@.map_values(|c: BitStreamFilterContext| c.spec_name()) == matching_filter_names(
            filters@,
            codec_name@,
        ),
{
    let mut out: Vec<BitStreamFilterContext> = Vec::new();
    let n = filters.len();
    for i in 0..n
        invariant
            out@.map_values(|c: BitStreamFilterContext| c.spec_name()) == matching_filter_names(
                filters@.take(i as int),
                codec_name@,
            ),
            n == filters@.len(),
    {
        proof {
            assert(filters@.take(i + 1).drop_last() =~= filters@.take(i as int));
            assert(filters@.take(i + 1).last() == filters@[i as int]);
        }
        if filters[i].codec == *codec_name {
            out.push(BitStreamFilterContext::from_filter(&filters[i]));
        }
        proof {
            assert(out@.map_values(|c: BitStreamFilterContext| c.spec_name())
                =~= matching_filter_names(filters@.take(i + 1), codec_name@));
        }
    }
    proof {
        assert(filters@.take(n as int) =~= filters@);
    }
    out
}

/// What each transformed packet owes its source packet: the payload is the
/// stage's output, everything else carries over.
pub open spec fn packet_carries_metadata(out: Packet, src: Packet, payload: Seq<u8>) -> bool {
    &&& out.stream_index == src.stream_index
    &&& out.key == src.key
    &&& out.corrupt == src.corrupt
    &&& out.pts == src.pts
    &&& out.dts == src.dts
    &&& out.duration == src.duration
    &&& out.payload@ == payload
}

/// Re-wraps a transform stage's output payloads as packets that preserve
/// the source packet's stream association, flags, timestamps and duration.
pub fn packets_with_metadata_of(packet: &Packet, payloads: Vec<Vec<u8>>) -> (r: Vec<Packet>)
    ensures
        r@.len() == payloads@.len(),
        forall|i: int|
            0 <= i < r@.len() ==> packet_carries_metadata(
                #[trigger] r@[i],
                *packet,
                payloads@[i]@,
            ),
{
    let ghost orig = payloads@;
    let mut rest = payloads;
    let mut out: Vec<Packet> = Vec::new();
    while rest.len() > 0
        invariant
            out@.len() + rest@.len() == orig.len(),
            rest@ == orig.subrange(out@.len() as int, orig.len() as int),
            forall|i: int|
                0 <= i < out@.len() ==> packet_carries_metadata(
                    #[trigger] out@[i],
                    *packet,
                    orig[i]@,
                ),
        decreases rest@.len(),
    {
        let p = rest.remove(0);
        out.push(
            Packet {
                stream_index: packet.stream_index,
                key: packet.key,
                corrupt: packet.corrupt,
                pts: packet.pts,
                dts: packet.dts,
                duration: packet.duration,
                payload: p,
            },
        );
        proof {
            assert(rest@ =~= orig.subrange(out@.len() as int, orig.len() as int));
        }
    }
    out
}

} // verus!

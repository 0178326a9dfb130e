//! What the video pipeline does with each classified NAL unit: the first
//! parameter sets of a connection build the decoder, later ones are passed on
//! as ordinary data, and picture data goes to the decoder once it exists.
use vstd::prelude::*;
use crate::nal::NalKind;

verus! {

/// Where one NAL unit goes.
#[derive(Clone, Copy, Debug, PartialEq, Eq, Structural)]
pub enum NalRoute {
    /// Build the decoder from these parameter sets.
    ConstructDecoder,
    /// Push the unit to the decoder.
    PushToDecoder,
    /// Drop the unit: no decoder exists yet.
    DiscardNoDecoder,
    /// Drop the unit: the headset is in standby.
    DiscardStandby,
}

/// The route of a unit of `kind`, given whether a decoder exists and whether
/// the headset is in standby.
pub open spec fn route_of(decoder_ready: bool, kind: NalKind, standby: bool) -> NalRoute {
    if kind == NalKind::Config && !decoder_ready {
        NalRoute::ConstructDecoder
    } else if standby {
        NalRoute::DiscardStandby
    } else if !decoder_ready {
        NalRoute::DiscardNoDecoder
    } else {
        NalRoute::PushToDecoder
    }
}

/// Decoder state of one connection's video pipeline.
pub struct VideoPipeline {
    decoder_ready: bool,
}

impl View for VideoPipeline {
    type V = bool;

    /// Whether the decoder of this connection has been built.
    closed spec fn view(&self) -> bool {
        self.decoder_ready
    }
}

impl VideoPipeline {
    /// A pipeline without a decoder, as at the start of each connection.
    pub fn new() -> (r: VideoPipeline)
        ensures
            !r@,
    {
        VideoPipeline { decoder_ready: false }
    }

    pub fn decoder_ready(&self) -> (r: bool)
        ensures
            r == self@,
    {
        self.decoder_ready
    }

    /// Routes one unit. Choosing `ConstructDecoder` records the decoder as
    /// built, so no later unit builds it again.
    pub fn route(&mut self, kind: NalKind, standby: bool) -> (r: NalRoute)
        ensures
            r == route_of(old(self)@, kind, standby),
            final(self)@ == (old(self)@ || r == NalRoute::ConstructDecoder),
    {
        if kind == NalKind::Config && !self.decoder_ready {
            self.decoder_ready = true;
            NalRoute::ConstructDecoder
        } else if standby {
            NalRoute::DiscardStandby
        } else if !self.decoder_ready {
            NalRoute::DiscardNoDecoder
        } else {
            NalRoute::PushToDecoder
        }
    }
}

/// Routes `units` (kind, standby) in order from decoder state `ready`: the
/// final state and the routes taken.
pub open spec fn route_run(ready: bool, units: Seq<(NalKind, bool)>) -> (bool, Seq<NalRoute>)
    decreases units.len(),
{
    if units.len() == 0 {
        (ready, Seq::empty())
    } else {
        let prev = route_run(ready, units.drop_last());
        let r = route_of(prev.0, units.last().0, units.last().1);
        (prev.0 || r == NalRoute::ConstructDecoder, prev.1.push(r))
    }
}

/// Number of decoder constructions among `routes`.
pub open spec fn constructions(routes: Seq<NalRoute>) -> nat
    decreases routes.len(),
{
    if routes.len() == 0 {
        0
    } else {
        constructions(routes.drop_last()) + if routes.last() == NalRoute::ConstructDecoder { 1nat } else { 0nat }
    }
}

/// Over any sequence of units the decoder is built at most once, and not at
/// all when it already exists: parameter sets that arrive after construction
/// are still classified `Config` but are routed as data.
pub proof fn lemma_single_construction(ready: bool, units: Seq<(NalKind, bool)>)
    ensures
        constructions(route_run(ready, units).1) <= 1,
        ready ==> constructions(route_run(ready, units).1) == 0,
        constructions(route_run(ready, units).1) == 1 ==> route_run(ready, units).0,
        route_run(ready, units).1.len() == units.len(),
    decreases units.len(),
{
    if units.len() > 0 {
        lemma_single_construction(ready, units.drop_last());
        let prev = route_run(ready, units.drop_last());
        assert(route_run(ready, units).1.drop_last() =~= prev.1);
        if !prev.0 {
            lemma_no_construction_means_not_ready(ready, units.drop_last());
        }
    }
}

proof fn lemma_no_construction_means_not_ready(ready: bool, units: Seq<(NalKind, bool)>)
    ensures
        !route_run(ready, units).0 ==> !ready && constructions(route_run(ready, units).1) == 0,
    decreases units.len(),
{
    if units.len() > 0 {
        lemma_no_construction_means_not_ready(ready, units.drop_last());
        let prev = route_run(ready, units.drop_last());
        assert(route_run(ready, units).1.drop_last() =~= prev.1);
    }
}

} // verus!

//! Typed client core for the transport.rest family of transit APIs.
//!
//! transport.rest is a family of REST instances covering different German and
//! European transit providers (Deutsche Bahn, BVG Berlin, VBB, Poland, ...).
//! This crate holds the request planning, validation and response
//! classification logic of the client, each function with a contract that
//! Verus proves. Network I/O lives outside this crate.

pub mod api;
pub mod builder;
pub mod client;
pub mod datetime;
pub mod decimal;
pub mod encoding;
pub mod error;
pub mod json;
pub mod json_text;
pub mod meta;
pub mod models;
pub mod products;
pub mod request;
pub mod response;
pub mod schema;
pub mod text;

use vstd::prelude::*;

verus! {

/// A transport.rest instance ("provider") with its own region and capabilities.
#[derive(Debug)]
pub enum Provider {
    /// Deutsche Bahn, <https://v6.db.transport.rest>.
    Db,
    /// BVG Berlin & Brandenburg, <https://v6.bvg.transport.rest>.
    Bvg,
    /// VBB Berlin & Brandenburg, <https://v6.vbb.transport.rest>.
    Vbb,
    /// Poland, <https://poland.transport.rest>.
    Poland,
    /// Any other hafas-rest-api/db-rest compatible instance.
    Custom {
        /// Base URL of the instance, e.g. `https://my-instance.example.org`.
        base_url: String,
    },
}

/// A provider as plain values: its tag, and the base URL of a custom one.
pub enum ProviderView {
    Db,
    Bvg,
    Vbb,
    Poland,
    Custom(Seq<char>),
}

impl View for Provider {
    type V = ProviderView;

    open spec fn view(&self) -> ProviderView {
        match self {
            Provider::Db => ProviderView::Db,
            Provider::Bvg => ProviderView::Bvg,
            Provider::Vbb => ProviderView::Vbb,
            Provider::Poland => ProviderView::Poland,
            Provider::Custom { base_url } => ProviderView::Custom(base_url@),
        }
    }
}

impl Clone for Provider {
    fn clone(&self) -> (r: Self)
        ensures
            r@ == self@,
    {
        match self {
            Provider::Db => Provider::Db,
            Provider::Bvg => Provider::Bvg,
            Provider::Vbb => Provider::Vbb,
            Provider::Poland => Provider::Poland,
            Provider::Custom { base_url } => Provider::Custom { base_url: base_url.clone() },
        }
    }
}

/// Default base URL of a provider's public instance.
pub open spec fn default_base_url_spec(p: ProviderView) -> Option<Seq<char>> {
    match p {
        ProviderView::Db => Some("https://v6.db.transport.rest"@),
        ProviderView::Bvg => Some("https://v6.bvg.transport.rest"@),
        ProviderView::Vbb => Some("https://v6.vbb.transport.rest"@),
        ProviderView::Poland => Some("https://poland.transport.rest"@),
        ProviderView::Custom(_) => None,
    }
}

/// Endpoint groups a provider's public instance is known to support.
pub open spec fn default_capabilities_spec(p: ProviderView) -> Set<Capability> {
    match p {
        ProviderView::Db => set![Capability::Stations],
        ProviderView::Bvg | ProviderView::Vbb => set![
            Capability::Radar,
            Capability::ReachableFrom,
            Capability::TripsByName,
            Capability::StopsSearch,
        ],
        ProviderView::Poland => set![
            Capability::Radar,
            Capability::ReachableFrom,
            Capability::TripsByName,
        ],
        ProviderView::Custom(_) => Set::empty(),
    }
}

impl Provider {
    /// Default base URL of this provider, if it has one.
    pub fn default_base_url(&self) -> (r: Option<&'static str>)
        ensures
            r matches Some(s) ==> default_base_url_spec(self@) == Some(s@),
            r is None ==> default_base_url_spec(self@) is None,
    {
        match self {
            Provider::Db => Some("https://v6.db.transport.rest"),
            Provider::Bvg => Some("https://v6.bvg.transport.rest"),
            Provider::Vbb => Some("https://v6.vbb.transport.rest"),
            Provider::Poland => Some("https://poland.transport.rest"),
            Provider::Custom { .. } => None,
        }
    }

    /// Capabilities known to be supported by this provider's public instance.
    pub fn default_capabilities(&self) -> (caps: Capabilities)
        ensures
            caps@ == default_capabilities_spec(self@),
    {
        let mut caps = Capabilities::core_only();
        match self {
            // db-vendo has no radar/reachable-from/trips-by-name, but ships
            // a static station directory.
            Provider::Db => caps.insert(Capability::Stations),
            // HAFAS based instances support live tracking endpoints.
            Provider::Bvg | Provider::Vbb | Provider::Poland => {
                caps.insert(Capability::Radar);
                caps.insert(Capability::ReachableFrom);
                caps.insert(Capability::TripsByName);
                if matches!(self, Provider::Bvg | Provider::Vbb) {
                    caps.insert(Capability::StopsSearch);
                }
            },
            // Unknown instance: be conservative.
            Provider::Custom { .. } => {},
        }
        proof {
            assert(caps@ =~= default_capabilities_spec(self@));
        }
        caps
    }
}

/// An optional endpoint group not present on every provider.
#[derive(Debug, Clone, Copy, PartialEq, Eq, Hash, Structural)]
#[non_exhaustive]
pub enum Capability {
    /// `GET /radar`: vehicles moving inside a bounding box.
    Radar,
    /// `GET /stops/reachable-from`: isochrone-ish reachability.
    ReachableFrom,
    /// `GET /trips`: find trips by name.
    TripsByName,
    /// `GET /stations`, `GET /stations/{id}`: static station directory (DB).
    Stations,
    /// `GET /stops`: static stop name search (BVG/VBB).
    StopsSearch,
}

/// Human readable capability id.
pub open spec fn capability_name(c: Capability) -> Seq<char> {
    match c {
        Capability::Radar => "radar"@,
        Capability::ReachableFrom => "reachable_from"@,
        Capability::TripsByName => "trips_by_name"@,
        Capability::Stations => "stations"@,
        Capability::StopsSearch => "stops_search"@,
    }
}

/// Position of a capability's bit in a [`Capabilities`] set.
pub open spec fn capability_index(c: Capability) -> u16 {
    match c {
        Capability::Radar => 0,
        Capability::ReachableFrom => 1,
        Capability::TripsByName => 2,
        Capability::Stations => 3,
        Capability::StopsSearch => 4,
    }
}

impl Capability {
    /// Human readable capability id as used in the API analysis.
    pub fn as_str(&self) -> (r: &'static str)
        ensures
            r@ == capability_name(*self),
    {
        match self {
            Capability::Radar => "radar",
            Capability::ReachableFrom => "reachable_from",
            Capability::TripsByName => "trips_by_name",
            Capability::Stations => "stations",
            Capability::StopsSearch => "stops_search",
        }
    }

    /// The single bit standing for this capability.
    fn bit(self) -> (b: u16)
        ensures
            b == 1u16 << capability_index(self),
    {
        assert(1u16 << 0u16 == 1u16 && 1u16 << 1u16 == 2u16 && 1u16 << 2u16 == 4u16 && 1u16 << 3u16
            == 8u16 && 1u16 << 4u16 == 16u16) by (bit_vector);
        match self {
            Capability::Radar => 1,
            Capability::ReachableFrom => 2,
            Capability::TripsByName => 4,
            Capability::Stations => 8,
            Capability::StopsSearch => 16,
        }
    }
}

/// Bitset of supported endpoint groups.
#[derive(Debug, Clone, Copy, PartialEq, Eq, Structural)]
pub struct Capabilities(u16);

/// The capabilities whose bit is set in `bits`.
pub open spec fn capability_set(bits: u16) -> Set<Capability> {
    Set::new(|c: Capability| bits & (1u16 << capability_index(c)) != 0)
}

proof fn lemma_bits_or(x: u16, i: u16, j: u16)
    requires
        i < 5,
        j < 5,
    ensures
        ((x | (1u16 << i)) & (1u16 << j) != 0) == ((x & (1u16 << j) != 0) || i == j),
{
    assert(i < 5 && j < 5 ==> (((x | (1u16 << i)) & (1u16 << j) != 0) == ((x & (1u16 << j) != 0)
        || i == j))) by (bit_vector);
}

impl View for Capabilities {
    type V = Set<Capability>;

    closed spec fn view(&self) -> Set<Capability> {
        capability_set(self.0)
    }
}

impl Capabilities {
    /// The empty set: only the core endpoints, which every instance has.
    pub fn core_only() -> (c: Self)
        ensures
            c@ == Set::<Capability>::empty(),
    {
        let c = Capabilities(0);
        proof {
            assert forall|k: Capability| !c@.contains(k) by {
                let i = capability_index(k);
                assert(0u16 & (1u16 << i) == 0) by (bit_vector);
            }
            assert(c@ =~= Set::<Capability>::empty());
        }
        c
    }

    /// Add a capability.
    pub fn insert(&mut self, cap: Capability)
        ensures
            final(self)@ == old(self)@.insert(cap),
    {
        let b = cap.bit();
        let x = self.0;
        self.0 = x | b;
        proof {
            assert forall|k: Capability| #[trigger] self@.contains(k) == old(self)@.insert(cap).contains(k) by {
                lemma_bits_or(x, capability_index(cap), capability_index(k));
                assert(capability_index(cap) == capability_index(k) ==> cap == k);
            }
            assert(self@ =~= old(self)@.insert(cap));
        }
    }

    /// True if the capability is in the set.
    pub fn contains(&self, cap: Capability) -> (r: bool)
        ensures
            r == self@.contains(cap),
    {
        self.0 & cap.bit() != 0
    }

    /// Add a capability on explicit request of the user.
    pub fn insert_raw(&mut self, cap: Capability)
        ensures
            final(self)@ == old(self)@.insert(cap),
    {
        self.insert(cap);
    }
}

} // verus!

//! Endpoint builders grouped by resource.
//!
//! Each accessor on [`TransportRestClient`] returns a builder; its `plan`
//! validates the options and yields the request to send.

pub mod departures;
pub mod journeys;
pub mod locations;
pub mod nearby;
pub mod radar;
pub mod reachable_from;
pub mod stations;
pub mod stops;
pub mod trips;

use vstd::prelude::*;
use crate::client::TransportRestClient;
use crate::request::JourneyPlace;

verus! {

impl<H: Clone> TransportRestClient<H> {
    /// Search stops/stations, POIs and addresses by name.
    pub fn locations(&self) -> (b: locations::LocationsBuilder<H>)
        ensures
            b.client.config@ == self.config@,
            b.query is None && b.fuzzy is None && b.results is None && b.stops is None
                && b.addresses is None && b.poi is None && b.lines_of_stops is None
                && b.language is None,
    {
        locations::LocationsBuilder::new(self.clone())
    }

    /// Find stops/stations & POIs close to a geolocation.
    pub fn nearby(&self) -> (b: nearby::NearbyBuilder<H>)
        ensures
            b == nearby::NearbyBuilder::empty(b.client) && b.client.config@ == self.config@,
    {
        nearby::NearbyBuilder::new(self.clone())
    }

    /// Fetch a single stop/station by ID.
    pub fn stop(&self, id: String) -> (b: stops::StopBuilder<H>)
        ensures
            b.client.config@ == self.config@,
            b.id == id && b.lines_of_stops is None && b.language is None,
    {
        stops::StopBuilder::new(self.clone(), id)
    }

    /// Departure board of a stop/station.
    pub fn departures(&self, stop_id: String) -> (b: departures::DeparturesBuilder<H>)
        ensures
            b.base == departures::BoardBase::empty(b.base.client, stop_id),
            b.base.client.config@ == self.config@,
    {
        departures::DeparturesBuilder::departures(self.clone(), stop_id)
    }

    /// Arrival board of a stop/station.
    pub fn arrivals(&self, stop_id: String) -> (b: departures::ArrivalsBuilder<H>)
        ensures
            b.base == departures::BoardBase::empty(b.base.client, stop_id),
            b.base.client.config@ == self.config@,
    {
        departures::ArrivalsBuilder::arrivals(self.clone(), stop_id)
    }

    /// Find journeys from A to B.
    pub fn journeys(&self, from: JourneyPlace, to: JourneyPlace) -> (b: journeys::JourneysBuilder<H>)
        ensures
            b == journeys::JourneysBuilder::new_spec(b.client, from, to),
            b.client.config@ == self.config@,
    {
        journeys::JourneysBuilder::new(self.clone(), from, to)
    }

    /// Refresh a previously computed journey by its `refreshToken`.
    pub fn refresh_journey(&self, refresh_token: String) -> (b: journeys::RefreshJourneyBuilder<H>)
        ensures
            b == journeys::RefreshJourneyBuilder::new_spec(b.client, refresh_token),
            b.client.config@ == self.config@,
    {
        journeys::RefreshJourneyBuilder::new(self.clone(), refresh_token)
    }

    /// Fetch a trip by ID.
    pub fn trip(&self, id: String) -> (b: trips::TripBuilder<H>)
        ensures
            b.client.config@ == self.config@,
            b.id == id && b.stopovers is None && b.remarks is None && b.polyline is None
                && b.language is None,
    {
        trips::TripBuilder::new(self.clone(), id)
    }

    /// Find vehicles moving inside a bounding box (capability-gated).
    pub fn radar(&self) -> (b: radar::RadarBuilder<H>)
        ensures
            b == radar::RadarBuilder::empty(b.client) && b.client.config@ == self.config@,
    {
        radar::RadarBuilder::new(self.clone())
    }

    /// Find stops reachable within a time budget (capability-gated).
    pub fn reachable_from(&self) -> (b: reachable_from::ReachableFromBuilder<H>)
        ensures
            b == reachable_from::ReachableFromBuilder::empty(b.client) && b.client.config@
                == self.config@,
    {
        reachable_from::ReachableFromBuilder::new(self.clone())
    }

    /// Find trips by name (capability-gated).
    pub fn trips_by_name(&self, query: String) -> (b: trips::TripsByNameBuilder<H>)
        ensures
            b.client.config@ == self.config@,
            b.query == Some(query) && b.when is None && b.from_when is None && b.until_when is None
                && b.only_currently_running is None && b.currently_stopping_at is None
                && b.line_name is None && b.operator_names is None && b.products is None,
    {
        trips::TripsByNameBuilder::new(self.clone(), query)
    }

    /// Search the static station directory (DB instance).
    pub fn stations(&self) -> (b: stations::StationsBuilder<H>)
        ensures
            b.client.config@ == self.config@,
            b.query is None && b.results is None && b.fuzzy is None && b.completion is None,
    {
        stations::StationsBuilder::new(self.clone())
    }

    /// Get one station from the static directory (DB instance).
    pub fn station(&self, id: String) -> (b: stations::StationBuilder<H>)
        ensures
            b.client.config@ == self.config@,
            b.id == id,
    {
        stations::StationBuilder::new(self.clone(), id)
    }

    /// Search stops by name against the static dataset (BVG/VBB instances).
    pub fn stops_search(&self) -> (b: stations::StopsSearchBuilder<H>)
        ensures
            b.client.config@ == self.config@,
            b.query is None && b.limit is None && b.fuzzy is None && b.completion is None,
    {
        stations::StopsSearchBuilder::new(self.clone())
    }
}

} // verus!

//! The client: composes configuration, signing, transport and decoding
//! into the four API operations.
use vstd::prelude::*;
use crate::bodies::order_request_body;
use crate::bodies::quote_request_body;
use crate::config::ApiPaths;
use crate::config::Config;
use crate::domain::DeliveryRequest;
use crate::domain::Delivery;
use crate::domain::QuotationRequest;
use crate::domain::QuotedRequest;
use crate::envelope::decode_envelope;
use crate::envelope::envelope_decodes_to;
use crate::json::Json;
use crate::envelope::RequestError;
use crate::ids::DeliveryId;
use crate::markets::Language;
use crate::markets::Market;
use crate::markets::MarketInfo;
use crate::money::iso_currency_known;
use crate::money::Quote;
use crate::money::QuoteError;
use crate::parse::market_matches;
use crate::parse::parse_delivery_response;
use crate::parse::parse_market_info;
use crate::parse::parse_quote_response;
use crate::parse::parse_status_response;
use crate::parse::spec_delivery_of;
use crate::parse::spec_market_of;
use crate::parse::spec_status_of;
use crate::status::DeliveryStatus;
use crate::transport::HttpClient;
use crate::transport::HttpMethod;

verus! {

/// A client for one market, over any transport.
pub struct Lalamove<M: Market, C: HttpClient> {
    client: C,
    config: Config<M>,
}

impl<M: Market, C: HttpClient> Lalamove<M, C> {
    /// The configuration the client was built with.
    pub closed spec fn spec_config(self) -> Config<M> {
        self.config
    }

    /// The transport the client was built with.
    pub closed spec fn spec_client(self) -> C {
        self.client
    }

    /// Builds a client from a configuration and a transport.
    pub fn new(config: Config<M>, client: C) -> (r: Self)
        ensures
            r.spec_config() == config,
            r.spec_client() == client,
    {
        Lalamove { config, client }
    }

    /// Performs one API call: builds the signed request for the path and
    /// method, carries the payload in the envelope's `data` key, sends it
    /// through the transport, and decodes the response envelope down to
    /// the payload under its `data` key. Whatever the transport does, the
    /// outcome is either its failure or the envelope classification of
    /// the bytes it returned.
    pub fn make_request(
        &self,
        path: ApiPaths,
        method: HttpMethod,
        body: Option<String>,
        time_ms: u64,
    ) -> (r: Result<Json, RequestError>)
        ensures
            (r matches Err(e) && e matches RequestError::HttpClientError(_)) || (exists|
                bytes: Seq<u8>,
            | envelope_decodes_to(bytes, r)),
    {
        let request = self.config.build_request(path, method, body, time_ms);
        let response = match self.client.request(&request) {
            Ok(response) => response,
            Err(e) => {
                return Err(RequestError::HttpClientError(e));
            },
        };
        let ghost response_bytes = response.bytes@;
        let decoded = decode_envelope(response.bytes);
        proof {
            assert(envelope_decodes_to(response_bytes, decoded));
        }
        decoded
    }

    /// Fetches the market's service catalog: any catalog returned
    /// mirrors, entry for entry and in order, a payload with the catalog
    /// shape, every dimension tagged in meters and every load in
    /// kilograms.
    pub fn market_info(&self, time_ms: u64) -> (r: Result<MarketInfo, RequestError>)
        ensures
            r matches Ok(mi) ==> exists|tree: Json|
                #[trigger] spec_market_of(tree) matches Some(parts) && market_matches(mi, parts),
    {
        let data = match self.make_request(ApiPaths::Cities, HttpMethod::Get, None, time_ms) {
            Ok(data) => data,
            Err(e) => {
                return Err(e);
            },
        };
        let parsed = parse_market_info(&data);
        proof {
            if parsed is Ok {
                assert(spec_market_of(data) matches Some(parts) && market_matches(
                    parsed->Ok_0,
                    parts,
                ));
            }
        }
        parsed
    }

    /// Quotes a delivery: sends the validated request and reads back the
    /// priced quotation. On success the quoted request carries exactly
    /// one stop identifier per submitted recipient stop, and the price's
    /// currency resolves in the ISO-4217 table.
    pub fn quote(&self, request: &QuotationRequest, time_ms: u64) -> (r: Result<
        (QuotedRequest, Quote),
        QuoteError,
    >)
        ensures
            r matches Ok(p) ==> p.0.spec_stop_ids().len() == request.spec_stops().len()
                && iso_currency_known(p.1.price.currency@),
    {
        let recipient_stop_count = request.recipient_stop_count();
        let body = quote_request_body(request, self.config.language.language_code());
        let data = match self.make_request(
            ApiPaths::Quotations,
            HttpMethod::Post,
            Some(body),
            time_ms,
        ) {
            Ok(data) => data,
            Err(e) => {
                return Err(QuoteError::RequestError(e));
            },
        };
        parse_quote_response(&data, recipient_stop_count)
    }

    /// Places an order for a quoted delivery: the sender is mapped to the
    /// pickup stop and each recipient to its quoted stop, in order; any
    /// delivery returned carries the identifier and share link of a
    /// payload with the order shape.
    pub fn place_order(&self, request: &DeliveryRequest, time_ms: u64) -> (r: Result<
        Delivery,
        RequestError,
    >)
        ensures
            r matches Ok(delivery) ==> exists|tree: Json| #[trigger] spec_delivery_of(tree)
                == Some(delivery),
    {
        let body = order_request_body(request);
        let data = match self.make_request(
            ApiPaths::Orders,
            HttpMethod::Post,
            Some(body),
            time_ms,
        ) {
            Ok(data) => data,
            Err(e) => {
                return Err(e);
            },
        };
        let parsed = parse_delivery_response(&data);
        proof {
            if parsed is Ok {
                assert(spec_delivery_of(data) == Some(parsed->Ok_0));
            }
        }
        parsed
    }

    /// Fetches the lifecycle state of a placed delivery: any state
    /// returned is the one named by a payload with the order-details
    /// shape.
    pub fn delivery_status(&self, delivery: DeliveryId, time_ms: u64) -> (r: Result<
        DeliveryStatus,
        RequestError,
    >)
        ensures
            r matches Ok(status) ==> exists|tree: Json| #[trigger] spec_status_of(tree)
                == Some(status),
    {
        let data = match self.make_request(
            ApiPaths::Order(delivery),
            HttpMethod::Get,
            None,
            time_ms,
        ) {
            Ok(data) => data,
            Err(e) => {
                return Err(e);
            },
        };
        let parsed = parse_status_response(&data);
        proof {
            if parsed is Ok {
                assert(spec_status_of(data) == Some(parsed->Ok_0));
            }
        }
        parsed
    }
}

} // verus!

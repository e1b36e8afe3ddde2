//! A typed client for a delivery-logistics HTTP API: construction-time
//! validation of multi-stop requests, deterministic request signing,
//! transport-agnostic dispatch, and decoding of the two-shape response
//! envelope into typed results or structured errors.

pub mod bodies;
pub mod client;
pub mod config;
pub mod domain;
pub mod envelope;
pub mod ids;
pub mod json;
pub mod markets;
pub mod money;
pub mod parse;
pub mod signing;
pub mod status;
pub mod text;
pub mod transport;

pub use client::Lalamove;
pub use config::ApiEnvironment;
pub use config::ApiEnvironmentError;
pub use config::ApiPaths;
pub use config::Config;
pub use config::ConfigError;
pub use domain::Delivery;
pub use domain::DeliveryRequest;
pub use domain::Location;
pub use domain::PersonInfo;
pub use domain::QuotationRequest;
pub use domain::QuotedRequest;
pub use domain::StopCountError;
pub use domain::valid_recipient_stop_count;
pub use envelope::ApiError;
pub use envelope::RequestError;
pub use ids::DeliveryId;
pub use ids::DriverId;
pub use ids::ParseIdError;
pub use ids::QuotationId;
pub use ids::StopId;
pub use json::Json;
pub use markets::Country;
pub use markets::Dimensions;
pub use markets::InvalidPhilippineLanguage;
pub use markets::Kilograms;
pub use markets::Language;
pub use markets::Market;
pub use markets::MarketInfo;
pub use markets::Meters;
pub use markets::PhilippineLanguages;
pub use markets::PhilippineMarket;
pub use markets::PhilippineRegions;
pub use markets::Region;
pub use markets::RegionError;
pub use markets::RegionInfo;
pub use markets::Service;
pub use markets::ServiceType;
pub use markets::SpecialRequest;
pub use markets::SpecialRequestType;
pub use money::Price;
pub use money::Quote;
pub use money::QuoteError;
pub use status::DeliveryStatus;
pub use status::InvalidDeliveryStatus;
pub use transport::ApiRequest;
pub use transport::Header;
pub use transport::HttpClient;
pub use transport::HttpMethod;
pub use transport::HttpResponse;
pub use transport::TransportError;

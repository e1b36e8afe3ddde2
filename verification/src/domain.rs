//! Request and response value objects: locations, people, and the
//! stop-count-bearing request types with their construction-time bound.
use vstd::prelude::*;
use crate::ids::QuotationId;
use crate::ids::StopId;
use crate::markets::ServiceType;

verus! {

/// True when a delivery may carry this many recipient stops.
pub open spec fn spec_valid_recipient_stop_count(stop_count: usize) -> bool {
    1 <= stop_count <= 15
}

/// Recipient stop counts are accepted exactly between one and fifteen.
#[verifier::when_used_as_spec(spec_valid_recipient_stop_count)]
pub fn valid_recipient_stop_count(stop_count: usize) -> (r: bool)
    ensures
        r == spec_valid_recipient_stop_count(stop_count),
{
    stop_count >= 1 && stop_count <= 15
}

/// Rejection of a stop-bearing value at construction time.
#[derive(Clone, Debug, PartialEq, Eq, Structural)]
pub enum StopCountError {
    /// The recipient stop count lies outside the accepted range.
    OutOfRange,
    /// The recipient details do not match the quoted stops one to one.
    RecipientCountMismatch,
}

/// A pickup or drop-off point. Coordinates are kept as the decimal
/// numerals the wire carries.
#[derive(Clone, Debug, PartialEq, Eq)]
pub struct Location {
    pub latitude: String,
    pub longitude: String,
    pub address: String,
}

/// A person at one end of a delivery.
#[derive(Clone, Debug, PartialEq, Eq)]
pub struct PersonInfo {
    pub name: String,
    pub phone_number: String,
}

/// A request for a quotation: a service, a pickup, and between one and
/// fifteen recipient stops. The bound is enforced at construction.
#[derive(Debug)]
pub struct QuotationRequest {
    service: ServiceType,
    pick_up_location: Location,
    stops: Vec<Location>,
}

impl QuotationRequest {
    #[verifier::type_invariant]
    spec fn wf(self) -> bool {
        spec_valid_recipient_stop_count(self.stops@.len() as usize)
    }

    /// The requested service.
    pub closed spec fn spec_service(self) -> ServiceType {
        self.service
    }

    /// The pickup location.
    pub closed spec fn spec_pick_up_location(self) -> Location {
        self.pick_up_location
    }

    /// The recipient stops, in submission order.
    pub closed spec fn spec_stops(self) -> Seq<Location> {
        self.stops@
    }

    /// Accepts exactly the recipient stop counts between one and fifteen.
    pub fn new(
        service: ServiceType,
        pick_up_location: Location,
        stops: Vec<Location>,
    ) -> (r: Result<Self, StopCountError>)
        ensures
            spec_valid_recipient_stop_count(stops@.len() as usize) ==> (r matches Ok(q)
                && q.spec_service() == service && q.spec_pick_up_location() == pick_up_location
                && q.spec_stops() == stops@),
            !spec_valid_recipient_stop_count(stops@.len() as usize) ==> r == Err::<
                Self,
                StopCountError,
            >(StopCountError::OutOfRange),
    {
        if valid_recipient_stop_count(stops.len()) {
            Ok(QuotationRequest { service, pick_up_location, stops })
        } else {
            Err(StopCountError::OutOfRange)
        }
    }

    /// The requested service.
    pub fn service(&self) -> (r: &ServiceType)
        ensures
            *r == self.spec_service(),
    {
        &self.service
    }

    /// The pickup location.
    pub fn pick_up_location(&self) -> (r: &Location)
        ensures
            *r == self.spec_pick_up_location(),
    {
        &self.pick_up_location
    }

    /// The recipient stops, in submission order.
    pub fn stops(&self) -> (r: &Vec<Location>)
        ensures
            r@ == self.spec_stops(),
    {
        &self.stops
    }

    /// How many recipient stops the request carries.
    pub fn recipient_stop_count(&self) -> (r: usize)
        ensures
            r == self.spec_stops().len(),
            spec_valid_recipient_stop_count(r),
    {
        proof {
            use_type_invariant(&*self);
        }
        self.stops.len()
    }
}

/// The server's answer to a quotation request: identifiers that must be
/// echoed back unchanged when the order is placed. The pickup stop comes
/// first; the recipient stops follow in submission order.
#[derive(Debug)]
pub struct QuotedRequest {
    quotation_id: QuotationId,
    pick_up_stop_id: StopId,
    stop_ids: Vec<StopId>,
}

impl QuotedRequest {
    #[verifier::type_invariant]
    spec fn wf(self) -> bool {
        spec_valid_recipient_stop_count(self.stop_ids@.len() as usize)
    }

    /// The quotation this answer belongs to.
    pub closed spec fn spec_quotation_id(self) -> QuotationId {
        self.quotation_id
    }

    /// The stop identifier issued for the pickup location.
    pub closed spec fn spec_pick_up_stop_id(self) -> StopId {
        self.pick_up_stop_id
    }

    /// The stop identifiers issued for the recipient stops, in order.
    pub closed spec fn spec_stop_ids(self) -> Seq<StopId> {
        self.stop_ids@
    }

    /// Builds the quoted request from the stop identifiers of a quote
    /// response, pickup first: the first identifier becomes the pickup
    /// stop and the rest become the recipient stops, in their original
    /// order. Accepts exactly the lengths a valid quotation can have.
    pub fn from_stops(quotation_id: QuotationId, stops: Vec<StopId>) -> (r: Result<
        Self,
        StopCountError,
    >)
        ensures
            2 <= stops@.len() <= 16 ==> (r matches Ok(q) && q.spec_quotation_id()
                == quotation_id && q.spec_pick_up_stop_id() == stops@[0] && q.spec_stop_ids()
                == stops@.skip(1)),
            !(2 <= stops@.len() <= 16) ==> r == Err::<Self, StopCountError>(
                StopCountError::OutOfRange,
            ),
    {
        let n = stops.len();
        if n < 2 || n > 16 {
            return Err(StopCountError::OutOfRange);
        }
        let pick_up_stop_id = stops[0];
        let mut stop_ids: Vec<StopId> = Vec::new();
        let mut i: usize = 1;
        while i < n
            invariant
                1 <= i <= n,
                n == stops@.len(),
                stop_ids@ == stops@.subrange(1, i as int),
            decreases n - i,
        {
            stop_ids.push(stops[i]);
            proof {
                assert(stop_ids@ =~= stops@.subrange(1, i + 1));
            }
            i = i + 1;
        }
        proof {
            assert(stop_ids@ =~= stops@.skip(1));
        }
        Ok(QuotedRequest { quotation_id, pick_up_stop_id, stop_ids })
    }

    /// The quotation this answer belongs to.
    pub fn quotation_id(&self) -> (r: &QuotationId)
        ensures
            *r == self.spec_quotation_id(),
    {
        &self.quotation_id
    }

    /// The stop identifier issued for the pickup location.
    pub fn pick_up_stop_id(&self) -> (r: &StopId)
        ensures
            *r == self.spec_pick_up_stop_id(),
    {
        &self.pick_up_stop_id
    }

    /// The stop identifiers issued for the recipient stops, in order.
    pub fn stop_ids(&self) -> (r: &Vec<StopId>)
        ensures
            r@ == self.spec_stop_ids(),
    {
        &self.stop_ids
    }

    /// How many recipient stops were quoted.
    pub fn recipient_stop_count(&self) -> (r: usize)
        ensures
            r == self.spec_stop_ids().len(),
            spec_valid_recipient_stop_count(r),
    {
        proof {
            use_type_invariant(&*self);
        }
        self.stop_ids.len()
    }
}

/// An order to be placed: a quoted request together with the people at
/// each stop. The recipients match the quoted stops one to one, in order.
#[derive(Debug)]
pub struct DeliveryRequest {
    quoted: QuotedRequest,
    sender: PersonInfo,
    recipients_info: Vec<PersonInfo>,
}

impl DeliveryRequest {
    #[verifier::type_invariant]
    spec fn wf(self) -> bool {
        self.recipients_info@.len() == self.quoted.spec_stop_ids().len()
    }

    /// The quoted request being redeemed.
    pub closed spec fn spec_quoted(self) -> QuotedRequest {
        self.quoted
    }

    /// The person at the pickup stop.
    pub closed spec fn spec_sender(self) -> PersonInfo {
        self.sender
    }

    /// The people at the recipient stops, in stop order.
    pub closed spec fn spec_recipients_info(self) -> Seq<PersonInfo> {
        self.recipients_info@
    }

    /// Accepts exactly one recipient description per quoted recipient
    /// stop.
    pub fn new(quoted: QuotedRequest, sender: PersonInfo, recipients_info: Vec<PersonInfo>) -> (r:
        Result<Self, StopCountError>)
        ensures
            recipients_info@.len() == quoted.spec_stop_ids().len() ==> (r matches Ok(d)
                && d.spec_quoted() == quoted && d.spec_sender() == sender
                && d.spec_recipients_info() == recipients_info@),
            recipients_info@.len() != quoted.spec_stop_ids().len() ==> r == Err::<
                Self,
                StopCountError,
            >(StopCountError::RecipientCountMismatch),
    {
        let quoted_count = quoted.recipient_stop_count();
        if recipients_info.len() != quoted_count {
            return Err(StopCountError::RecipientCountMismatch);
        }
        Ok(DeliveryRequest { quoted, sender, recipients_info })
    }

    /// The quoted request being redeemed.
    pub fn quoted(&self) -> (r: &QuotedRequest)
        ensures
            *r == self.spec_quoted(),
    {
        &self.quoted
    }

    /// The person at the pickup stop.
    pub fn sender(&self) -> (r: &PersonInfo)
        ensures
            *r == self.spec_sender(),
    {
        &self.sender
    }

    /// The people at the recipient stops, in stop order.
    pub fn recipients_info(&self) -> (r: &Vec<PersonInfo>)
        ensures
            r@ == self.spec_recipients_info(),
    {
        &self.recipients_info
    }

    /// How many recipients the order carries: exactly one per quoted
    /// recipient stop.
    pub fn recipient_count(&self) -> (r: usize)
        ensures
            r == self.spec_recipients_info().len(),
            r == self.spec_quoted().spec_stop_ids().len(),
            spec_valid_recipient_stop_count(r),
    {
        proof {
            use_type_invariant(&*self);
            use_type_invariant(&self.quoted);
        }
        self.recipients_info.len()
    }
}

/// A placed delivery: its identifier and a shareable tracking link.
#[derive(Clone, Debug, PartialEq, Eq)]
pub struct Delivery {
    pub id: crate::ids::DeliveryId,
    pub share_link: String,
}

} // verus!

//! Outbound request bodies, built as compact JSON text with an exact
//! character-level statement of each shape.
use vstd::prelude::*;
use vstd::string::StringExecFns;
use crate::domain::DeliveryRequest;
use crate::domain::Location;
use crate::domain::PersonInfo;
use crate::domain::QuotationRequest;
use crate::ids::StopId;
use crate::markets::ServiceType;
use crate::text::push_json_string;
use crate::text::spec_json_escaped;
use crate::text::spec_u64_dec;
use crate::text::u64_to_string;

verus! {

/// The JSON string literal denoting `s`.
pub open spec fn spec_json_str(s: Seq<char>) -> Seq<char> {
    seq!['"'] + spec_json_escaped(s) + seq!['"']
}

/// The wire shape of one location: its coordinates as decimal strings,
/// then its address.
pub open spec fn spec_location_json(location: Location) -> Seq<char> {
    "{\"coordinates\":{\"lat\":"@ + spec_json_str(location.latitude@) + ",\"lng\":"@
        + spec_json_str(location.longitude@) + "},\"address\":"@ + spec_json_str(
        location.address@,
    ) + "}"@
}

/// A comma-separated list of locations in the wire shape.
pub open spec fn spec_locations_json(stops: Seq<Location>) -> Seq<char>
    decreases stops.len(),
{
    if stops.len() == 0 {
        Seq::empty()
    } else if stops.len() == 1 {
        spec_location_json(stops[0])
    } else {
        spec_locations_json(stops.drop_last()) + ","@ + spec_location_json(stops.last())
    }
}

/// The body of a quotation request: the service, then the pickup location
/// and the recipient stops as one `stops` array, then the language tag.
pub open spec fn spec_quote_body(
    service: ServiceType,
    pick_up_location: Location,
    stops: Seq<Location>,
    language: Seq<char>,
) -> Seq<char> {
    "{\"serviceType\":"@ + spec_json_str(service.0@) + ",\"stops\":["@ + spec_locations_json(
        seq![pick_up_location] + stops,
    ) + "],\"language\":"@ + spec_json_str(language) + "}"@
}

/// Appends the wire shape of one location.
fn push_location_json(out: &mut String, location: &Location)
    ensures
        final(out)@ == old(out)@ + spec_location_json(*location),
{
    out.append("{\"coordinates\":{\"lat\":");
    push_json_string(out, location.latitude.as_str());
    out.append(",\"lng\":");
    push_json_string(out, location.longitude.as_str());
    out.append("},\"address\":");
    push_json_string(out, location.address.as_str());
    out.append("}");
    proof {
        assert(out@ =~= old(out)@ + spec_location_json(*location));
    }
}

/// Builds the body of a quotation request, pickup first and the recipient
/// stops after it in submission order.
pub fn quote_request_body(request: &QuotationRequest, language: &str) -> (r: String)
    ensures
        r@ == spec_quote_body(
            request.spec_service(),
            request.spec_pick_up_location(),
            request.spec_stops(),
            language@,
        ),
{
    let ghost all = seq![request.spec_pick_up_location()] + request.spec_stops();
    let ghost head = "{\"serviceType\":"@ + spec_json_str(request.spec_service().0@)
        + ",\"stops\":["@;
    let mut out = String::new();
    out.append("{\"serviceType\":");
    push_json_string(&mut out, request.service().0.as_str());
    out.append(",\"stops\":[");
    push_location_json(&mut out, request.pick_up_location());
    proof {
        assert(all.take(1) =~= seq![request.spec_pick_up_location()]);
        assert(out@ =~= head + spec_locations_json(all.take(1)));
    }
    let stops = request.stops();
    let n = stops.len();
    let mut i: usize = 0;
    while i < n
        invariant
            0 <= i <= n,
            n == request.spec_stops().len(),
            all == seq![request.spec_pick_up_location()] + request.spec_stops(),
            stops@ == request.spec_stops(),
            out@ == head + spec_locations_json(all.take(i + 1)),
        decreases n - i,
    {
        out.append(",");
        push_location_json(&mut out, &stops[i]);
        proof {
            assert(all.take(i + 2).drop_last() =~= all.take(i + 1));
            assert(all.take(i + 2).last() == all[i + 1]);
            assert(all[i + 1] == stops@[i as int]);
            assert(out@ =~= head + spec_locations_json(all.take(i + 2)));
        }
        i = i + 1;
    }
    proof {
        assert(all.take(n + 1) =~= all);
    }
    out.append("],\"language\":");
    push_json_string(&mut out, language);
    out.append("}");
    proof {
        assert(out@ =~= spec_quote_body(
            request.spec_service(),
            request.spec_pick_up_location(),
            request.spec_stops(),
            language@,
        ));
    }
    out
}

/// The wire shape of one stop's person: the stop identifier as a decimal
/// string, then the person's name and phone number.
pub open spec fn spec_stop_info_json(stop_id: StopId, person: PersonInfo) -> Seq<char> {
    "{\"stopId\":\""@ + spec_u64_dec(stop_id.0 as nat) + "\",\"name\":"@ + spec_json_str(
        person.name@,
    ) + ",\"phone\":"@ + spec_json_str(person.phone_number@) + "}"@
}

/// A comma-separated list of stop-person pairs in the wire shape, one
/// recipient per stop identifier, in order.
pub open spec fn spec_recipients_json(stop_ids: Seq<StopId>, people: Seq<PersonInfo>) -> Seq<char>
    decreases stop_ids.len(),
{
    if stop_ids.len() == 0 || stop_ids.len() != people.len() {
        Seq::empty()
    } else if stop_ids.len() == 1 {
        spec_stop_info_json(stop_ids[0], people[0])
    } else {
        spec_recipients_json(stop_ids.drop_last(), people.drop_last()) + ","@
            + spec_stop_info_json(stop_ids.last(), people.last())
    }
}

/// The body of an order: the quotation identifier, the sender mapped to
/// the pickup stop, and the recipients mapped one to one, in order, to
/// the quoted recipient stops.
pub open spec fn spec_order_body(request: DeliveryRequest) -> Seq<char> {
    "{\"quotationId\":\""@ + spec_u64_dec(request.spec_quoted().spec_quotation_id().0 as nat)
        + "\",\"sender\":"@ + spec_stop_info_json(
        request.spec_quoted().spec_pick_up_stop_id(),
        request.spec_sender(),
    ) + ",\"recipients\":["@ + spec_recipients_json(
        request.spec_quoted().spec_stop_ids(),
        request.spec_recipients_info(),
    ) + "]}"@
}

/// Appends the wire shape of one stop's person.
fn push_stop_info_json(out: &mut String, stop_id: StopId, person: &PersonInfo)
    ensures
        final(out)@ == old(out)@ + spec_stop_info_json(stop_id, *person),
{
    out.append("{\"stopId\":\"");
    let id_text = u64_to_string(stop_id.0);
    out.append(id_text.as_str());
    out.append("\",\"name\":");
    push_json_string(out, person.name.as_str());
    out.append(",\"phone\":");
    push_json_string(out, person.phone_number.as_str());
    out.append("}");
    proof {
        assert(out@ =~= old(out)@ + spec_stop_info_json(stop_id, *person));
    }
}

/// Builds the body of an order from a delivery request.
pub fn order_request_body(request: &DeliveryRequest) -> (r: String)
    ensures
        r@ == spec_order_body(*request),
{
    let ghost stop_ids = request.spec_quoted().spec_stop_ids();
    let ghost people = request.spec_recipients_info();
    let mut out = String::new();
    out.append("{\"quotationId\":\"");
    let id_text = u64_to_string(request.quoted().quotation_id().0);
    out.append(id_text.as_str());
    out.append("\",\"sender\":");
    push_stop_info_json(&mut out, *request.quoted().pick_up_stop_id(), request.sender());
    out.append(",\"recipients\":[");
    let ghost head = out@;
    let n = request.recipient_count();
    let mut i: usize = 0;
    while i < n
        invariant
            0 <= i <= n,
            n == stop_ids.len(),
            n == people.len(),
            1 <= n,
            stop_ids == request.spec_quoted().spec_stop_ids(),
            people == request.spec_recipients_info(),
            out@ == head + spec_recipients_json(stop_ids.take(i as int), people.take(i as int)),
        decreases n - i,
    {
        if i > 0 {
            out.append(",");
        }
        let stop_id = request.quoted().stop_ids()[i];
        push_stop_info_json(&mut out, stop_id, &request.recipients_info()[i]);
        proof {
            assert(stop_ids.take(i + 1).drop_last() =~= stop_ids.take(i as int));
            assert(people.take(i + 1).drop_last() =~= people.take(i as int));
            assert(stop_ids.take(i + 1).last() == stop_ids[i as int]);
            assert(people.take(i + 1).last() == people[i as int]);
            assert(out@ =~= head + spec_recipients_json(
                stop_ids.take(i + 1),
                people.take(i + 1),
            ));
        }
        i = i + 1;
    }
    proof {
        assert(stop_ids.take(n as int) =~= stop_ids);
        assert(people.take(n as int) =~= people);
    }
    out.append("]}");
    proof {
        assert(out@ =~= spec_order_body(*request));
    }
    out
}

} // verus!

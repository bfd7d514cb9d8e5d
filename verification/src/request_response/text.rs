//! How events and requests read in a log.  Payloads are left out.

use crate::request_response::message::{Codec, Event, OutboundMessage, RequestId};
use vstd::prelude::*;
use vstd::string::StringExecFns;

verus! {

/// What is shown of an event: its name, and the request that it is about, under the
/// name of its field where the field has one.
pub struct Description {
    pub name: &'static str,
    pub field: Option<&'static str>,
    pub request_id: RequestId,
}

/// The character of a decimal digit.
pub open spec fn digit(value: nat) -> char {
    ('0' as u32 + value) as char
}

/// A number in decimal, without leading zeros.
pub open spec fn decimal(value: nat) -> Seq<char>
    decreases value,
{
    if value < 10 {
        seq![digit(value)]
    } else {
        decimal(value / 10).push(digit(value % 10))
    }
}

fn digit_text(value: u64) -> (text: &'static str)
    requires
        value < 10,
    ensures
        text@ == seq![digit(value as nat)],
{
    proof {
        reveal_strlit("0");
        reveal_strlit("1");
        reveal_strlit("2");
        reveal_strlit("3");
        reveal_strlit("4");
        reveal_strlit("5");
        reveal_strlit("6");
        reveal_strlit("7");
        reveal_strlit("8");
        reveal_strlit("9");
    }
    match value {
        0 => "0",
        1 => "1",
        2 => "2",
        3 => "3",
        4 => "4",
        5 => "5",
        6 => "6",
        7 => "7",
        8 => "8",
        _ => "9",
    }
}

fn append_decimal(text: &mut String, value: u64)
    ensures
        final(text)@ == old(text)@ + decimal(value as nat),
    decreases value,
{
    if value >= 10 {
        append_decimal(text, value / 10);
    }
    text.append(digit_text(value % 10));
    assert(value < 10 ==> value % 10 == value);
    assert(text@ =~= old(text)@ + decimal(value as nat));
}

impl RequestId {
    /// The text of the identifier: `RequestId(7)`.
    pub open spec fn text(self) -> Seq<char> {
        "RequestId("@ + decimal(self.0 as nat) + ")"@
    }
}

impl Description {
    /// The text of the description: `Name { field: RequestId(7) }` where the field has
    /// a name, and `Name(RequestId(7))` where it has none.
    pub open spec fn text(self) -> Seq<char> {
        match self.field {
            Some(field) => self.name@ + " { "@ + field@ + ": "@ + self.request_id.text() + " }"@,
            None => self.name@ + "("@ + self.request_id.text() + ")"@,
        }
    }

    fn append_id(&self, text: &mut String)
        ensures
            final(text)@ == old(text)@ + self.request_id.text(),
    {
        text.append("RequestId(");
        append_decimal(text, self.request_id.0);
        text.append(")");
        assert(text@ =~= old(text)@ + self.request_id.text());
    }

    /// The text of the description.
    pub fn debug_string(&self) -> (text: String)
        ensures
            text@ == self.text(),
    {
        let mut text: String = self.name.to_owned();
        match self.field {
            Some(field) => {
                text.append(" { ");
                text.append(field);
                text.append(": ");
                self.append_id(&mut text);
                text.append(" }");
            },
            None => {
                text.append("(");
                self.append_id(&mut text);
                text.append(")");
            },
        }
        text
    }
}

/// The name under which an event is shown.
pub open spec fn event_name<TCodec: Codec>(event: Event<TCodec>) -> Seq<char> {
    match event {
        Event::Request { .. } => "Event::Request"@,
        Event::Response { .. } => "Event::Response"@,
        Event::ResponseSent(_) => "Event::ResponseSent"@,
        Event::ResponseOmission(_) => "Event::ResponseOmission"@,
        Event::OutboundTimeout(_) => "Event::OutboundTimeout"@,
        Event::OutboundUnsupportedProtocols(_) => "Event::OutboundUnsupportedProtocols"@,
    }
}

/// Whether `description` is what is shown of `event`.
pub open spec fn describes<TCodec: Codec>(description: Description, event: Event<TCodec>) -> bool {
    &&& description.name@ == event_name(event)
    &&& description.request_id == event.id()
    &&& match description.field {
        Some(field) => field@ == "request_id"@ && (event is Request || event is Response),
        None => !(event is Request) && !(event is Response),
    }
}

/// The text of an event.
pub open spec fn event_text<TCodec: Codec>(event: Event<TCodec>) -> Seq<char> {
    if event is Request || event is Response {
        event_name(event) + " { "@ + "request_id"@ + ": "@ + event.id().text() + " }"@
    } else {
        event_name(event) + "("@ + event.id().text() + ")"@
    }
}

impl<TCodec: Codec> Event<TCodec> {
    /// What is shown of the event.
    pub fn describe(&self) -> (description: Description)
        ensures
            describes(description, *self),
    {
        match self {
            Event::Request { request_id, .. } => Description {
                name: "Event::Request",
                field: Some("request_id"),
                request_id: *request_id,
            },
            Event::Response { request_id, .. } => Description {
                name: "Event::Response",
                field: Some("request_id"),
                request_id: *request_id,
            },
            Event::ResponseSent(request_id) => Description {
                name: "Event::ResponseSent",
                field: None,
                request_id: *request_id,
            },
            Event::ResponseOmission(request_id) => Description {
                name: "Event::ResponseOmission",
                field: None,
                request_id: *request_id,
            },
            Event::OutboundTimeout(request_id) => Description {
                name: "Event::OutboundTimeout",
                field: None,
                request_id: *request_id,
            },
            Event::OutboundUnsupportedProtocols(request_id) => Description {
                name: "Event::OutboundUnsupportedProtocols",
                field: None,
                request_id: *request_id,
            },
        }
    }

    /// The text of the event.
    pub fn debug_string(&self) -> (text: String)
        ensures
            text@ == event_text(*self),
    {
        self.describe().debug_string()
    }
}

impl<TCodec: Codec> OutboundMessage<TCodec> {
    /// The text of the request, which tells nothing of what is in it.
    pub fn debug_string(&self) -> (text: String)
        ensures
            text@ == "OutboundMessage { .. }"@,
    {
        "OutboundMessage { .. }".to_owned()
    }
}

/// The number that decimal digits stand for.
pub open spec fn read_decimal(digits: Seq<char>) -> nat
    decreases digits.len(),
{
    if digits.len() == 0 {
        0
    } else {
        read_decimal(digits.drop_last()) * 10 + (digits.last() as u32 - '0' as u32) as nat
    }
}

/// Whether the characters are those of a number, with no leading zero but in zero itself.
pub open spec fn is_number(digits: Seq<char>) -> bool {
    &&& digits.len() > 0
    &&& forall|i: int| 0 <= i < digits.len() ==> '0' <= #[trigger] digits[i] <= '9'
    &&& digits.len() > 1 ==> digits[0] != '0'
}

proof fn lemma_decimal_reads_back(value: nat)
    ensures
        is_number(decimal(value)),
        read_decimal(decimal(value)) == value,
        value > 0 ==> decimal(value)[0] != '0',
    decreases value,
{
    if value < 10 {
        let digits = decimal(value);
        assert(read_decimal(digits.drop_last()) == 0);
        assert(digits.last() == digit(value));
    } else {
        lemma_decimal_reads_back(value / 10);
        let digits = decimal(value);
        assert(digits.drop_last() =~= decimal(value / 10));
        assert(digits.last() == digit(value % 10));
        assert(read_decimal(digits) == value / 10 * 10 + value % 10);
        assert(digits[0] == decimal(value / 10)[0]);
    }
}

/// The text of an event is its name with the number of its request, whatever else it
/// carries.  Read as a decimal, the number is that of the request.
pub proof fn law_event_text<TCodec: Codec>(event: Event<TCodec>, text: String)
    requires
        call_ensures(Event::<TCodec>::debug_string, (&event,), text),
    ensures
        exists|digits: Seq<char>|
            {
                &&& #[trigger] is_number(digits)
                &&& match event {
                    Event::Request { request_id, .. } => {
                        &&& read_decimal(digits) == request_id.0
                        &&& text@ == "Event::Request { request_id: RequestId("@ + digits + ") }"@
                    },
                    Event::Response { request_id, .. } => {
                        &&& read_decimal(digits) == request_id.0
                        &&& text@ == "Event::Response { request_id: RequestId("@ + digits + ") }"@
                    },
                    Event::ResponseSent(request_id) => {
                        &&& read_decimal(digits) == request_id.0
                        &&& text@ == "Event::ResponseSent(RequestId("@ + digits + "))"@
                    },
                    Event::ResponseOmission(request_id) => {
                        &&& read_decimal(digits) == request_id.0
                        &&& text@ == "Event::ResponseOmission(RequestId("@ + digits + "))"@
                    },
                    Event::OutboundTimeout(request_id) => {
                        &&& read_decimal(digits) == request_id.0
                        &&& text@ == "Event::OutboundTimeout(RequestId("@ + digits + "))"@
                    },
                    Event::OutboundUnsupportedProtocols(request_id) => {
                        &&& read_decimal(digits) == request_id.0
                        &&& text@ == "Event::OutboundUnsupportedProtocols(RequestId("@ + digits
                            + "))"@
                    },
                }
            },
{
    let digits = decimal(event.id().0 as nat);
    lemma_decimal_reads_back(event.id().0 as nat);
    reveal_strlit("RequestId(");
    reveal_strlit(")");
    reveal_strlit("(");
    reveal_strlit(" { ");
    reveal_strlit("request_id");
    reveal_strlit(": ");
    reveal_strlit(" }");
    reveal_strlit(") }");
    reveal_strlit("))");
    match event {
        Event::Request { .. } => {
            reveal_strlit("Event::Request");
            reveal_strlit("Event::Request { request_id: RequestId(");
            assert(text@ =~= "Event::Request { request_id: RequestId("@ + digits + ") }"@);
        },
        Event::Response { .. } => {
            reveal_strlit("Event::Response");
            reveal_strlit("Event::Response { request_id: RequestId(");
            assert(text@ =~= "Event::Response { request_id: RequestId("@ + digits + ") }"@);
        },
        Event::ResponseSent(_) => {
            reveal_strlit("Event::ResponseSent");
            reveal_strlit("Event::ResponseSent(RequestId(");
            assert(text@ =~= "Event::ResponseSent(RequestId("@ + digits + "))"@);
        },
        Event::ResponseOmission(_) => {
            reveal_strlit("Event::ResponseOmission");
            reveal_strlit("Event::ResponseOmission(RequestId(");
            assert(text@ =~= "Event::ResponseOmission(RequestId("@ + digits + "))"@);
        },
        Event::OutboundTimeout(_) => {
            reveal_strlit("Event::OutboundTimeout");
            reveal_strlit("Event::OutboundTimeout(RequestId(");
            assert(text@ =~= "Event::OutboundTimeout(RequestId("@ + digits + "))"@);
        },
        Event::OutboundUnsupportedProtocols(_) => {
            reveal_strlit("Event::OutboundUnsupportedProtocols");
            reveal_strlit("Event::OutboundUnsupportedProtocols(RequestId(");
            assert(text@ =~= "Event::OutboundUnsupportedProtocols(RequestId("@ + digits + "))"@);
        },
    }
    assert(is_number(digits));
}

/// The description of an event has its name and the number of its request, and only the events
/// that carry a message name the field of the number.
pub proof fn law_description<TCodec: Codec>(event: Event<TCodec>, description: Description)
    requires
        call_ensures(Event::<TCodec>::describe, (&event,), description),
    ensures
        match event {
            Event::Request { request_id, .. } => {
                &&& description.name@ == "Event::Request"@
                &&& description.request_id == request_id
                &&& description.field matches Some(field) && field@ == "request_id"@
            },
            Event::Response { request_id, .. } => {
                &&& description.name@ == "Event::Response"@
                &&& description.request_id == request_id
                &&& description.field matches Some(field) && field@ == "request_id"@
            },
            Event::ResponseSent(request_id) => {
                &&& description.name@ == "Event::ResponseSent"@
                &&& description.request_id == request_id
                &&& description.field is None
            },
            Event::ResponseOmission(request_id) => {
                &&& description.name@ == "Event::ResponseOmission"@
                &&& description.request_id == request_id
                &&& description.field is None
            },
            Event::OutboundTimeout(request_id) => {
                &&& description.name@ == "Event::OutboundTimeout"@
                &&& description.request_id == request_id
                &&& description.field is None
            },
            Event::OutboundUnsupportedProtocols(request_id) => {
                &&& description.name@ == "Event::OutboundUnsupportedProtocols"@
                &&& description.request_id == request_id
                &&& description.field is None
            },
        },
{
}

/// The text of a description is its name with the number of its request, under the name of
/// the field where there is one.  Read as a decimal, the number is that of the request.
pub proof fn law_description_text(description: Description, text: String)
    requires
        call_ensures(Description::debug_string, (&description,), text),
    ensures
        exists|digits: Seq<char>|
            {
                &&& #[trigger] is_number(digits)
                &&& read_decimal(digits) == description.request_id.0
                &&& text@ == match description.field {
                    Some(field) => description.name@ + " { "@ + field@ + ": RequestId("@ + digits
                        + ") }"@,
                    None => description.name@ + "(RequestId("@ + digits + "))"@,
                }
            },
{
    let digits = decimal(description.request_id.0 as nat);
    lemma_decimal_reads_back(description.request_id.0 as nat);
    reveal_strlit("RequestId(");
    reveal_strlit(")");
    reveal_strlit("(");
    reveal_strlit(": ");
    reveal_strlit(" }");
    reveal_strlit(": RequestId(");
    reveal_strlit("(RequestId(");
    reveal_strlit(") }");
    reveal_strlit("))");
    match description.field {
        Some(field) => {
            assert(text@ =~= description.name@ + " { "@ + field@ + ": RequestId("@ + digits
                + ") }"@);
        },
        None => {
            assert(text@ =~= description.name@ + "(RequestId("@ + digits + "))"@);
        },
    }
    assert(is_number(digits));
}

/// The description of an event and the event itself read the same.
pub proof fn law_description_reads_as_its_event<TCodec: Codec>(
    event: Event<TCodec>,
    description: Description,
    described: String,
    text: String,
)
    requires
        call_ensures(Event::<TCodec>::describe, (&event,), description),
        call_ensures(Description::debug_string, (&description,), described),
        call_ensures(Event::<TCodec>::debug_string, (&event,), text),
    ensures
        described@ == text@,
{
}

/// The text of a request tells nothing of it: any two read the same.
pub proof fn law_requests_read_alike<TCodec: Codec>(
    one: OutboundMessage<TCodec>,
    other: OutboundMessage<TCodec>,
    text: String,
    other_text: String,
)
    requires
        call_ensures(OutboundMessage::<TCodec>::debug_string, (&one,), text),
        call_ensures(OutboundMessage::<TCodec>::debug_string, (&other,), other_text),
    ensures
        text@ == other_text@,
        text@ == "OutboundMessage { .. }"@,
{
}

} // verus!

//! Subscription requests: decoding and validating the submitted form, the
//! record handed to the store, and the answer once the store has replied.
use vstd::prelude::*;

use crate::response::{internal_error, Response, STATUS_OK, STATUS_UNPROCESSABLE_ENTITY};

verus! {

/// The name/value pairs, decoded and in order, of the form body `body`.
pub uninterp spec fn form_pairs_of(body: Seq<u8>) -> Seq<(Seq<char>, Seq<char>)>;

/// The decoded pairs of a form as text.
pub open spec fn pairs_view(v: Seq<(String, String)>) -> Seq<(Seq<char>, Seq<char>)> {
    v.map_values(|p: (String, String)| (p.0@, p.1@))
}

/// Relies on form_urlencoded::parse: the pairs of an
/// `application/x-www-form-urlencoded` body, percent-decoded, in order; an
/// empty body has none.
#[verifier::external_body]
fn decode_form(body: &[u8]) -> (r: Vec<(String, String)>)
    ensures
        pairs_view(r@) == form_pairs_of(body@),
        body@.len() == 0 ==> r@.len() == 0,
{
    form_urlencoded::parse(body).into_owned().collect()
}

/// How many pairs of `pairs` are named `key`.
pub open spec fn key_count(pairs: Seq<(Seq<char>, Seq<char>)>, key: Seq<char>) -> nat
    decreases pairs.len(),
{
    if pairs.len() == 0 {
        0
    } else {
        key_count(pairs.drop_last(), key) + if pairs.last().0 == key {
            1nat
        } else {
            0nat
        }
    }
}

/// The value of the last pair of `pairs` named `key` (empty where there is none).
pub open spec fn key_value(pairs: Seq<(Seq<char>, Seq<char>)>, key: Seq<char>) -> Seq<char>
    decreases pairs.len(),
{
    if pairs.len() == 0 {
        Seq::empty()
    } else if pairs.last().0 == key {
        pairs.last().1
    } else {
        key_value(pairs.drop_last(), key)
    }
}

/// Why a submitted form is not a subscription.
#[derive(Debug, Clone, Copy, PartialEq, Eq, Structural)]
pub enum FormError {
    /// A field of the subscription is given more than once.
    DuplicateField,
    /// There is no `email` field.
    MissingEmail,
    /// There is no `name` field.
    MissingName,
}

/// The outcome of validating the decoded pairs of a form: the `(email, name)`
/// that it submits, or why it submits none. Other fields are ignored.
pub open spec fn form_outcome(pairs: Seq<(Seq<char>, Seq<char>)>) -> Result<
    (Seq<char>, Seq<char>),
    FormError,
> {
    if key_count(pairs, "email"@) > 1 || key_count(pairs, "name"@) > 1 {
        Err(FormError::DuplicateField)
    } else if key_count(pairs, "email"@) == 0 {
        Err(FormError::MissingEmail)
    } else if key_count(pairs, "name"@) == 0 {
        Err(FormError::MissingName)
    } else {
        Ok((key_value(pairs, "email"@), key_value(pairs, "name"@)))
    }
}

/// A subscription as submitted: both fields present, of any content.
#[derive(Debug)]
pub struct SubscriptionData {
    pub email: String,
    pub name: String,
}

/// Whether `d` is what the outcome `o` of a validation submits.
pub open spec fn submits(o: Result<(Seq<char>, Seq<char>), FormError>, d: SubscriptionData) -> bool {
    o is Ok && d.email@ == o->Ok_0.0 && d.name@ == o->Ok_0.1
}

proof fn lemma_prefix_step(pairs: Seq<(Seq<char>, Seq<char>)>, i: int)
    requires
        0 <= i < pairs.len(),
    ensures
        pairs.take(i + 1).drop_last() == pairs.take(i),
        pairs.take(i + 1).last() == pairs[i],
{
    assert(pairs.take(i + 1).drop_last() =~= pairs.take(i));
}

impl SubscriptionData {
    /// Validates the decoded pairs of a form.
    pub fn from_pairs(pairs: &Vec<(String, String)>) -> (r: Result<SubscriptionData, FormError>)
        ensures
            match form_outcome(pairs_view(pairs@)) {
                Ok(_) => r is Ok && submits(form_outcome(pairs_view(pairs@)), r->Ok_0),
                Err(e) => r == Err::<SubscriptionData, FormError>(e),
            },
    {
        let ghost view = pairs_view(pairs@);
        let email_key = String::from_str("email");
        let name_key = String::from_str("name");
        let mut emails: usize = 0;
        let mut names: usize = 0;
        let mut email = String::new();
        let mut name = String::new();
        let mut i: usize = 0;
        while i < pairs.len()
            invariant
                i <= pairs@.len(),
                view == pairs_view(pairs@),
                email_key@ == "email"@,
                name_key@ == "name"@,
                emails as nat == key_count(view.take(i as int), "email"@),
                names as nat == key_count(view.take(i as int), "name"@),
                emails <= i,
                names <= i,
                emails > 0 ==> email@ == key_value(view.take(i as int), "email"@),
                names > 0 ==> name@ == key_value(view.take(i as int), "name"@),
            decreases pairs@.len() - i,
        {
            proof {
                lemma_prefix_step(view, i as int);
            }
            if pairs[i].0 == email_key {
                emails = emails + 1;
                email = pairs[i].1.clone();
            }
            if pairs[i].0 == name_key {
                names = names + 1;
                name = pairs[i].1.clone();
            }
            i = i + 1;
        }
        proof {
            assert(view.take(pairs@.len() as int) =~= view);
        }
        if emails > 1 || names > 1 {
            Err(FormError::DuplicateField)
        } else if emails == 0 {
            Err(FormError::MissingEmail)
        } else if names == 0 {
            Err(FormError::MissingName)
        } else {
            Ok(SubscriptionData { email, name })
        }
    }

    /// Decodes and validates a form body.
    pub fn from_form(body: &[u8]) -> (r: Result<SubscriptionData, FormError>)
        ensures
            match form_outcome(form_pairs_of(body@)) {
                Ok(_) => r is Ok && submits(form_outcome(form_pairs_of(body@)), r->Ok_0),
                Err(e) => r == Err::<SubscriptionData, FormError>(e),
            },
            body@.len() == 0 ==> r == Err::<SubscriptionData, FormError>(FormError::MissingEmail),
    {
        let pairs = decode_form(body);
        proof {
            if body@.len() == 0 {
                assert(pairs_view(pairs@).len() == 0);
            }
        }
        SubscriptionData::from_pairs(&pairs)
    }
}

impl FormError {
    /// The text that explains the error to the client.
    pub fn message(&self) -> (r: String)
        ensures
            r@ == form_error_text(*self),
    {
        match self {
            FormError::DuplicateField => String::from_str("duplicate field"),
            FormError::MissingEmail => String::from_str("missing field `email`"),
            FormError::MissingName => String::from_str("missing field `name`"),
        }
    }
}

/// The text that explains a form error to the client.
pub open spec fn form_error_text(e: FormError) -> Seq<char> {
    match e {
        FormError::DuplicateField => "duplicate field"@,
        FormError::MissingEmail => "missing field `email`"@,
        FormError::MissingName => "missing field `name`"@,
    }
}

/// The answer to a form that is not a subscription: unprocessable entity.
pub fn rejection(e: FormError) -> (r: Response)
    ensures
        r.status == STATUS_UNPROCESSABLE_ENTITY,
        r.body@ == form_error_text(e),
{
    Response { status: STATUS_UNPROCESSABLE_ENTITY, body: e.message() }
}

/// Whether `id` is a random (version 4, RFC 4122 variant) UUID, as a 128-bit
/// big-endian integer.
pub open spec fn is_random_uuid(id: u128) -> bool {
    id & 0xF000C000000000000000u128 == 0x40008000000000000000u128
}

/// Relies on uuid::Uuid::new_v4 (read back with Uuid::as_u128): a random
/// identifier whose version bits say 4 and whose variant bits say RFC 4122.
#[verifier::external_body]
fn fresh_id() -> (r: u128)
    ensures
        is_random_uuid(r),
{
    uuid::Uuid::new_v4().as_u128()
}

/// Relies on chrono's `From<SystemTime> for DateTime<Utc>` (read back with
/// DateTime::timestamp_micros): the current time of the system clock in
/// microseconds since the Unix epoch, negative for a clock set before it.
#[verifier::external_body]
fn now_micros() -> (r: i64) {
    chrono::DateTime::<chrono::Utc>::from(std::time::SystemTime::now()).timestamp_micros()
}

/// A subscription as it is stored.
#[derive(Debug)]
pub struct SubscriptionRecord {
    /// The record's identifier, a UUID as a 128-bit big-endian integer.
    pub id: u128,
    pub email: String,
    pub name: String,
    /// When the subscription was taken, in microseconds since the Unix epoch (UTC).
    pub subscribed_at: i64,
}

impl SubscriptionRecord {
    /// The record of `data` under the identifier `id`, taken at `subscribed_at`.
    pub fn new(data: SubscriptionData, id: u128, subscribed_at: i64) -> (r: SubscriptionRecord)
        ensures
            r.id == id,
            r.email@ == data.email@,
            r.name@ == data.name@,
            r.subscribed_at == subscribed_at,
    {
        SubscriptionRecord { id, email: data.email, name: data.name, subscribed_at }
    }

    /// The record of `data` under a freshly drawn identifier, taken now.
    pub fn create(data: SubscriptionData) -> (r: SubscriptionRecord)
        ensures
            is_random_uuid(r.id),
            r.email@ == data.email@,
            r.name@ == data.name@,
    {
        let id = fresh_id();
        let at = now_micros();
        SubscriptionRecord::new(data, id, at)
    }
}

/// The first half of a subscription request: validates the form body `body`
/// and, for a valid one, gives the record to insert; for an invalid one, the
/// unprocessable-entity answer, and nothing is to be stored.
pub fn subscribe(body: &[u8]) -> (r: Result<SubscriptionRecord, Response>)
    ensures
        match form_outcome(form_pairs_of(body@)) {
            Ok((email, name)) => r is Ok && r->Ok_0.email@ == email && r->Ok_0.name@ == name
                && is_random_uuid(r->Ok_0.id),
            Err(e) => r is Err && r->Err_0.status == STATUS_UNPROCESSABLE_ENTITY
                && r->Err_0.body@ == form_error_text(e),
        },
        body@.len() == 0 ==> r is Err && r->Err_0.status == STATUS_UNPROCESSABLE_ENTITY,
{
    match SubscriptionData::from_form(body) {
        Ok(data) => Ok(SubscriptionRecord::create(data)),
        Err(e) => Err(rejection(e)),
    }
}

/// The text that confirms a subscription of `name` with `email`.
pub open spec fn subscribed_text(name: Seq<char>, email: Seq<char>) -> Seq<char> {
    "User "@ + name + " with email "@ + email + " is subscribed!"@
}

/// The second half of a subscription request: the answer once the store has
/// replied to the insert of `record`. A success confirms the name and the
/// email; any failure of the store is a server error carrying its description.
pub fn subscribe_completed(record: &SubscriptionRecord, outcome: Result<(), String>) -> (r: Response)
    ensures
        outcome is Ok ==> r.status == STATUS_OK && r.body@ == subscribed_text(
            record.name@,
            record.email@,
        ),
        outcome is Err ==> r.status == crate::response::STATUS_INTERNAL_SERVER_ERROR && r.body@
            == outcome->Err_0@,
{
    match outcome {
        Ok(()) => {
            let body = String::from_str("User ").concat(record.name.as_str()).concat(
                " with email ",
            ).concat(record.email.as_str()).concat(" is subscribed!");
            Response { status: STATUS_OK, body }
        },
        Err(message) => internal_error(message),
    }
}

/// A form without an `email` field, or without a `name` field, submits no
/// subscription: its request is answered with a rejection and nothing is stored.
pub proof fn missing_field_is_rejected(body: Seq<u8>)
    requires
        key_count(form_pairs_of(body), "email"@) == 0 || key_count(form_pairs_of(body), "name"@)
            == 0,
    ensures
        form_outcome(form_pairs_of(body)) is Err,
{
}

} // verus!

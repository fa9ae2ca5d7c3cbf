//! Transaction requests received by the HTTP API: their validation and the
//! transaction record a confirmed request becomes.

use vstd::prelude::*;
use vstd::string::*;
use crate::float_bits::F32Bits;
use crate::models::Transaction;
use crate::text::{clone_opt_string, contains_char};

verus! {

/// Direction of a fuel transfer.
#[derive(Debug, Clone, Copy, PartialEq, Eq, Structural)]
pub enum FlowType {
    FlowIn,
    FlowOut,
}

/// The payload of a transaction confirmation request. Volumes, densities,
/// water contents and residual carbon are binary32 values kept as encodings.
#[derive(Debug, Clone, PartialEq, Eq)]
pub struct NewTransactionRequest {
    pub flow_type: FlowType,
    pub vessel_id: String,
    pub vessel_name: String,
    pub vessel_type: String,
    pub liquid_target_volume: F32Bits,
    pub liquid_type: String,
    pub liquid_density_min: F32Bits,
    pub liquid_density_max: F32Bits,
    pub liquid_water_content_min: F32Bits,
    pub liquid_water_content_max: F32Bits,
    pub liquid_residual_carbon_min: F32Bits,
    pub liquid_residual_carbon_max: F32Bits,
    pub operator_full_name: String,
    pub operator_email: String,
    pub operator_phone_number: Option<String>,
    pub customer_vessel_name: Option<String>,
    pub customer_pic_name: Option<String>,
    pub customer_location_name: Option<String>,
    pub supplier_name: Option<String>,
}

/// An ASCII hexadecimal digit, either case.
pub open spec fn is_hex_digit(c: char) -> bool {
    ||| '0' <= c <= '9'
    ||| 'a' <= c <= 'f'
    ||| 'A' <= c <= 'F'
}

/// The hyphenated UUID form: 8-4-4-4-12 hexadecimal digits.
pub open spec fn is_hyphenated_uuid(s: Seq<char>) -> bool {
    &&& s.len() == 36
    &&& forall|i: int|
        0 <= i < 36 ==> if i == 8 || i == 13 || i == 18 || i == 23 {
            s[i] == '-'
        } else {
            is_hex_digit(#[trigger] s[i])
        }
}

/// `c` with an ASCII upper-case letter turned to lower case.
pub open spec fn ascii_lower(c: char) -> char {
    if 'A' <= c <= 'Z' {
        ((c as u32) + 32) as char
    } else {
        c
    }
}

/// The texts `uuid::Uuid::parse_str` accepts: 32 hexadecimal digits
/// (simple), the hyphenated form, the hyphenated form in braces, or the
/// hyphenated form after `urn:uuid:` (that prefix in any ASCII case).
pub open spec fn uuid_parses(text: Seq<char>) -> bool {
    ||| text.len() == 32 && forall|i: int| 0 <= i < 32 ==> is_hex_digit(#[trigger] text[i])
    ||| is_hyphenated_uuid(text)
    ||| text.len() == 38 && text[0] == '{' && text[37] == '}' && is_hyphenated_uuid(
        text.subrange(1, 37),
    )
    ||| text.len() == 45 && text.take(9).map_values(|c: char| ascii_lower(c)) == "urn:uuid:"@
        && is_hyphenated_uuid(text.skip(9))
}

/// `uuid::Uuid::parse_str(text).is_ok()`: whether the text is a UUID in
/// one of the forms `uuid_parses` lists (the crate's parser checks the
/// length, the hyphen positions, the braces or URN prefix, and that every
/// other character is a hexadecimal digit).
#[verifier::external_body]
fn is_uuid(text: &str) -> (r: bool)
    ensures
        r == uuid_parses(text@),
{
    uuid::Uuid::parse_str(text).is_ok()
}

/// A lower-case hexadecimal digit.
pub open spec fn is_lower_hex_digit(c: char) -> bool {
    ||| '0' <= c <= '9'
    ||| 'a' <= c <= 'f'
}

/// A random (version 4, RFC 4122 variant) UUID in lower-case hyphenated
/// form: 8-4-4-4-12 lower-case hexadecimal digits, the version digit `4`
/// first in the third group, and `8`, `9`, `a` or `b` first in the fourth.
pub open spec fn is_v4_uuid_text(s: Seq<char>) -> bool {
    &&& is_hyphenated_uuid(s)
    &&& forall|i: int|
        0 <= i < 36 && i != 8 && i != 13 && i != 18 && i != 23 ==> is_lower_hex_digit(
            #[trigger] s[i],
        )
    &&& s[14] == '4'
    &&& (s[19] == '8' || s[19] == '9' || s[19] == 'a' || s[19] == 'b')
}

/// A fresh random version-4 UUID in hyphenated form:
/// `uuid::Uuid::new_v4().to_string()`. Which UUID is random; its text is the
/// lower-case hyphenated form, and `new_v4` sets the version and variant bits.
/// (`new_v4` panics only when the system random source fails.)
#[verifier::external_body]
fn new_transaction_id() -> (r: String)
    ensures
        is_v4_uuid_text(r@),
{
    uuid::Uuid::new_v4().to_string()
}

/// `a >= b` on binary32 values (false when either is NaN).
pub open spec fn f32_ge(a: F32Bits, b: F32Bits) -> bool {
    b.spec_le(a)
}

/// The first rule a request breaks, as the message the API reports, or
/// `None` when it breaks none. `vessel_id_is_uuid` tells whether the vessel
/// id parses as a UUID.
pub open spec fn validation_failure(
    request: NewTransactionRequest,
    vessel_id_is_uuid: bool,
) -> Option<Seq<char>> {
    if !vessel_id_is_uuid {
        Some("Invalid vessel_id format, should be UUID"@)
    } else if !request.operator_email@.contains('@') {
        Some("Invalid operator email format"@)
    } else if request.liquid_target_volume.spec_le(F32Bits::spec_zero()) {
        Some("Liquid target volume must be greater than 0"@)
    } else if f32_ge(request.liquid_density_min, request.liquid_density_max) {
        Some("Liquid density min must be less than max"@)
    } else if f32_ge(request.liquid_water_content_min, request.liquid_water_content_max) {
        Some("Liquid water content min must be less than max"@)
    } else if f32_ge(request.liquid_residual_carbon_min, request.liquid_residual_carbon_max) {
        Some("Liquid residual carbon min must be less than max"@)
    } else if request.flow_type == FlowType::FlowOut && (request.customer_vessel_name is None
        || request.customer_pic_name is None || request.customer_location_name is None) {
        Some("Customer information required for flow_out transactions"@)
    } else if request.flow_type == FlowType::FlowIn && request.supplier_name is None {
        Some("Supplier name required for flow_in transactions"@)
    } else {
        None
    }
}

/// The rules of `validate_transaction_request`, given whether the vessel id
/// parses as a UUID. Returns the message of the first rule broken.
pub fn validate_transaction_fields(request: &NewTransactionRequest, vessel_id_is_uuid: bool) -> (r:
    Result<(), String>)
    ensures
        r is Ok <==> validation_failure(*request, vessel_id_is_uuid) is None,
        r matches Err(m) ==> validation_failure(*request, vessel_id_is_uuid) == Some(m@),
{
    if !vessel_id_is_uuid {
        return Err(String::from_str("Invalid vessel_id format, should be UUID"));
    }
    if !contains_char(request.operator_email.as_str(), '@') {
        return Err(String::from_str("Invalid operator email format"));
    }
    if request.liquid_target_volume.le(F32Bits::zero()) {
        return Err(String::from_str("Liquid target volume must be greater than 0"));
    }
    if request.liquid_density_max.le(request.liquid_density_min) {
        return Err(String::from_str("Liquid density min must be less than max"));
    }
    if request.liquid_water_content_max.le(request.liquid_water_content_min) {
        return Err(String::from_str("Liquid water content min must be less than max"));
    }
    if request.liquid_residual_carbon_max.le(request.liquid_residual_carbon_min) {
        return Err(String::from_str("Liquid residual carbon min must be less than max"));
    }
    match request.flow_type {
        FlowType::FlowOut => {
            if request.customer_vessel_name.is_none() || request.customer_pic_name.is_none()
                || request.customer_location_name.is_none() {
                return Err(
                    String::from_str("Customer information required for flow_out transactions"),
                );
            }
        },
        FlowType::FlowIn => {
            if request.supplier_name.is_none() {
                return Err(String::from_str("Supplier name required for flow_in transactions"));
            }
        },
    }
    Ok(())
}

/// Checks a transaction request: the vessel id must parse as a UUID, the
/// operator email must contain `@`, the target volume must be above zero,
/// each min must be below its max, and the counterparty fields of the flow
/// direction must be present. Returns the message of the first rule broken.
pub fn validate_transaction_request(request: &NewTransactionRequest) -> (r: Result<(), String>)
    ensures
        r is Ok <==> validation_failure(*request, uuid_parses(request.vessel_id@)) is None,
        r matches Err(m) ==> validation_failure(*request, uuid_parses(request.vessel_id@)) == Some(
            m@,
        ),
{
    let vessel_id_is_uuid = is_uuid(request.vessel_id.as_str());
    validate_transaction_fields(request, vessel_id_is_uuid)
}

/// How a flow type is recorded in a transaction: its variant name in lower
/// case.
pub open spec fn flow_type_label(flow_type: FlowType) -> Seq<char> {
    match flow_type {
        FlowType::FlowIn => "flowin"@,
        FlowType::FlowOut => "flowout"@,
    }
}

/// The label stored for a flow type.
pub fn flow_type_text(flow_type: FlowType) -> (r: String)
    ensures
        r@ == flow_type_label(flow_type),
{
    match flow_type {
        FlowType::FlowIn => String::from_str("flowin"),
        FlowType::FlowOut => String::from_str("flowout"),
    }
}

/// The transaction a valid request becomes, with id `transaction_id`,
/// created at `created_at` and in status `confirmed`.
pub open spec fn spec_transaction_for(
    request: NewTransactionRequest,
    transaction_id: Seq<char>,
    created_at: i64,
    t: Transaction,
) -> bool {
    &&& t.id is None
    &&& t.transaction_id@ == transaction_id
    &&& t.flow_type@ == flow_type_label(request.flow_type)
    &&& t.vessel_id == request.vessel_id
    &&& t.vessel_name == request.vessel_name
    &&& t.vessel_type == request.vessel_type
    &&& t.liquid_target_volume == request.liquid_target_volume
    &&& t.liquid_type == request.liquid_type
    &&& t.liquid_density_min == request.liquid_density_min
    &&& t.liquid_density_max == request.liquid_density_max
    &&& t.liquid_water_content_min == request.liquid_water_content_min
    &&& t.liquid_water_content_max == request.liquid_water_content_max
    &&& t.liquid_residual_carbon_min == request.liquid_residual_carbon_min
    &&& t.liquid_residual_carbon_max == request.liquid_residual_carbon_max
    &&& t.operator_full_name == request.operator_full_name
    &&& t.operator_email == request.operator_email
    &&& t.operator_phone_number == request.operator_phone_number
    &&& t.customer_vessel_name == request.customer_vessel_name
    &&& t.customer_pic_name == request.customer_pic_name
    &&& t.customer_location_name == request.customer_location_name
    &&& t.supplier_name == request.supplier_name
    &&& t.created_at == created_at
    &&& t.status@ == "confirmed"@
}

/// Validates a request and, when it is valid, builds its transaction with a
/// fresh random version-4 UUID as its id, created now, in status `confirmed`. The validation
/// message comes back when it is not.
pub fn create_new_transaction(request: &NewTransactionRequest) -> (r: Result<Transaction, String>)
    ensures
        r is Ok <==> validation_failure(*request, uuid_parses(request.vessel_id@)) is None,
        r matches Err(m) ==> validation_failure(*request, uuid_parses(request.vessel_id@)) == Some(
            m@,
        ),
        r matches Ok(t) ==> spec_transaction_for(*request, t.transaction_id@, t.created_at, t),
        r matches Ok(t) ==> is_v4_uuid_text(t.transaction_id@) && t.created_at >= 0,
        r matches Ok(t) ==> {
            &&& t.vessel_id == request.vessel_id
            &&& t.vessel_name == request.vessel_name
            &&& t.vessel_type == request.vessel_type
            &&& t.liquid_target_volume == request.liquid_target_volume
            &&& t.liquid_type == request.liquid_type
            &&& t.liquid_density_min == request.liquid_density_min
            &&& t.liquid_density_max == request.liquid_density_max
            &&& t.liquid_water_content_min == request.liquid_water_content_min
            &&& t.liquid_water_content_max == request.liquid_water_content_max
            &&& t.liquid_residual_carbon_min == request.liquid_residual_carbon_min
            &&& t.liquid_residual_carbon_max == request.liquid_residual_carbon_max
            &&& t.operator_full_name == request.operator_full_name
            &&& t.operator_email == request.operator_email
            &&& t.operator_phone_number == request.operator_phone_number
            &&& t.customer_vessel_name == request.customer_vessel_name
            &&& t.customer_pic_name == request.customer_pic_name
            &&& t.customer_location_name == request.customer_location_name
            &&& t.supplier_name == request.supplier_name
            &&& t.status@ == "confirmed"@
        },
{
    validate_transaction_request(request)?;
    let transaction_id = new_transaction_id();
    let t = Transaction::new(
        transaction_id,
        flow_type_text(request.flow_type),
        request.vessel_id.clone(),
        request.vessel_name.clone(),
        request.vessel_type.clone(),
        request.liquid_target_volume,
        request.liquid_type.clone(),
        request.liquid_density_min,
        request.liquid_density_max,
        request.liquid_water_content_min,
        request.liquid_water_content_max,
        request.liquid_residual_carbon_min,
        request.liquid_residual_carbon_max,
        request.operator_full_name.clone(),
        request.operator_email.clone(),
        clone_opt_string(&request.operator_phone_number),
        clone_opt_string(&request.customer_vessel_name),
        clone_opt_string(&request.customer_pic_name),
        clone_opt_string(&request.customer_location_name),
        clone_opt_string(&request.supplier_name),
        String::from_str("confirmed"),
    );
    Ok(t)
}

/// A request is accepted exactly when it keeps every rule: the vessel id is
/// a UUID, the operator email holds `@`, the target volume is not at or
/// below zero, no minimum is at or above its maximum, a flow-out request
/// names the customer vessel, the customer PIC and the customer location,
/// and a flow-in request names its supplier.
pub proof fn lemma_accepted_iff_rules_hold(request: NewTransactionRequest, vessel_id_is_uuid: bool)
    ensures
        validation_failure(request, vessel_id_is_uuid) is None <==> {
            &&& vessel_id_is_uuid
            &&& request.operator_email@.contains('@')
            &&& !request.liquid_target_volume.spec_le(F32Bits::spec_zero())
            &&& !request.liquid_density_max.spec_le(request.liquid_density_min)
            &&& !request.liquid_water_content_max.spec_le(request.liquid_water_content_min)
            &&& !request.liquid_residual_carbon_max.spec_le(request.liquid_residual_carbon_min)
            &&& request.flow_type == FlowType::FlowOut ==> {
                &&& request.customer_vessel_name is Some
                &&& request.customer_pic_name is Some
                &&& request.customer_location_name is Some
            }
            &&& request.flow_type == FlowType::FlowIn ==> request.supplier_name is Some
        },
{
}

/// A flow-out request that keeps every other rule but lacks the customer
/// vessel, PIC or location is refused with exactly the customer message.
pub proof fn lemma_flow_out_missing_customer_message(
    request: NewTransactionRequest,
    vessel_id_is_uuid: bool,
)
    requires
        request.flow_type == FlowType::FlowOut,
        request.customer_vessel_name is None || request.customer_pic_name is None
            || request.customer_location_name is None,
        vessel_id_is_uuid,
        request.operator_email@.contains('@'),
        !request.liquid_target_volume.spec_le(F32Bits::spec_zero()),
        !request.liquid_density_max.spec_le(request.liquid_density_min),
        !request.liquid_water_content_max.spec_le(request.liquid_water_content_min),
        !request.liquid_residual_carbon_max.spec_le(request.liquid_residual_carbon_min),
    ensures
        validation_failure(request, vessel_id_is_uuid) == Some(
            "Customer information required for flow_out transactions"@,
        ),
{
}

/// Whatever else it breaks, a flow-out request without the customer
/// vessel, PIC or location is refused, and a flow-in request without a
/// supplier is refused.
pub proof fn lemma_counterparty_required(request: NewTransactionRequest, vessel_id_is_uuid: bool)
    ensures
        request.flow_type == FlowType::FlowOut && (request.customer_vessel_name is None
            || request.customer_pic_name is None || request.customer_location_name is None)
            ==> validation_failure(request, vessel_id_is_uuid) is Some,
        request.flow_type == FlowType::FlowIn && request.supplier_name is None ==> validation_failure(
            request,
            vessel_id_is_uuid,
        ) is Some,
{
}

/// The transaction a request becomes copies every request field into the
/// field of the same name, has no row id yet, records the flow direction as
/// `flowin` or `flowout`, and is `confirmed`.
pub proof fn lemma_transaction_copies_request(
    request: NewTransactionRequest,
    transaction_id: Seq<char>,
    created_at: i64,
    t: Transaction,
)
    requires
        spec_transaction_for(request, transaction_id, created_at, t),
    ensures
        t.vessel_id == request.vessel_id,
        t.vessel_name == request.vessel_name,
        t.vessel_type == request.vessel_type,
        t.liquid_target_volume == request.liquid_target_volume,
        t.liquid_type == request.liquid_type,
        t.liquid_density_min == request.liquid_density_min,
        t.liquid_density_max == request.liquid_density_max,
        t.liquid_water_content_min == request.liquid_water_content_min,
        t.liquid_water_content_max == request.liquid_water_content_max,
        t.liquid_residual_carbon_min == request.liquid_residual_carbon_min,
        t.liquid_residual_carbon_max == request.liquid_residual_carbon_max,
        t.operator_full_name == request.operator_full_name,
        t.operator_email == request.operator_email,
        t.operator_phone_number == request.operator_phone_number,
        t.customer_vessel_name == request.customer_vessel_name,
        t.customer_pic_name == request.customer_pic_name,
        t.customer_location_name == request.customer_location_name,
        t.supplier_name == request.supplier_name,
        t.id is None,
        t.transaction_id@ == transaction_id,
        t.created_at == created_at,
        request.flow_type == FlowType::FlowIn ==> t.flow_type@ == "flowin"@,
        request.flow_type == FlowType::FlowOut ==> t.flow_type@ == "flowout"@,
        t.status@ == "confirmed"@,
{
}

} // verus!

//! Proof-request routing: a typed request kind, a string-keyed bag of
//! plain parameter values, and the dispatch that turns every failure
//! into a populated response envelope with a transport status chosen by
//! category. No branch can raise: each outcome is a constructed reply.

use vstd::prelude::*;

use crate::text::{
    dec_digits, dec_value, is_amount_digits, parse_u64_decimal, str_eq, u64_to_dec,
};

verus! {

/// A request parameter as this service reads it: a string, an unsigned
/// 64-bit number, or anything else (negative, fractional, out of range,
/// or structured), which never parses as an amount.
pub enum ParamValue {
    Text(String),
    Unsigned(u64),
    Other,
}

/// The amount encoded by one parameter value: a number is taken as it
/// is, a string must be a decimal rendering in range, anything else is
/// rejected. A numeric and a string encoding of the same value yield
/// the same amount.
pub open spec fn amount_of(v: ParamValue) -> Option<u64> {
    match v {
        ParamValue::Unsigned(n) => Some(n),
        ParamValue::Text(s) => if is_amount_digits(s@) {
            Some((dec_value(s@) as u64))
        } else {
            None
        },
        ParamValue::Other => None,
    }
}

/// Encoding-agreement law: a string holding the decimal rendering of a
/// number and the number itself encode the same amount, for every
/// unsigned 64-bit value.
pub proof fn lemma_amount_encodings_agree(s: String, n: u64)
    requires
        s@ == dec_digits(n as nat),
    ensures
        amount_of(ParamValue::Text(s)) == amount_of(ParamValue::Unsigned(n)),
{
    crate::text::lemma_amount_round_trip(n);
}

/// Parse an amount from one parameter value, accepting a numeric and a
/// decimal-string encoding identically and rejecting everything else.
pub fn parse_amount(v: &ParamValue) -> (r: Option<u64>)
    ensures
        r == amount_of(*v),
{
    match v {
        ParamValue::Unsigned(n) => Some(*n),
        ParamValue::Text(s) => parse_u64_decimal(s.as_str()),
        ParamValue::Other => None,
    }
}

/// Index of the first entry with the given key, or the length of the
/// bag when the key is absent.
pub open spec fn first_key_idx(entries: Seq<(String, ParamValue)>, key: Seq<char>) -> int
    decreases entries.len(),
{
    if entries.len() == 0 {
        0
    } else if entries[0].0@ == key {
        0
    } else {
        1 + first_key_idx(entries.drop_first(), key)
    }
}

/// The value stored under a key: the first entry that carries it.
pub open spec fn lookup_value(entries: Seq<(String, ParamValue)>, key: Seq<char>) -> Option<
    ParamValue,
> {
    if first_key_idx(entries, key) < entries.len() {
        Some(entries[first_key_idx(entries, key)].1)
    } else {
        None
    }
}

/// What the first-key index means: in range exactly when the key
/// occurs, pointing at the key, with no earlier occurrence.
proof fn lemma_first_key_props(entries: Seq<(String, ParamValue)>, key: Seq<char>)
    ensures
        0 <= first_key_idx(entries, key) <= entries.len(),
        first_key_idx(entries, key) < entries.len() ==> entries[first_key_idx(
            entries,
            key,
        )].0@ == key,
        forall|j: int| 0 <= j < first_key_idx(entries, key) ==> entries[j].0@ != key,
    decreases entries.len(),
{
    if entries.len() > 0 && entries[0].0@ != key {
        lemma_first_key_props(entries.drop_first(), key);
        assert forall|j: int| 0 <= j < first_key_idx(entries, key) implies entries[j].0@
            != key by {
            if j > 0 {
                assert(entries.drop_first()[j - 1] == entries[j]);
            }
        }
        if first_key_idx(entries, key) < entries.len() {
            assert(entries.drop_first()[first_key_idx(entries.drop_first(), key)]
                == entries[first_key_idx(entries, key)]);
        }
    }
}

/// An occurrence with no earlier occurrence is the first one.
proof fn lemma_first_key_is(entries: Seq<(String, ParamValue)>, key: Seq<char>, i: int)
    requires
        0 <= i < entries.len(),
        entries[i].0@ == key,
        forall|j: int| 0 <= j < i ==> entries[j].0@ != key,
    ensures
        first_key_idx(entries, key) == i,
{
    lemma_first_key_props(entries, key);
    let k = first_key_idx(entries, key);
    if k < i {
        assert(entries[k].0@ != key);
        assert(false);
    } else if k > i {
        assert(entries[i].0@ != key);
        assert(false);
    }
}

/// Find the value stored under a key in a parameter bag.
pub fn get_param<'a>(entries: &'a Vec<(String, ParamValue)>, key: &str) -> (r: Option<
    &'a ParamValue,
>)
    ensures
        r matches Some(v) ==> lookup_value(entries@, key@) == Some(*v),
        r is None <==> lookup_value(entries@, key@) is None,
{
    let n = entries.len();
    let mut i: usize = 0;
    while i < n
        invariant
            0 <= i <= n,
            n == entries@.len(),
            forall|j: int| 0 <= j < i ==> entries@[j].0@ != key@,
        decreases n - i,
    {
        let e = &entries[i];
        if str_eq(e.0.as_str(), key) {
            proof {
                lemma_first_key_is(entries@, key@, i as int);
            }
            return Some(&e.1);
        }
        i = i + 1;
    }
    proof {
        lemma_first_key_props(entries@, key@);
        if first_key_idx(entries@, key@) < entries@.len() {
            assert(entries@[first_key_idx(entries@, key@)].0@ != key@);
        }
    }
    None
}

/// The two proof kinds this service dispatches on.
#[derive(Clone, Copy, PartialEq, Eq, Structural, Debug)]
pub enum ProofKind {
    Spend,
    Output,
}

/// The transport status category of a reply.
#[derive(Clone, Copy, PartialEq, Eq, Structural, Debug)]
pub enum HttpStatus {
    Success,
    BadRequest,
    ServerError,
    NotImplemented,
}

/// The response envelope: proof bytes, or an error message with an
/// empty proof; exactly one of the two is meaningful.
#[derive(Debug)]
pub struct ProofResponse {
    pub proof: Vec<u8>,
    pub error: Option<String>,
}

/// The kind named by a request's type field, if it is a supported one.
pub open spec fn spec_kind(t: Seq<char>) -> Option<ProofKind> {
    if t == "spend"@ {
        Some(ProofKind::Spend)
    } else if t == "output"@ {
        Some(ProofKind::Output)
    } else {
        None
    }
}

/// The client-fault message for an unsupported proof kind; it names the
/// offending type.
pub open spec fn invalid_kind_text(t: Seq<char>) -> Seq<char> {
    "Invalid proof type: "@ + t
}

/// Screen the request's type field before anything else. An unsupported
/// kind is rejected as a client fault right here, so no prover is ever
/// acquired (and no parameter file probed) for such a request.
pub fn screen_kind(t: &str) -> (r: Result<ProofKind, (ProofResponse, HttpStatus)>)
    ensures
        spec_kind(t@) matches Some(k) ==> r matches Ok(k2) && k2 == k,
        spec_kind(t@) is None ==> (r matches Err(e) && e.0.proof@ == Seq::<u8>::empty() && (
        e.0.error matches Some(m) && m@ == invalid_kind_text(t@)) && e.1
            == HttpStatus::BadRequest),
{
    if str_eq(t, "spend") {
        Ok(ProofKind::Spend)
    } else if str_eq(t, "output") {
        Ok(ProofKind::Output)
    } else {
        let msg = String::from_str("Invalid proof type: ").concat(t);
        Err((ProofResponse { proof: Vec::new(), error: Some(msg) }, HttpStatus::BadRequest))
    }
}

/// The structural-limitation message for a spend proof: the witness and
/// anchor live with the light-client backend, not here.
pub open spec fn spend_limitation_text(key_len: nat, amount: u64) -> Seq<char> {
    "Spend proof generation failed: a spend proof requires the note commitment tree witness and anchor, which only the light-client backend holds; use its transaction building API instead. Current params: spendingKey ("@
        + dec_digits(key_len) + " chars), amount="@ + dec_digits(amount as nat)
}

/// The structural-limitation message for an output proof: address
/// decoding and note construction live with the light-client backend.
pub open spec fn output_limitation_text(to: Seq<char>, amount: u64) -> Seq<char> {
    "Output proof generation failed: an output proof requires payment address decoding and note construction, which only the light-client backend holds; use its transaction building API instead. Current params: toAddress="@
        + to + ", amount="@ + dec_digits(amount as nat)
}

/// What a spend reply must be, given the bag: a missing or non-string
/// spending key and a missing or unparseable amount are client faults;
/// a well-formed request ends in the typed structural limitation.
pub open spec fn spend_reply_spec(
    entries: Seq<(String, ParamValue)>,
    r: (ProofResponse, HttpStatus),
) -> bool {
    r.0.proof@ == Seq::<u8>::empty() && (match lookup_value(entries, "spendingKey"@) {
        Some(ParamValue::Text(key)) => match lookup_value(entries, "amount"@) {
            Some(av) => match amount_of(av) {
                Some(amount) => r.1 == HttpStatus::ServerError && (r.0.error matches Some(m)
                    && m@ == spend_limitation_text(key@.len(), amount)),
                None => r.1 == HttpStatus::BadRequest && (r.0.error matches Some(m) && m@
                    == "Missing or invalid amount parameter"@),
            },
            None => r.1 == HttpStatus::BadRequest && (r.0.error matches Some(m) && m@
                == "Missing or invalid amount parameter"@),
        },
        _ => r.1 == HttpStatus::BadRequest && (r.0.error matches Some(m) && m@
            == "Missing spendingKey parameter"@),
    })
}

/// What an output reply must be, given the bag; mirrors the spend case
/// with the destination address in place of the spending key.
pub open spec fn output_reply_spec(
    entries: Seq<(String, ParamValue)>,
    r: (ProofResponse, HttpStatus),
) -> bool {
    r.0.proof@ == Seq::<u8>::empty() && (match lookup_value(entries, "toAddress"@) {
        Some(ParamValue::Text(to)) => match lookup_value(entries, "amount"@) {
            Some(av) => match amount_of(av) {
                Some(amount) => r.1 == HttpStatus::ServerError && (r.0.error matches Some(m)
                    && m@ == output_limitation_text(to@, amount)),
                None => r.1 == HttpStatus::BadRequest && (r.0.error matches Some(m) && m@
                    == "Missing or invalid amount parameter"@),
            },
            None => r.1 == HttpStatus::BadRequest && (r.0.error matches Some(m) && m@
                == "Missing or invalid amount parameter"@),
        },
        _ => r.1 == HttpStatus::BadRequest && (r.0.error matches Some(m) && m@
            == "Missing toAddress parameter"@),
    })
}

/// The spend limitation message for a spending key of the given length
/// and a parsed amount.
fn spend_limitation_message(key: &String, amount: u64) -> (r: String)
    ensures
        r@ == spend_limitation_text(key@.len(), amount),
{
    let key_len = key.as_str().unicode_len();
    let mut m = String::from_str(
        "Spend proof generation failed: a spend proof requires the note commitment tree witness and anchor, which only the light-client backend holds; use its transaction building API instead. Current params: spendingKey (",
    );
    let len_dec = u64_to_dec(key_len as u64);
    m.append(len_dec.as_str());
    m.append(" chars), amount=");
    let amount_dec = u64_to_dec(amount);
    m.append(amount_dec.as_str());
    proof {
        assert(m@ =~= spend_limitation_text(key@.len(), amount));
    }
    m
}

/// The output limitation message for a destination address and a parsed
/// amount.
fn output_limitation_message(to: &String, amount: u64) -> (r: String)
    ensures
        r@ == output_limitation_text(to@, amount),
{
    let mut m = String::from_str(
        "Output proof generation failed: an output proof requires payment address decoding and note construction, which only the light-client backend holds; use its transaction building API instead. Current params: toAddress=",
    );
    m.append(to.as_str());
    m.append(", amount=");
    let amount_dec = u64_to_dec(amount);
    m.append(amount_dec.as_str());
    proof {
        assert(m@ =~= output_limitation_text(to@, amount));
    }
    m
}

/// A client-fault reply carrying the given message.
fn client_fault(msg: &str) -> (r: (ProofResponse, HttpStatus))
    ensures
        r.0.proof@ == Seq::<u8>::empty(),
        r.0.error matches Some(m) && m@ == msg@,
        r.1 == HttpStatus::BadRequest,
{
    (ProofResponse { proof: Vec::new(), error: Some(String::from_str(msg)) }, HttpStatus::BadRequest)
}

/// Reply to a spend request. The witness and anchor are structurally
/// unavailable here, so a well-formed request is answered with the
/// typed limitation error, never a proof.
pub fn spend_reply(entries: &Vec<(String, ParamValue)>) -> (r: (ProofResponse, HttpStatus))
    ensures
        spend_reply_spec(entries@, r),
{
    let key = match get_param(entries, "spendingKey") {
        Some(ParamValue::Text(k)) => k,
        _ => {
            return client_fault("Missing spendingKey parameter");
        },
    };
    let amount = match get_param(entries, "amount") {
        Some(av) => match parse_amount(av) {
            Some(a) => a,
            None => {
                return client_fault("Missing or invalid amount parameter");
            },
        },
        None => {
            return client_fault("Missing or invalid amount parameter");
        },
    };
    let msg = spend_limitation_message(key, amount);
    (ProofResponse { proof: Vec::new(), error: Some(msg) }, HttpStatus::ServerError)
}

/// Reply to an output request; mirrors the spend case around the
/// destination address.
pub fn output_reply(entries: &Vec<(String, ParamValue)>) -> (r: (ProofResponse, HttpStatus))
    ensures
        output_reply_spec(entries@, r),
{
    let to = match get_param(entries, "toAddress") {
        Some(ParamValue::Text(t)) => t,
        _ => {
            return client_fault("Missing toAddress parameter");
        },
    };
    let amount = match get_param(entries, "amount") {
        Some(av) => match parse_amount(av) {
            Some(a) => a,
            None => {
                return client_fault("Missing or invalid amount parameter");
            },
        },
        None => {
            return client_fault("Missing or invalid amount parameter");
        },
    };
    let msg = output_limitation_message(to, amount);
    (ProofResponse { proof: Vec::new(), error: Some(msg) }, HttpStatus::ServerError)
}

/// Dispatch a screened request once prover acquisition has been tried:
/// an acquisition failure is a server fault carrying its diagnostic,
/// and each kind otherwise gets its exact reply.
pub fn dispatch_proof(
    kind: ProofKind,
    entries: &Vec<(String, ParamValue)>,
    acquire: &Result<(), String>,
) -> (r: (ProofResponse, HttpStatus))
    ensures
        acquire matches Err(e) ==> r.1 == HttpStatus::ServerError && r.0.proof@ == Seq::<
            u8,
        >::empty() && (r.0.error matches Some(m) && m@ == e@),
        acquire is Ok && kind == ProofKind::Spend ==> spend_reply_spec(entries@, r),
        acquire is Ok && kind == ProofKind::Output ==> output_reply_spec(entries@, r),
{
    match acquire {
        Err(e) => {
            let msg = e.as_str().to_owned();
            (ProofResponse { proof: Vec::new(), error: Some(msg) }, HttpStatus::ServerError)
        },
        Ok(_) => match kind {
            ProofKind::Spend => spend_reply(entries),
            ProofKind::Output => output_reply(entries),
        },
    }
}

} // verus!

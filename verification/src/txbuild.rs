//! The transaction-build orchestrator: a total state machine whose
//! early stages are implemented and whose later stages are deliberately
//! terminal. Building a transaction needs compact blocks, a note
//! commitment tree witness and note selection, which only the
//! light-client backend holds, so a well-formed request ends in a typed
//! not-implemented reply, never a crash.

use vstd::prelude::*;

use crate::router::HttpStatus;
use crate::text::{address_preview, dec_digits, preview_of, u64_to_dec};

verus! {

/// A transaction-build request, all fields plain values; the amount is
/// a decimal string of the smallest currency unit.
pub struct BuildRequest {
    pub spending_key: String,
    pub from_address: String,
    pub to_address: String,
    pub amount: String,
    pub memo: Vec<u8>,
    pub lightwalletd_endpoint: Option<String>,
}

/// The build response envelope: a raw transaction with its identifier,
/// or an error; the transaction is empty whenever the error is set.
#[derive(Debug)]
pub struct BuildResponse {
    pub raw_transaction: Vec<u8>,
    pub txid: Option<String>,
    pub error: Option<String>,
}

/// The stages of the build state machine. Only the first two are
/// reachable in this design; the last three name the work that the
/// missing external capability would unlock.
#[derive(Clone, Copy, PartialEq, Eq, Structural, Debug)]
pub enum BuildStage {
    ReceivedRequest,
    ProverAcquired,
    WitnessGathering,
    NoteSelection,
    Built,
}

/// What one step of the machine asks of its surroundings.
#[derive(Clone, Copy, PartialEq, Eq, Structural, Debug)]
pub enum BuildOutcome {
    Continue,
    ServerFault,
    NotImplemented,
}

/// The machine's transition function; total, so every stage has a
/// defined next step even where the work cannot be done here.
pub open spec fn spec_advance(stage: BuildStage, prover_ok: bool) -> (BuildStage, BuildOutcome) {
    match stage {
        BuildStage::ReceivedRequest => if prover_ok {
            (BuildStage::ProverAcquired, BuildOutcome::Continue)
        } else {
            (BuildStage::ReceivedRequest, BuildOutcome::ServerFault)
        },
        BuildStage::ProverAcquired => (BuildStage::ProverAcquired, BuildOutcome::NotImplemented),
        BuildStage::WitnessGathering => (
            BuildStage::WitnessGathering,
            BuildOutcome::NotImplemented,
        ),
        BuildStage::NoteSelection => (BuildStage::NoteSelection, BuildOutcome::NotImplemented),
        BuildStage::Built => (BuildStage::Built, BuildOutcome::NotImplemented),
    }
}

/// Advance the build state machine by one event: whether a prover was
/// acquired for this request.
pub fn advance(stage: BuildStage, prover_ok: bool) -> (r: (BuildStage, BuildOutcome))
    ensures
        r == spec_advance(stage, prover_ok),
{
    match stage {
        BuildStage::ReceivedRequest => if prover_ok {
            (BuildStage::ProverAcquired, BuildOutcome::Continue)
        } else {
            (BuildStage::ReceivedRequest, BuildOutcome::ServerFault)
        },
        BuildStage::ProverAcquired => (BuildStage::ProverAcquired, BuildOutcome::NotImplemented),
        BuildStage::WitnessGathering => (
            BuildStage::WitnessGathering,
            BuildOutcome::NotImplemented,
        ),
        BuildStage::NoteSelection => (BuildStage::NoteSelection, BuildOutcome::NotImplemented),
        BuildStage::Built => (BuildStage::Built, BuildOutcome::NotImplemented),
    }
}

/// The stage reached from the initial one after a sequence of events.
pub open spec fn run_stages(events: Seq<bool>) -> BuildStage
    decreases events.len(),
{
    if events.len() == 0 {
        BuildStage::ReceivedRequest
    } else {
        spec_advance(run_stages(events.drop_last()), events.last()).0
    }
}

/// Terminal-boundary law: from the initial stage, no sequence of events
/// ever reaches the witness-gathering, note-selection or built stages.
/// The machine is total, yet its honest reach ends at prover
/// acquisition.
pub proof fn lemma_unreachable_stages(events: Seq<bool>)
    ensures
        run_stages(events) == BuildStage::ReceivedRequest || run_stages(events)
            == BuildStage::ProverAcquired,
    decreases events.len(),
{
    if events.len() > 0 {
        lemma_unreachable_stages(events.drop_last());
    }
}

/// The typed not-implemented reply: it names the external capability
/// the terminal stage waits for, and carries safely truncated address
/// previews together with the request's plain dimensions.
pub open spec fn build_not_implemented_text(
    key_len: nat,
    from_prev: Seq<char>,
    to_prev: Seq<char>,
    amount: Seq<char>,
    memo_len: nat,
) -> Seq<char> {
    "Transaction building is not implemented: it requires compact blocks, a note commitment tree witness and note selection, which only the light-client backend holds; use its transaction building API instead. Current request: spendingKey ("@
        + dec_digits(key_len) + " chars), from="@ + from_prev + "..., to="@ + to_prev
        + "..., amount="@ + amount + " zatoshi, memo ("@ + dec_digits(memo_len) + " bytes)"@
}

/// Answer a build request once prover acquisition has been tried: an
/// acquisition failure is a server fault; otherwise the request ends at
/// the terminal stage with the typed not-implemented reply. The address
/// previews in it are clamped to the actual lengths, so empty addresses
/// yield empty previews and no out-of-bounds cut.
pub fn build_reply(req: &BuildRequest, acquire: &Result<(), String>) -> (r: (
    BuildResponse,
    HttpStatus,
))
    ensures
        r.0.raw_transaction@ == Seq::<u8>::empty(),
        r.0.txid is None,
        acquire matches Err(e) ==> r.1 == HttpStatus::ServerError && (r.0.error matches Some(m)
            && m@ == "Prover initialization failed: "@ + e@),
        acquire is Ok ==> r.1 == HttpStatus::NotImplemented && (r.0.error matches Some(m) && m@
            == build_not_implemented_text(
            req.spending_key@.len(),
            preview_of(req.from_address@),
            preview_of(req.to_address@),
            req.amount@,
            req.memo@.len(),
        )),
{
    match acquire {
        Err(e) => {
            let mut m = String::from_str("Prover initialization failed: ");
            m.append(e.as_str());
            (
                BuildResponse { raw_transaction: Vec::new(), txid: None, error: Some(m) },
                HttpStatus::ServerError,
            )
        },
        Ok(_) => {
            let key_len = req.spending_key.as_str().unicode_len();
            let mut m = String::from_str(
                "Transaction building is not implemented: it requires compact blocks, a note commitment tree witness and note selection, which only the light-client backend holds; use its transaction building API instead. Current request: spendingKey (",
            );
            let key_dec = u64_to_dec(key_len as u64);
            m.append(key_dec.as_str());
            m.append(" chars), from=");
            m.append(address_preview(req.from_address.as_str()));
            m.append("..., to=");
            m.append(address_preview(req.to_address.as_str()));
            m.append("..., amount=");
            m.append(req.amount.as_str());
            m.append(" zatoshi, memo (");
            let memo_dec = u64_to_dec(req.memo.len() as u64);
            m.append(memo_dec.as_str());
            m.append(" bytes)");
            proof {
                assert(m@ =~= build_not_implemented_text(
                    req.spending_key@.len(),
                    preview_of(req.from_address@),
                    preview_of(req.to_address@),
                    req.amount@,
                    req.memo@.len(),
                ));
            }
            (
                BuildResponse { raw_transaction: Vec::new(), txid: None, error: Some(m) },
                HttpStatus::NotImplemented,
            )
        },
    }
}

} // verus!

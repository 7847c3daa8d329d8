//! What a new invoice brings about, when it is taken, and how it is shown.

use vstd::prelude::*;
use crate::address::Address;
use crate::invoice::creation::InvoiceRequest;
use crate::invoice::error::{InvoiceError, InvoiceFailure};
use crate::invoice::state::InvoiceState;
use crate::invoice::types::{Clearance, DebtorRecord, Invoice, InvoiceEvent, Renewal};

verus! {

/// Whether a byte is a printable character of ASCII that means nothing in HTML.
pub open spec fn harmless(b: u8) -> bool {
    &&& 32 <= b < 127
    &&& b != 34 && b != 38 && b != 39 && b != 60 && b != 62
}

/// Whether the texts of an invoice can be taken: none is empty, the debtor has up
/// to 64 bytes and the others up to 256, and the description is harmless.
pub open spec fn fit_texts(
    debtor: Seq<u8>,
    description: Seq<u8>,
    verification_hash: Seq<u8>,
) -> bool {
    &&& 1 <= debtor.len() <= 64
    &&& 1 <= description.len() <= 256
    &&& 1 <= verification_hash.len() <= 256
    &&& forall|i: int| 0 <= i < description.len() ==> harmless(#[trigger] description[i])
}

/// The texts of an invoice are accepted exactly if they fit, and refused for a
/// reason that holds.
pub proof fn texts_have_to_fit(debtor: Seq<u8>, description: Seq<u8>, verification_hash: Seq<u8>)
    ensures
        match crate::invoice::rules::text_error(debtor, description, verification_hash) {
            None => fit_texts(debtor, description, verification_hash),
            Some(e) => match e {
                InvoiceError::EmptyDebtorName => debtor.len() == 0,
                InvoiceError::EmptyDescription => description.len() == 0,
                InvoiceError::InvalidVerificationHash => verification_hash.len() == 0,
                InvoiceError::DescriptionTooLong => description.len() > 256,
                InvoiceError::DebtorNameTooLong => debtor.len() > 64,
                InvoiceError::VerificationHashTooLong => verification_hash.len() > 256,
                InvoiceError::InvalidDescriptionChars => exists|i: int|
                    0 <= i < description.len() && !harmless(#[trigger] description[i]),
                _ => false,
            },
        },
        forall|b: u8| crate::invoice::rules::safe_byte(b) == harmless(b),
{
    assert(forall|b: u8| crate::invoice::rules::safe_byte(b) == harmless(b));
    if !crate::invoice::rules::safe_description(description) {
        let i = choose|i: int|
            0 <= i < description.len() && !crate::invoice::rules::safe_byte(
                #[trigger] description[i],
            );
        assert(!harmless(description[i]));
    }
}

/// Whether a text starts with `ipfs://`, `ar://` or `https://`.
pub open spec fn leads_somewhere(uri: Seq<u8>) -> bool {
    ||| uri.len() >= 7 && uri[0] == 105 && uri[1] == 112 && uri[2] == 102 && uri[3] == 115
        && uri[4] == 58 && uri[5] == 47 && uri[6] == 47
    ||| uri.len() >= 5 && uri[0] == 97 && uri[1] == 114 && uri[2] == 58 && uri[3] == 47 && uri[4]
        == 47
    ||| uri.len() >= 8 && uri[0] == 104 && uri[1] == 116 && uri[2] == 116 && uri[3] == 112
        && uri[4] == 115 && uri[5] == 58 && uri[6] == 47 && uri[7] == 47
}

/// A link to metadata is accepted exactly if it has up to 256 bytes and starts as
/// one of the three kinds does.
pub proof fn links_have_to_lead_somewhere(uri: Seq<u8>)
    ensures
        crate::invoice::rules::valid_metadata_uri(uri) <==> uri.len() <= 256 && leads_somewhere(
            uri,
        ),
{
    let ipfs = crate::invoice::rules::ipfs_prefix();
    let ar = crate::invoice::rules::ar_prefix();
    let https = crate::invoice::rules::https_prefix();
    lemma_prefix(ipfs, uri);
    lemma_prefix(ar, uri);
    lemma_prefix(https, uri);
    if ipfs.is_prefix_of(uri) {
        assert(uri[0] == ipfs[0] && uri[1] == ipfs[1] && uri[2] == ipfs[2] && uri[3] == ipfs[3]
            && uri[4] == ipfs[4] && uri[5] == ipfs[5] && uri[6] == ipfs[6]);
    }
    if ar.is_prefix_of(uri) {
        assert(uri[0] == ar[0] && uri[1] == ar[1] && uri[2] == ar[2] && uri[3] == ar[3] && uri[4]
            == ar[4]);
    }
    if https.is_prefix_of(uri) {
        assert(uri[0] == https[0] && uri[1] == https[1] && uri[2] == https[2] && uri[3] == https[3]
            && uri[4] == https[4] && uri[5] == https[5] && uri[6] == https[6] && uri[7]
            == https[7]);
    }
}

proof fn lemma_prefix(prefix: Seq<u8>, s: Seq<u8>)
    ensures
        prefix.is_prefix_of(s) <==> prefix.len() <= s.len() && forall|i: int|
            0 <= i < prefix.len() ==> prefix[i] == s[i],
{
    if prefix.len() <= s.len() && forall|i: int| 0 <= i < prefix.len() ==> prefix[i] == s[i] {
        assert(prefix =~= s.subrange(0, prefix.len() as int));
    }
    if prefix.is_prefix_of(s) {
        let start = s.subrange(0, prefix.len() as int);
        assert forall|i: int| 0 <= i < prefix.len() implies prefix[i] == s[i] by {
            assert(start[i] == s[i]);
        }
    }
}

/// What an owner has created within the 24 hours up to `now`, oldest first.
pub open spec fn created_lately(state: InvoiceState, now: u64, owner: Address) -> Seq<u64> {
    let all = if state.timestamps.dom().contains(owner) {
        state.timestamps[owner]
    } else {
        Seq::empty()
    };
    all.filter(|at: u64| at > now - 86_400 && at > 0)
}

/// A creation counts against the limit for 24 hours, and no longer.
pub proof fn creations_count_for_a_day(state: InvoiceState, now: u64, owner: Address)
    ensures
        state.recent_creations(now, owner) == created_lately(state, now, owner),
{
    let all = if state.timestamps.dom().contains(owner) {
        state.timestamps[owner]
    } else {
        Seq::empty()
    };
    lemma_above(all, now);
}

proof fn lemma_above(all: Seq<u64>, now: u64)
    ensures
        crate::collections::items_above(all, now.saturating_sub(86_400)) == all.filter(
            |at: u64| at > now - 86_400 && at > 0,
        ),
    decreases all.len(),
{
    reveal(Seq::filter);
    if all.len() > 0 {
        lemma_above(all.drop_last(), now);
    }
}

/// Whether a new invoice can be taken: the ledger runs and knows its pool, the
/// texts and the link fit, its owner is cleared where that is asked for, the amount
/// and the due date are within their bounds, and so are its owner's account, the
/// exposure of its debtor where debtors have to be registered, and the number of
/// invoices that its owner has created in 24 hours.
pub open spec fn can_be_taken(
    state: InvoiceState,
    now: u64,
    request: InvoiceRequest<Seq<u8>>,
    clearance: Clearance,
) -> bool {
    let rules = state.settings;
    let account = crate::invoice::effects::owed_by(state, request.owner) + request.amount;
    &&& !rules.paused
    &&& rules.pool is Some
    &&& fit_texts(request.debtor, request.description, request.verification_hash)
    &&& request.metadata_uri is Some ==> request.metadata_uri->0.len() <= 256 && leads_somewhere(
        request.metadata_uri->0,
    )
    &&& rules.require_compliance ==> rules.compliance_registry is Some && clearance is Cleared
    &&& request.amount > 0
    &&& rules.max_invoice_amount is Some
    &&& request.amount <= rules.max_invoice_amount->0
    &&& request.due_date > now
    &&& request.due_date >= now + rules.min_due_date_window
    &&& now + rules.min_due_date_window <= u64::MAX
    &&& request.due_date <= now + 946_080_000
    &&& now + 946_080_000 <= u64::MAX
    &&& account <= rules.max_outstanding_per_sme || rules.max_outstanding_per_sme == i128::MAX
    &&& rules.require_registered_debtor ==> {
        let record = state.debtors[request.debtor];
        &&& state.debtors.dom().contains(request.debtor)
        &&& record.is_active
        &&& record.current_exposure + request.amount <= record.max_exposure
    }
    &&& created_lately(state, now, request.owner).len() < rules.daily_limit
    &&& state.invoice_count < u64::MAX
    &&& !state.invoices.dom().contains((state.invoice_count + 1) as u64)
    &&& crate::invoice::effects::listed(state, request.owner).len() < u32::MAX
    &&& state.stats.total_invoices < u64::MAX
    &&& state.stats.active_invoices < u64::MAX
}

/// A new invoice is taken exactly when it can be. It is on record as it was asked
/// for, under the next number, and waits for 72 hours for the oracles, if there are
/// any. Its debtor owes its amount more where debtors have to be registered; its
/// owner's account does not move, but the creation counts, the index and the counts
/// of invoices show it, and nothing else changes.
pub proof fn invoices_are_taken(
    state: InvoiceState,
    now: u64,
    request: InvoiceRequest<Seq<u8>>,
    clearance: Clearance,
)
    ensures
        state.create_invoice_with_metadata(now, request, clearance) is Ok <==> can_be_taken(
            state,
            now,
            request,
            clearance,
        ),
        match state.create_invoice_with_metadata(now, request, clearance) {
            Ok((next, id)) => {
                let invoice = next.invoices[id];
                let debtor = request.debtor;
                let owner = request.owner;
                &&& id == state.invoice_count + 1
                &&& next.invoice_count == id
                &&& next.invoices == state.invoices.insert(id, invoice)
                &&& invoice.id == id
                &&& invoice.owner == owner
                &&& invoice.debtor == debtor
                &&& invoice.amount == request.amount
                &&& invoice.original_due_date == request.due_date
                &&& invoice.due_date == request.due_date
                &&& invoice.pending_due_date is None
                &&& invoice.description == request.description
                &&& state.settings.oracle is Some ==> invoice.status is AwaitingVerification
                &&& state.settings.oracle is None ==> invoice.status is Pending
                &&& invoice.created_at == now
                &&& invoice.funded_at == 0
                &&& invoice.paid_at == 0
                &&& Some(invoice.pool_contract) == state.settings.pool
                &&& invoice.verification_hash == request.verification_hash
                &&& invoice.metadata_uri == request.metadata_uri
                &&& !invoice.oracle_verified
                &&& invoice.dispute_reason.len() == 0
                &&& invoice.disputed_at == 0
                &&& invoice.grace_period_override is None
                &&& invoice.verification_deadline == now + 259_200
                &&& invoice.funded_amount == 0
                &&& !state.settings.require_registered_debtor ==> next.debtors == state.debtors
                &&& state.settings.require_registered_debtor ==> {
                    let after = next.debtors[debtor];
                    &&& after.current_exposure == state.debtors[debtor].current_exposure
                        + request.amount
                    &&& after == (DebtorRecord {
                        current_exposure: after.current_exposure,
                        ..state.debtors[debtor]
                    })
                    &&& next.debtors == state.debtors.insert(debtor, after)
                }
                &&& next.timestamps == state.timestamps.insert(
                    owner,
                    created_lately(state, now, owner).push(now),
                )
                &&& next.sme_invoices == state.sme_invoices.insert(
                    owner,
                    crate::invoice::effects::listed(state, owner).push(id),
                )
                &&& next.stats.total_invoices == state.stats.total_invoices + 1
                &&& next.stats.active_invoices == state.stats.active_invoices + 1
                &&& next.stats.cleaned_invoices == state.stats.cleaned_invoices
                &&& next.sme_outstanding == state.sme_outstanding
                &&& next.disputes == state.disputes
                &&& next.private == state.private
                &&& next.funding == state.funding
                &&& next.renewals == state.renewals.push(Renewal { id, ledgers: 6_307_200 })
                &&& next.events == state.events.push(
                    InvoiceEvent::Created {
                        id,
                        owner,
                        amount: request.amount,
                        metadata_uri: request.metadata_uri,
                        at: now,
                    },
                )
                &&& next.me == state.me
                &&& next.release == state.release
                &&& next.settings == state.settings
                &&& next.proposed_wasm == state.proposed_wasm
                &&& next.image_uri == state.image_uri
                &&& next.keepers == state.keepers
                &&& next.debtor_ids == state.debtor_ids
            },
            Err(_) => true,
        },
{
    creations_count_for_a_day(state, now, request.owner);
    texts_have_to_fit(request.debtor, request.description, request.verification_hash);
    if request.metadata_uri is Some {
        links_have_to_lead_somewhere(request.metadata_uri->0);
    }
    if fit_texts(request.debtor, request.description, request.verification_hash) {
        assert(crate::invoice::rules::safe_description(request.description));
    }
}

/// An invoice that has to have a link is taken as one that can, if it has one.
pub proof fn links_are_asked_for(
    state: InvoiceState,
    now: u64,
    request: InvoiceRequest<Seq<u8>>,
    clearance: Clearance,
)
    ensures
        ({
            let linked = request.metadata_uri is Some && request.metadata_uri->0.len() <= 256
                && leads_somewhere(request.metadata_uri->0);
            &&& linked ==> state.create_invoice(now, request, clearance)
                == state.create_invoice_with_metadata(now, request, clearance)
            &&& !linked ==> state.create_invoice(now, request, clearance) == Err::<
                (InvoiceState, u64),
                InvoiceFailure,
            >(InvoiceFailure::Error(InvoiceError::InvalidMetadata))
        }),
{
    if request.metadata_uri is Some {
        links_have_to_lead_somewhere(request.metadata_uri->0);
    }
}

/// What is shown of an invoice is what is on record, with the image of the ledger,
/// 7 decimals, and a name and a symbol that end in its number: `Astera Invoice #`
/// and `INV-`.
pub proof fn invoices_are_shown_as_they_are(state: InvoiceState, invoice: Invoice<Seq<u8>>)
    ensures
        ({
            let shown = state.metadata_of(invoice);
            let numeral = shown.symbol.skip(4);
            &&& shown.description == invoice.description
            &&& shown.image == state.image_uri
            &&& shown.amount == invoice.amount
            &&& shown.debtor == invoice.debtor
            &&& shown.due_date == invoice.due_date
            &&& shown.status == invoice.status
            &&& shown.decimals == 7
            &&& shown.symbol.take(4) == seq![73u8, 78u8, 86u8, 45u8]
            &&& shown.name.take(16) == seq![
                65u8,
                115u8,
                116u8,
                101u8,
                114u8,
                97u8,
                32u8,
                73u8,
                110u8,
                118u8,
                111u8,
                105u8,
                99u8,
                101u8,
                32u8,
                35u8,
            ]
            &&& shown.name.skip(16) == numeral
            &&& numeral.len() > 0
            &&& crate::invoice::decimal::digits_value(numeral) == invoice.id
            &&& forall|i: int| 0 <= i < numeral.len() ==> 48 <= #[trigger] numeral[i] <= 57
            &&& invoice.id > 0 ==> numeral[0] != 48
        }),
{
    let shown = state.metadata_of(invoice);
    let numeral = crate::invoice::decimal::digits(invoice.id as nat);
    crate::invoice::decimal::numeral_denotes_its_number(invoice.id as nat);
    crate::invoice::decimal::numerals_have_no_zeros_before_them(invoice.id as nat);
    assert(shown.symbol.skip(4) =~= numeral);
    assert(shown.name.skip(16) =~= numeral);
    assert(shown.symbol.take(4) =~= crate::invoice::views::symbol_prefix());
    assert(shown.name.take(16) =~= crate::invoice::views::name_prefix());
}

/// The image that stands for invoices unless another one is set.
pub proof fn the_first_image_is_known()
    ensures
        crate::invoice::state::default_image_uri().map_values(|b: u8| b as char)
            == "ipfs://bafkreihdwdcefgh4dqkjv67uzcmw7ojee6xedzdetojuzjevtenxquvyku"@,
{
    reveal_strlit("ipfs://bafkreihdwdcefgh4dqkjv67uzcmw7ojee6xedzdetojuzjevtenxquvyku");
    assert(crate::invoice::state::default_image_uri().map_values(|b: u8| b as char)
        =~= "ipfs://bafkreihdwdcefgh4dqkjv67uzcmw7ojee6xedzdetojuzjevtenxquvyku"@);
}

} // verus!

//! The download pipeline's decisions: which cards to attempt, what one
//! card's HTTP attempt amounts to, and how per-card outcomes aggregate into
//! run statistics. Network and filesystem work happens outside; every value
//! it produces is judged here.

use crate::images::{decoded_dims, spec_process, spec_validate, process_image, validate_image,
    CorruptionReason, ProcessError, MAX_IMAGE_DIM};
use crate::strutil::{spec_contains, str_contains, str_eq};
use crate::tcg::UnifiedCard;
use vstd::prelude::*;
use vstd::string::StrSliceExecFns;

verus! {

/// Marker that a source API uses for artwork that is not available yet; a
/// URL containing it is never fetched.
pub const PLACEHOLDER_MARKER: &'static str = "errors.scryfall.com/soon.jpg";

/// How many cards of the metadata list a run attempts.
#[derive(Debug, Clone, Copy, PartialEq, Eq, Structural)]
pub enum Amount {
    /// Every card.
    All,
    /// Only the first so many, in metadata order.
    First(usize),
}

/// A structural fault that aborts the whole run before any download.
#[derive(Debug, Clone, Copy, PartialEq, Eq, Structural)]
pub enum PipelineError {
    /// The amount argument is neither `all` nor an unsigned number in range.
    InvalidAmount,
    /// The metadata text does not parse as the selected game's card list.
    InvalidMetadata,
}

/// Why one card's download failed. Recorded for that card only; a failure
/// never aborts the run.
#[derive(Debug, Clone, Copy, PartialEq, Eq, Structural)]
pub enum FailReason {
    /// The request could not be sent or its body could not be read.
    TransportError,
    /// The server answered with a non-success status.
    HttpStatus(u16),
    /// The downloaded bytes failed validation.
    CorruptionDetected(CorruptionReason),
    /// The downloaded bytes validated but processing them failed.
    ProcessingFailed(ProcessError),
}

/// What one card's attempt came to.
#[derive(Debug, Clone, Copy, PartialEq, Eq, Structural)]
pub enum DownloadOutcome {
    /// The canonical image was produced.
    Success,
    /// The canonical image already existed; no request was made.
    SkippedExisting,
    /// The URL carries the placeholder marker; no request was made.
    SkippedPlaceholder,
    /// The attempt failed for this card only.
    Failed(FailReason),
}

/// What the HTTP layer hands back for one attempted card.
#[derive(Debug)]
pub enum FetchResponse {
    /// The request could not be sent, or reading the body failed.
    Transport,
    /// A response with a non-success status code.
    Status(u16),
    /// A success response's body bytes.
    Body(Vec<u8>),
}

/// A status code counts as success exactly when it is in the 2xx range.
pub open spec fn spec_status_is_success(code: u16) -> bool {
    200 <= code < 300
}

/// The URL names placeholder artwork rather than a real image.
pub open spec fn spec_is_placeholder(url: Seq<char>) -> bool {
    spec_contains(url, PLACEHOLDER_MARKER@)
}

/// Decide whether a URL is placeholder artwork, with no network involved.
pub fn is_placeholder_url(url: &str) -> (r: bool)
    ensures
        r == spec_is_placeholder(url@),
{
    str_contains(url, PLACEHOLDER_MARKER)
}

/// Decimal digit.
pub open spec fn spec_is_digit(c: char) -> bool {
    '0' <= c && c <= '9'
}

/// Numeric value of a digit character.
pub open spec fn spec_digit_val(c: char) -> int {
    c as int - '0' as int
}

/// Value of a digit string read in base ten.
pub open spec fn spec_dec_value(s: Seq<char>) -> int
    decreases s.len(),
{
    if s.len() == 0 {
        0
    } else {
        spec_dec_value(s.drop_last()) * 10 + spec_digit_val(s.last())
    }
}

/// The string is non-empty and all digits.
pub open spec fn spec_all_digits(s: Seq<char>) -> bool {
    s.len() > 0 && forall|i: int| 0 <= i < s.len() ==> spec_is_digit(s[i])
}

/// What the amount argument means: `all`, or a digit string whose value
/// fits the machine; anything else is rejected.
pub open spec fn spec_parse_amount(s: Seq<char>) -> Option<Amount> {
    if s == "all"@ {
        Some(Amount::All)
    } else if spec_all_digits(s) && spec_dec_value(s) <= usize::MAX {
        Some(Amount::First(spec_dec_value(s) as usize))
    } else {
        None
    }
}

proof fn lemma_dec_value_nonneg(s: Seq<char>)
    requires
        forall|i: int| 0 <= i < s.len() ==> spec_is_digit(s[i]),
    ensures
        spec_dec_value(s) >= 0,
    decreases s.len(),
{
    if s.len() > 0 {
        lemma_dec_value_nonneg(s.drop_last());
    }
}

proof fn lemma_dec_value_prefix(s: Seq<char>, m: int)
    requires
        0 <= m <= s.len(),
        forall|i: int| 0 <= i < s.len() ==> spec_is_digit(s[i]),
    ensures
        spec_dec_value(s.take(m)) <= spec_dec_value(s),
    decreases s.len() - m,
{
    if m == s.len() {
        assert(s.take(m) =~= s);
    } else {
        lemma_dec_value_nonneg(s.take(m));
        assert(s.take(m + 1).drop_last() =~= s.take(m));
        assert(s.take(m + 1).last() == s[m]);
        assert(spec_dec_value(s.take(m + 1)) == spec_dec_value(s.take(m)) * 10 + spec_digit_val(
            s[m],
        ));
        lemma_dec_value_prefix(s, m + 1);
    }
}

/// Read the amount argument: `all`, or a first-N cap as a digit string.
pub fn parse_amount(s: &str) -> (r: Result<Amount, PipelineError>)
    ensures
        r matches Ok(a) ==> spec_parse_amount(s@) == Some(a),
        r is Err ==> spec_parse_amount(s@) is None && r == Err::<Amount, _>(
            PipelineError::InvalidAmount,
        ),
{
    if str_eq(s, "all") {
        return Ok(Amount::All);
    }
    let n = s.unicode_len();
    if n == 0 {
        return Err(PipelineError::InvalidAmount);
    }
    let mut val: usize = 0;
    let mut i: usize = 0;
    while i < n
        invariant
            n == s@.len(),
            i <= n,
            forall|j: int| 0 <= j < i ==> spec_is_digit(s@[j]),
            val == spec_dec_value(s@.take(i as int)),
            s@ != "all"@,
        decreases n - i,
    {
        let c = s.get_char(i);
        if !(c >= '0' && c <= '9') {
            return Err(PipelineError::InvalidAmount);
        }
        let d = (c as u32 - '0' as u32) as usize;
        if val > (usize::MAX - d) / 10 {
            proof {
                assert(s@.take(i + 1).drop_last() =~= s@.take(i as int));
                assert(s@.take(i + 1).last() == s@[i as int]);
                if spec_all_digits(s@) {
                    assert(val * 10 + d > usize::MAX) by (nonlinear_arith)
                        requires
                            val > (usize::MAX - d) / 10,
                            0 <= d <= 9,
                    ;
                    lemma_dec_value_prefix(s@, i + 1);
                }
            }
            return Err(PipelineError::InvalidAmount);
        }
        proof {
            assert(val * 10 + d <= usize::MAX) by (nonlinear_arith)
                requires
                    val <= (usize::MAX - d) / 10,
                    0 <= d <= 9,
            ;
            assert(s@.take(i + 1).drop_last() =~= s@.take(i as int));
            assert(s@.take(i + 1).last() == s@[i as int]);
        }
        val = val * 10 + d;
        i = i + 1;
    }
    proof {
        assert(s@.take(n as int) =~= s@);
    }
    Ok(Amount::First(val))
}

/// Keep only the first `n` cards when a cap is given; the order and the
/// retained prefix are exactly those of the metadata list.
pub fn apply_amount(cards: &mut Vec<UnifiedCard>, amount: &Amount)
    ensures
        match *amount {
            Amount::All => final(cards)@ == old(cards)@,
            Amount::First(n) => final(cards)@ == old(cards)@.take(
                if n <= old(cards)@.len() {
                    n as int
                } else {
                    old(cards)@.len() as int
                },
            ),
        },
{
    match amount {
        Amount::All => {},
        Amount::First(n) => {
            cards.truncate(*n);
            proof {
                if *n > old(cards)@.len() {
                    assert(cards@ =~= old(cards)@.take(old(cards)@.len() as int));
                } else {
                    assert(cards@ =~= old(cards)@.take(*n as int));
                }
            }
        },
    }
}

/// Decide whether an HTTP status admits the response body.
pub fn status_is_success(code: u16) -> (r: bool)
    ensures
        r == spec_status_is_success(code),
{
    200 <= code && code < 300
}

/// What one attempt's response amounts to: the outcome, and the canonical
/// image bytes exactly when the outcome is success.
pub open spec fn spec_evaluate_fetch(fetch: FetchResponse, width: u32, height: u32) -> (
    DownloadOutcome,
    Option<Seq<u8>>,
) {
    match fetch {
        FetchResponse::Transport => (
            DownloadOutcome::Failed(FailReason::TransportError),
            None::<Seq<u8>>,
        ),
        FetchResponse::Status(code) => (DownloadOutcome::Failed(FailReason::HttpStatus(code)), None),
        FetchResponse::Body(bytes) => match spec_validate(bytes@) {
            Err(reason) => (DownloadOutcome::Failed(FailReason::CorruptionDetected(reason)), None),
            Ok(()) => match spec_process(bytes@, width, height) {
                Err(e) => (DownloadOutcome::Failed(FailReason::ProcessingFailed(e)), None),
                Ok(out) => (DownloadOutcome::Success, Some(out)),
            },
        },
    }
}

/// Judge one card's HTTP response: validate the downloaded bytes, process
/// them, and hand back the outcome together with the bytes to install as the
/// canonical image — present exactly on success, and then decoding to
/// exactly the target dimensions.
pub fn evaluate_fetch(fetch: &FetchResponse, width: u32, height: u32) -> (r: (
    DownloadOutcome,
    Option<Vec<u8>>,
))
    ensures
        r.0 == spec_evaluate_fetch(*fetch, width, height).0,
        r.1 matches Some(v) ==> spec_evaluate_fetch(*fetch, width, height).1 == Some(v@),
        width <= MAX_IMAGE_DIM && height <= MAX_IMAGE_DIM ==> (r.1 matches Some(v)
            ==> decoded_dims(v@) == Some((width, height))),
        r.1 is None ==> spec_evaluate_fetch(*fetch, width, height).1 is None,
{
    match fetch {
        FetchResponse::Transport => (DownloadOutcome::Failed(FailReason::TransportError), None),
        FetchResponse::Status(code) => (
            DownloadOutcome::Failed(FailReason::HttpStatus(*code)),
            None,
        ),
        FetchResponse::Body(bytes) => match validate_image(bytes.as_slice()) {
            Err(reason) => (DownloadOutcome::Failed(FailReason::CorruptionDetected(reason)), None),
            Ok(()) => match process_image(bytes.as_slice(), width, height) {
                Err(e) => (DownloadOutcome::Failed(FailReason::ProcessingFailed(e)), None),
                Ok(out) => (DownloadOutcome::Success, Some(out)),
            },
        },
    }
}

/// Law: an attempt hands out image bytes exactly when it succeeds, so a
/// failed task leaves nothing behind to install — no partial artifact can
/// outlive a run.
pub proof fn lemma_no_partial_artifacts(fetch: FetchResponse, width: u32, height: u32)
    ensures
        spec_evaluate_fetch(fetch, width, height).1 is Some <==> spec_evaluate_fetch(
            fetch,
            width,
            height,
        ).0 is Success,
{
}

/// The decision taken for a card before any network call.
pub fn plan_card(card: &UnifiedCard, exists: bool) -> (r: Option<DownloadOutcome>)
    ensures
        exists ==> r == Some(DownloadOutcome::SkippedExisting),
        !exists && spec_is_placeholder(card.image_url@) ==> r == Some(
            DownloadOutcome::SkippedPlaceholder,
        ),
        !exists && !spec_is_placeholder(card.image_url@) ==> r is None,
{
    if exists {
        Some(DownloadOutcome::SkippedExisting)
    } else if is_placeholder_url(card.image_url.as_str()) {
        Some(DownloadOutcome::SkippedPlaceholder)
    } else {
        None
    }
}

/// Cards that still need work: those whose canonical image is absent, in
/// metadata order.
pub open spec fn spec_filter_missing(cards: Seq<UnifiedCard>, exists: Seq<bool>) -> Seq<UnifiedCard>
    decreases cards.len(),
{
    if cards.len() == 0 {
        Seq::empty()
    } else {
        let rest = spec_filter_missing(cards.drop_last(), exists.drop_last());
        if exists.last() {
            rest
        } else {
            rest.push(cards.last())
        }
    }
}

/// Drop the cards whose canonical image already exists; the rest keep their
/// order. The count of dropped cards is the run's `skipped_existing`.
pub fn filter_missing(cards: &Vec<UnifiedCard>, exists: &Vec<bool>) -> (r: Vec<UnifiedCard>)
    requires
        cards@.len() == exists@.len(),
    ensures
        r@ == spec_filter_missing(cards@, exists@),
        r@.len() <= cards@.len(),
{
    let n = cards.len();
    let mut r: Vec<UnifiedCard> = Vec::new();
    let mut i: usize = 0;
    while i < n
        invariant
            n == cards@.len(),
            n == exists@.len(),
            i <= n,
            r@ == spec_filter_missing(cards@.take(i as int), exists@.take(i as int)),
            r@.len() <= i,
        decreases n - i,
    {
        proof {
            assert(cards@.take(i + 1).drop_last() =~= cards@.take(i as int));
            assert(exists@.take(i + 1).drop_last() =~= exists@.take(i as int));
            assert(cards@.take(i + 1).last() == cards@[i as int]);
            assert(exists@.take(i + 1).last() == exists@[i as int]);
        }
        if !exists[i] {
            r.push(cards[i].duplicate());
        }
        i = i + 1;
    }
    proof {
        assert(cards@.take(n as int) =~= cards@);
        assert(exists@.take(n as int) =~= exists@);
    }
    r
}

/// How many existence flags are set.
pub open spec fn spec_count_true(s: Seq<bool>) -> int
    decreases s.len(),
{
    if s.len() == 0 {
        0
    } else {
        spec_count_true(s.drop_last()) + if s.last() {
            1int
        } else {
            0int
        }
    }
}

/// Law: the existence filter splits the requested cards exactly — every
/// card is either dropped as already existing or kept for download, and
/// nothing else.
pub proof fn lemma_filter_missing_accounts(cards: Seq<UnifiedCard>, exists: Seq<bool>)
    requires
        cards.len() == exists.len(),
    ensures
        spec_filter_missing(cards, exists).len() + spec_count_true(exists) == cards.len(),
    decreases cards.len(),
{
    if cards.len() > 0 {
        lemma_filter_missing_accounts(cards.drop_last(), exists.drop_last());
    }
}

/// Aggregated counters of one run, reported when it ends.
#[derive(Debug, Clone, Copy, PartialEq, Eq, Structural)]
pub struct PipelineStats {
    /// Cards the metadata offered.
    pub total_available: usize,
    /// Cards considered after the amount cap.
    pub total_requested: usize,
    /// Cards whose canonical image already existed.
    pub skipped_existing: usize,
    /// Cards whose URL is placeholder artwork.
    pub skipped_placeholder: usize,
    /// Cards whose attempt failed.
    pub failed: usize,
    /// Cards whose canonical image was produced.
    pub succeeded: usize,
}

/// How many outcomes are successes.
pub open spec fn spec_count_succeeded(s: Seq<DownloadOutcome>) -> int
    decreases s.len(),
{
    if s.len() == 0 {
        0
    } else {
        spec_count_succeeded(s.drop_last()) + if s.last() is Success {
            1int
        } else {
            0int
        }
    }
}

/// How many outcomes are existing-skips.
pub open spec fn spec_count_skipped_existing(s: Seq<DownloadOutcome>) -> int
    decreases s.len(),
{
    if s.len() == 0 {
        0
    } else {
        spec_count_skipped_existing(s.drop_last()) + if s.last() is SkippedExisting {
            1int
        } else {
            0int
        }
    }
}

/// How many outcomes are placeholder-skips.
pub open spec fn spec_count_skipped_placeholder(s: Seq<DownloadOutcome>) -> int
    decreases s.len(),
{
    if s.len() == 0 {
        0
    } else {
        spec_count_skipped_placeholder(s.drop_last()) + if s.last() is SkippedPlaceholder {
            1int
        } else {
            0int
        }
    }
}

/// How many outcomes are failures.
pub open spec fn spec_count_failed(s: Seq<DownloadOutcome>) -> int
    decreases s.len(),
{
    if s.len() == 0 {
        0
    } else {
        spec_count_failed(s.drop_last()) + if s.last() is Failed {
            1int
        } else {
            0int
        }
    }
}

/// Fold a run's per-card outcomes into its statistics. Each outcome lands in
/// exactly one counter; `skipped_existing` carries the cards dropped before
/// the scheduler ever saw them.
pub fn aggregate_outcomes(
    outcomes: &Vec<DownloadOutcome>,
    total_available: usize,
    total_requested: usize,
    skipped_existing: usize,
) -> (r: PipelineStats)
    requires
        skipped_existing + outcomes@.len() <= usize::MAX,
    ensures
        r.total_available == total_available,
        r.total_requested == total_requested,
        r.succeeded == spec_count_succeeded(outcomes@),
        r.skipped_existing == skipped_existing + spec_count_skipped_existing(outcomes@),
        r.skipped_placeholder == spec_count_skipped_placeholder(outcomes@),
        r.failed == spec_count_failed(outcomes@),
        r.succeeded + r.skipped_placeholder + r.failed + r.skipped_existing == skipped_existing
            + outcomes@.len(),
{
    let n = outcomes.len();
    let mut succeeded: usize = 0;
    let mut existing: usize = skipped_existing;
    let mut placeholder: usize = 0;
    let mut failed: usize = 0;
    let mut i: usize = 0;
    while i < n
        invariant
            n == outcomes@.len(),
            i <= n,
            skipped_existing + n <= usize::MAX,
            succeeded == spec_count_succeeded(outcomes@.take(i as int)),
            existing == skipped_existing + spec_count_skipped_existing(outcomes@.take(i as int)),
            placeholder == spec_count_skipped_placeholder(outcomes@.take(i as int)),
            failed == spec_count_failed(outcomes@.take(i as int)),
            succeeded + placeholder + failed + spec_count_skipped_existing(
                outcomes@.take(i as int),
            ) == i,
        decreases n - i,
    {
        proof {
            assert(outcomes@.take(i + 1).drop_last() =~= outcomes@.take(i as int));
            assert(outcomes@.take(i + 1).last() == outcomes@[i as int]);
        }
        match outcomes[i] {
            DownloadOutcome::Success => succeeded = succeeded + 1,
            DownloadOutcome::SkippedExisting => existing = existing + 1,
            DownloadOutcome::SkippedPlaceholder => placeholder = placeholder + 1,
            DownloadOutcome::Failed(_) => failed = failed + 1,
        }
        i = i + 1;
    }
    proof {
        assert(outcomes@.take(n as int) =~= outcomes@);
    }
    PipelineStats {
        total_available,
        total_requested,
        skipped_existing: existing,
        skipped_placeholder: placeholder,
        failed,
        succeeded,
    }
}

/// One card's outcome, given whether its image already exists and what the
/// HTTP layer would answer for it. The response oracle is consulted only
/// when neither skip applies.
pub open spec fn spec_card_outcome(
    card: UnifiedCard,
    exists: bool,
    fetch: FetchResponse,
    width: u32,
    height: u32,
) -> DownloadOutcome {
    if exists {
        DownloadOutcome::SkippedExisting
    } else if spec_is_placeholder(card.image_url@) {
        DownloadOutcome::SkippedPlaceholder
    } else {
        spec_evaluate_fetch(fetch, width, height).0
    }
}

/// All outcomes of a run over a work list, element by element.
pub open spec fn spec_run_outcomes(
    cards: Seq<UnifiedCard>,
    exists: Seq<bool>,
    fetches: Seq<FetchResponse>,
    width: u32,
    height: u32,
) -> Seq<DownloadOutcome> {
    Seq::new(cards.len(), |i: int| spec_card_outcome(cards[i], exists[i], fetches[i], width, height))
}

/// Which canonical images exist after a run: the ones that existed before,
/// plus the ones the run produced. Nothing is ever removed.
pub open spec fn spec_store_after(exists: Seq<bool>, outcomes: Seq<DownloadOutcome>) -> Seq<bool> {
    Seq::new(exists.len(), |i: int| exists[i] || outcomes[i] is Success)
}

/// Law: a run only ever adds canonical images — every card whose image
/// existed before still has it after, whatever the outcomes were.
pub proof fn lemma_store_never_deletes(exists: Seq<bool>, outcomes: Seq<DownloadOutcome>)
    requires
        outcomes.len() == exists.len(),
    ensures
        forall|i: int|
            0 <= i < exists.len() && exists[i] ==> #[trigger] spec_store_after(exists, outcomes)[i],
{
}

proof fn lemma_count_succeeded_zero(s: Seq<DownloadOutcome>)
    requires
        forall|i: int| 0 <= i < s.len() ==> !(s[i] is Success),
    ensures
        spec_count_succeeded(s) == 0,
    decreases s.len(),
{
    if s.len() > 0 {
        lemma_count_succeeded_zero(s.drop_last());
    }
}

proof fn lemma_count_existing_split(out1: Seq<DownloadOutcome>, out2: Seq<DownloadOutcome>)
    requires
        out1.len() == out2.len(),
        forall|i: int|
            0 <= i < out1.len() ==> (out2[i] is SkippedExisting <==> (out1[i] is SkippedExisting
                || out1[i] is Success)),
    ensures
        spec_count_skipped_existing(out2) == spec_count_skipped_existing(out1)
            + spec_count_succeeded(out1),
    decreases out1.len(),
{
    if out1.len() > 0 {
        lemma_count_existing_split(out1.drop_last(), out2.drop_last());
    }
}

/// Law: a second run over the same cards, against the store the first run
/// left and with the world otherwise unchanged, downloads nothing new — it
/// succeeds zero times, leaves the store exactly as the first run left it,
/// and counts as already existing precisely the cards the first run found
/// existing or made exist.
pub proof fn lemma_pipeline_idempotent(
    cards: Seq<UnifiedCard>,
    exists: Seq<bool>,
    fetches: Seq<FetchResponse>,
    width: u32,
    height: u32,
)
    requires
        exists.len() == cards.len(),
        fetches.len() == cards.len(),
    ensures
        ({
            let out1 = spec_run_outcomes(cards, exists, fetches, width, height);
            let store1 = spec_store_after(exists, out1);
            let out2 = spec_run_outcomes(cards, store1, fetches, width, height);
            &&& spec_count_succeeded(out2) == 0
            &&& spec_store_after(store1, out2) =~= store1
            &&& spec_count_skipped_existing(out2) == spec_count_skipped_existing(out1)
                + spec_count_succeeded(out1)
        }),
{
    let out1 = spec_run_outcomes(cards, exists, fetches, width, height);
    let store1 = spec_store_after(exists, out1);
    let out2 = spec_run_outcomes(cards, store1, fetches, width, height);
    assert forall|i: int| 0 <= i < out2.len() implies !(out2[i] is Success) by {
        if !store1[i] {
            assert(!(out1[i] is Success));
        }
    }
    lemma_count_succeeded_zero(out2);
    assert forall|i: int|
        0 <= i < out2.len() implies (out2[i] is SkippedExisting <==> (out1[i] is SkippedExisting
            || out1[i] is Success)) by {
        if exists[i] {
            assert(out1[i] is SkippedExisting);
        }
    }
    lemma_count_existing_split(out1, out2);
}

/// Run the whole pipeline over plain values: cap the card list, skip what
/// exists or is placeholder artwork, judge every attempted response, and
/// fold the outcomes into statistics. The existence flags and the response
/// oracle are indexed by the capped work list; a response is consulted only
/// for cards that are attempted.
pub fn run_pipeline(
    cards: Vec<UnifiedCard>,
    amount: &Amount,
    exists: &Vec<bool>,
    fetches: &Vec<FetchResponse>,
    width: u32,
    height: u32,
) -> (r: (PipelineStats, Vec<DownloadOutcome>, Vec<Option<Vec<u8>>>))
    requires
        exists@.len() == cards@.len(),
        fetches@.len() == cards@.len(),
    ensures
        ({
            let requested = match *amount {
                Amount::All => cards@,
                Amount::First(n) => cards@.take(
                    if n <= cards@.len() {
                        n as int
                    } else {
                        cards@.len() as int
                    },
                ),
            };
            let outs = spec_run_outcomes(
                requested,
                exists@.take(requested.len() as int),
                fetches@.take(requested.len() as int),
                width,
                height,
            );
            &&& r.1@ == outs
            &&& r.0.total_available == cards@.len()
            &&& r.0.total_requested == requested.len()
            &&& r.0.succeeded == spec_count_succeeded(outs)
            &&& r.0.skipped_existing == spec_count_skipped_existing(outs)
            &&& r.0.skipped_placeholder == spec_count_skipped_placeholder(outs)
            &&& r.0.failed == spec_count_failed(outs)
            &&& r.2@.len() == outs.len()
            &&& forall|i: int|
                0 <= i < outs.len() ==> (#[trigger] r.2@[i] is Some <==> outs[i] is Success)
            &&& width <= MAX_IMAGE_DIM && height <= MAX_IMAGE_DIM ==> forall|i: int|
                0 <= i < outs.len() ==> (#[trigger] r.2@[i] matches Some(v) ==> decoded_dims(v@)
                    == Some((width, height)))
        }),
{
    let total_available = cards.len();
    let mut work = cards;
    apply_amount(&mut work, amount);
    let k = work.len();
    let mut outcomes: Vec<DownloadOutcome> = Vec::new();
    let mut artifacts: Vec<Option<Vec<u8>>> = Vec::new();
    let mut i: usize = 0;
    while i < k
        invariant
            k == work@.len(),
            k <= exists@.len(),
            k <= fetches@.len(),
            i <= k,
            outcomes@.len() == i,
            artifacts@.len() == i,
            forall|j: int|
                0 <= j < i ==> outcomes@[j] == spec_card_outcome(
                    work@[j],
                    exists@[j],
                    fetches@[j],
                    width,
                    height,
                ),
            forall|j: int| 0 <= j < i ==> (artifacts@[j] is Some <==> outcomes@[j] is Success),
            width <= MAX_IMAGE_DIM && height <= MAX_IMAGE_DIM ==> forall|j: int|
                0 <= j < i ==> (#[trigger] artifacts@[j] matches Some(v) ==> decoded_dims(v@)
                    == Some((width, height))),
        decreases k - i,
    {
        match plan_card(&work[i], exists[i]) {
            Some(outcome) => {
                outcomes.push(outcome);
                artifacts.push(None);
            },
            None => {
                let (outcome, bytes) = evaluate_fetch(&fetches[i], width, height);
                proof {
                    lemma_no_partial_artifacts(fetches@[i as int], width, height);
                }
                outcomes.push(outcome);
                artifacts.push(bytes);
            },
        }
        i = i + 1;
    }
    let stats = aggregate_outcomes(&outcomes, total_available, k, 0);
    proof {
        assert(outcomes@ =~= spec_run_outcomes(
            work@,
            exists@.take(k as int),
            fetches@.take(k as int),
            width,
            height,
        ));
    }
    (stats, outcomes, artifacts)
}

} // verus!

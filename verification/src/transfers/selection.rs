//! Choosing the bank of a standard transfer, failing closed whenever the
//! options leave the choice unsupported or ambiguous.
use vstd::prelude::*;

use crate::first_seen::views;
use crate::shared::{ApplicationFailureKind, TransferInstrumentId};
use crate::transfers::model::{TransferInstrument, TransferInstrumentView, TransferOptions};

verus! {

#[derive(Clone, Copy, Debug, PartialEq, Eq, Structural)]
pub enum TransferSelectionError {
    NoEligibleDestinations,
    UnsupportedInstrumentType,
    UnsupportedFeeMetadata,
    DuplicateDestinationIds,
    MultipleDefaults,
    AmbiguousAutomaticSelection,
}

#[derive(Clone, Copy, Debug, PartialEq, Eq, Structural)]
pub enum TransferInSelectionError {
    NoEligibleSources,
    SourceNotEligible,
    UnsupportedInstrumentType,
    UnsupportedFeeMetadata,
    DuplicateSourceIds,
    MultipleDefaults,
    NoDefaultSource,
}

impl TransferInSelectionError {
    pub open spec fn spec_failure_kind(self) -> ApplicationFailureKind {
        match self {
            TransferInSelectionError::DuplicateSourceIds => ApplicationFailureKind::ApiContract,
            TransferInSelectionError::MultipleDefaults => ApplicationFailureKind::ApiContract,
            _ => ApplicationFailureKind::Usage,
        }
    }

    #[verifier::when_used_as_spec(spec_failure_kind)]
    pub fn failure_kind(self) -> (r: ApplicationFailureKind)
        ensures
            r == self.spec_failure_kind(),
    {
        match self {
            TransferInSelectionError::DuplicateSourceIds => ApplicationFailureKind::ApiContract,
            TransferInSelectionError::MultipleDefaults => ApplicationFailureKind::ApiContract,
            _ => ApplicationFailureKind::Usage,
        }
    }
}

impl TransferSelectionError {
    pub open spec fn spec_failure_kind(self) -> ApplicationFailureKind {
        match self {
            TransferSelectionError::DuplicateDestinationIds => ApplicationFailureKind::ApiContract,
            TransferSelectionError::MultipleDefaults => ApplicationFailureKind::ApiContract,
            _ => ApplicationFailureKind::Usage,
        }
    }

    #[verifier::when_used_as_spec(spec_failure_kind)]
    pub fn failure_kind(self) -> (r: ApplicationFailureKind)
        ensures
            r == self.spec_failure_kind(),
    {
        match self {
            TransferSelectionError::DuplicateDestinationIds => ApplicationFailureKind::ApiContract,
            TransferSelectionError::MultipleDefaults => ApplicationFailureKind::ApiContract,
            _ => ApplicationFailureKind::Usage,
        }
    }
}

/// Every instrument is a bank account.
pub open spec fn all_banks(s: Seq<TransferInstrumentView>) -> bool {
    forall|i: int| 0 <= i < s.len() ==> (#[trigger] s[i]).instrument_type == "bank"@
}

/// Two instruments share an identifier.
pub open spec fn has_duplicate_ids(s: Seq<TransferInstrumentView>) -> bool {
    exists|i: int, j: int| 0 <= i < j < s.len() && (#[trigger] s[i]).id == (#[trigger] s[j]).id
}

/// The number of instruments marked as default.
pub open spec fn default_count(s: Seq<TransferInstrumentView>) -> nat
    decreases s.len(),
{
    if s.len() == 0 {
        0
    } else {
        default_count(s.drop_last()) + if s.last().is_default {
            1nat
        } else {
            0nat
        }
    }
}

/// The checks that both directions make, in order: fee fields first, then
/// presence, type, unique identifiers and at most one default.
pub enum InstrumentListProblem {
    Fees,
    Empty,
    NotBank,
    DuplicateIds,
    MultipleDefaults,
}

pub open spec fn list_problem(fees_empty: bool, s: Seq<TransferInstrumentView>) -> Option<InstrumentListProblem> {
    if !fees_empty {
        Some(InstrumentListProblem::Fees)
    } else if s.len() == 0 {
        Some(InstrumentListProblem::Empty)
    } else if !all_banks(s) {
        Some(InstrumentListProblem::NotBank)
    } else if has_duplicate_ids(s) {
        Some(InstrumentListProblem::DuplicateIds)
    } else if default_count(s) > 1 {
        Some(InstrumentListProblem::MultipleDefaults)
    } else {
        None
    }
}

/// The error that a list problem amounts to, for a transfer out.
pub open spec fn out_error(p: InstrumentListProblem) -> TransferSelectionError {
    match p {
        InstrumentListProblem::Fees => TransferSelectionError::UnsupportedFeeMetadata,
        InstrumentListProblem::Empty => TransferSelectionError::NoEligibleDestinations,
        InstrumentListProblem::NotBank => TransferSelectionError::UnsupportedInstrumentType,
        InstrumentListProblem::DuplicateIds => TransferSelectionError::DuplicateDestinationIds,
        InstrumentListProblem::MultipleDefaults => TransferSelectionError::MultipleDefaults,
    }
}

/// The error that a list problem amounts to, for a transfer in.
pub open spec fn in_error(p: InstrumentListProblem) -> TransferInSelectionError {
    match p {
        InstrumentListProblem::Fees => TransferInSelectionError::UnsupportedFeeMetadata,
        InstrumentListProblem::Empty => TransferInSelectionError::NoEligibleSources,
        InstrumentListProblem::NotBank => TransferInSelectionError::UnsupportedInstrumentType,
        InstrumentListProblem::DuplicateIds => TransferInSelectionError::DuplicateSourceIds,
        InstrumentListProblem::MultipleDefaults => TransferInSelectionError::MultipleDefaults,
    }
}

/// A selection result, taken by the view of the selected instrument.
pub open spec fn instrument_result<E>(r: Result<TransferInstrument, E>) -> Result<TransferInstrumentView, E> {
    match r {
        Ok(i) => Ok(i@),
        Err(e) => Err(e),
    }
}

/// The outcome of choosing the destination of a standard transfer out among
/// the instruments `s`: the first failed check, else the unique default,
/// else the sole instrument, else an ambiguity.
pub open spec fn out_outcome(
    fees_empty: bool,
    s: Seq<TransferInstrumentView>,
    r: Result<TransferInstrumentView, TransferSelectionError>,
) -> bool {
    match list_problem(fees_empty, s) {
        Some(p) => r == Err::<TransferInstrumentView, TransferSelectionError>(out_error(p)),
        None => if default_count(s) == 1 {
            r is Ok && r->Ok_0.is_default && s.contains(r->Ok_0)
        } else if s.len() == 1 {
            r == Ok::<TransferInstrumentView, TransferSelectionError>(s[0])
        } else {
            r == Err::<TransferInstrumentView, TransferSelectionError>(
                TransferSelectionError::AmbiguousAutomaticSelection,
            )
        },
    }
}

/// The outcome of choosing the source of a standard transfer in among the
/// instruments `s`: the first failed check, else the instrument with the
/// requested identifier, else the unique default.
pub open spec fn in_outcome(
    fees_empty: bool,
    s: Seq<TransferInstrumentView>,
    requested: Option<Seq<char>>,
    r: Result<TransferInstrumentView, TransferInSelectionError>,
) -> bool {
    match list_problem(fees_empty, s) {
        Some(p) => r == Err::<TransferInstrumentView, TransferInSelectionError>(in_error(p)),
        None => match requested {
            Some(id) => if exists|k: int| 0 <= k < s.len() && (#[trigger] s[k]).id == id {
                r is Ok && r->Ok_0.id == id && s.contains(r->Ok_0)
            } else {
                r == Err::<TransferInstrumentView, TransferInSelectionError>(
                    TransferInSelectionError::SourceNotEligible,
                )
            },
            None => if default_count(s) == 1 {
                r is Ok && r->Ok_0.is_default && s.contains(r->Ok_0)
            } else {
                r == Err::<TransferInstrumentView, TransferInSelectionError>(
                    TransferInSelectionError::NoDefaultSource,
                )
            },
        },
    }
}

pub open spec fn requested_view(requested: Option<&TransferInstrumentId>) -> Option<Seq<char>> {
    match requested {
        Some(id) => Some(id@),
        None => None,
    }
}

proof fn lemma_default_count_prefix(s: Seq<TransferInstrumentView>, i: int)
    requires
        0 <= i < s.len(),
    ensures
        default_count(s.take(i + 1)) == default_count(s.take(i)) + if s[i].is_default {
            1nat
        } else {
            0nat
        },
{
    assert(s.take(i + 1).drop_last() =~= s.take(i));
}

proof fn lemma_default_count_zero(s: Seq<TransferInstrumentView>)
    requires
        default_count(s) == 0,
    ensures
        forall|i: int| 0 <= i < s.len() ==> !(#[trigger] s[i]).is_default,
    decreases s.len(),
{
    if s.len() > 0 {
        lemma_default_count_zero(s.drop_last());
        assert forall|i: int| 0 <= i < s.len() implies !(#[trigger] s[i]).is_default by {
            if i < s.len() - 1 {
                assert(s.drop_last()[i] == s[i]);
            }
        }
    }
}

proof fn lemma_default_count_one(s: Seq<TransferInstrumentView>, k: int)
    requires
        default_count(s) <= 1,
        0 <= k < s.len(),
        s[k].is_default,
    ensures
        forall|i: int| 0 <= i < s.len() && i != k ==> !(#[trigger] s[i]).is_default,
    decreases s.len(),
{
    if s.len() > 0 {
        let front = s.drop_last();
        if k == s.len() - 1 {
            lemma_default_count_zero(front);
            assert forall|i: int| 0 <= i < s.len() && i != k implies !(#[trigger] s[i]).is_default by {
                assert(front[i] == s[i]);
            }
        } else {
            assert(front[k] == s[k]);
            lemma_default_count_positive(front, k);
            lemma_default_count_one(front, k);
            assert forall|i: int| 0 <= i < s.len() && i != k implies !(#[trigger] s[i]).is_default by {
                if i < s.len() - 1 {
                    assert(front[i] == s[i]);
                }
            }
        }
    }
}

proof fn lemma_default_count_positive(s: Seq<TransferInstrumentView>, k: int)
    requires
        0 <= k < s.len(),
        s[k].is_default,
    ensures
        default_count(s) >= 1,
    decreases s.len(),
{
    if k < s.len() - 1 {
        assert(s.drop_last()[k] == s[k]);
        lemma_default_count_positive(s.drop_last(), k);
    }
}

fn all_bank_instruments(items: &[TransferInstrument]) -> (r: bool)
    ensures
        r == all_banks(views(items@)),
{
    let ghost s = views(items@);
    let mut i: usize = 0;
    while i < items.len()
        invariant
            s == views(items@),
            i <= items@.len(),
            forall|j: int| 0 <= j < i ==> (#[trigger] s[j]).instrument_type == "bank"@,
        decreases items@.len() - i,
    {
        if !items[i].is_bank() {
            proof {
                assert(s[i as int] == items@[i as int]@);
                assert(s[i as int].instrument_type != "bank"@);
            }
            return false;
        }
        i = i + 1;
    }
    true
}

fn has_duplicate_instrument_ids(items: &[TransferInstrument]) -> (r: bool)
    ensures
        r == has_duplicate_ids(views(items@)),
{
    let ghost s = views(items@);
    let mut a: usize = 0;
    while a < items.len()
        invariant
            s == views(items@),
            a <= items@.len(),
            forall|x: int, y: int| 0 <= x < y < s.len() && x < a ==> (#[trigger] s[x]).id != (
            #[trigger] s[y]).id,
        decreases items@.len() - a,
    {
        let mut b: usize = a + 1;
        while b < items.len()
            invariant
                s == views(items@),
                a < items@.len(),
                a + 1 <= b <= items@.len(),
                forall|x: int, y: int| 0 <= x < y < s.len() && x < a ==> (#[trigger] s[x]).id != (
                #[trigger] s[y]).id,
                forall|y: int| a < y < b ==> s[a as int].id != (#[trigger] s[y]).id,
            decreases items@.len() - b,
        {
            if items[a].id().same_as(items[b].id()) {
                proof {
                    assert(s[a as int] == items@[a as int]@);
                    assert(s[b as int] == items@[b as int]@);
                    assert(s[a as int].id == s[b as int].id);
                }
                return true;
            }
            proof {
                assert(s[a as int] == items@[a as int]@);
                assert(s[b as int] == items@[b as int]@);
            }
            b = b + 1;
        }
        proof {
            assert forall|x: int, y: int| 0 <= x < y < s.len() && x < a + 1 implies (#[trigger] s[x]).id
                != (#[trigger] s[y]).id by {
                if x == a as int {
                    assert(a < y < items@.len());
                }
            }
        }
        a = a + 1;
    }
    false
}

fn count_defaults(items: &[TransferInstrument]) -> (r: usize)
    ensures
        r == default_count(views(items@)),
{
    let ghost s = views(items@);
    let mut defaults: usize = 0;
    let mut k: usize = 0;
    while k < items.len()
        invariant
            s == views(items@),
            k <= items@.len(),
            defaults == default_count(s.take(k as int)),
            defaults <= k,
        decreases items@.len() - k,
    {
        proof {
            lemma_default_count_prefix(s, k as int);
            assert(s[k as int] == items@[k as int]@);
        }
        if items[k].is_default() {
            defaults = defaults + 1;
        }
        k = k + 1;
    }
    proof {
        assert(s.take(s.len() as int) =~= s);
    }
    defaults
}

/// Runs the shared checks over a list of instruments.
fn check_instruments(fees_empty: bool, items: &[TransferInstrument]) -> (r: Option<InstrumentListProblem>)
    ensures
        r == list_problem(fees_empty, views(items@)),
{
    if !fees_empty {
        return Some(InstrumentListProblem::Fees);
    }
    if items.len() == 0 {
        return Some(InstrumentListProblem::Empty);
    }
    if !all_bank_instruments(items) {
        return Some(InstrumentListProblem::NotBank);
    }
    if has_duplicate_instrument_ids(items) {
        return Some(InstrumentListProblem::DuplicateIds);
    }
    if count_defaults(items) > 1 {
        return Some(InstrumentListProblem::MultipleDefaults);
    }
    None
}

/// The destination of a standard transfer out: the unique default, or the
/// sole eligible bank.
pub fn select_standard_out(options: &TransferOptions) -> (r: Result<
    TransferInstrument,
    TransferSelectionError,
>)
    ensures
        out_outcome(
            options.spec_standard().spec_fee().spec_is_empty(),
            options.spec_standard().spec_destinations(),
            instrument_result(r),
        ),
{
    let mode = options.standard();
    let destinations = mode.eligible_destinations();
    let ghost s = views(destinations@);
    match check_instruments(mode.fee().is_empty(), destinations) {
        Some(InstrumentListProblem::Fees) => {
            return Err(TransferSelectionError::UnsupportedFeeMetadata);
        },
        Some(InstrumentListProblem::Empty) => {
            return Err(TransferSelectionError::NoEligibleDestinations);
        },
        Some(InstrumentListProblem::NotBank) => {
            return Err(TransferSelectionError::UnsupportedInstrumentType);
        },
        Some(InstrumentListProblem::DuplicateIds) => {
            return Err(TransferSelectionError::DuplicateDestinationIds);
        },
        Some(InstrumentListProblem::MultipleDefaults) => {
            return Err(TransferSelectionError::MultipleDefaults);
        },
        None => {},
    }
    let mut i: usize = 0;
    while i < destinations.len()
        invariant
            s == views(destinations@),
            s == options.spec_standard().spec_destinations(),
            list_problem(options.spec_standard().spec_fee().spec_is_empty(), s) is None,
            i <= destinations@.len(),
            forall|j: int| 0 <= j < i ==> !(#[trigger] s[j]).is_default,
        decreases destinations@.len() - i,
    {
        if destinations[i].is_default() {
            proof {
                assert(s[i as int] == destinations@[i as int]@);
                assert(s.contains(s[i as int]));
                lemma_default_count_positive(s, i as int);
            }
            return Ok(destinations[i].clone());
        }
        i = i + 1;
    }
    proof {
        lemma_no_default_count_zero(s);
    }
    if destinations.len() == 1 {
        return Ok(destinations[0].clone());
    }
    Err(TransferSelectionError::AmbiguousAutomaticSelection)
}

proof fn lemma_no_default_count_zero(s: Seq<TransferInstrumentView>)
    requires
        forall|j: int| 0 <= j < s.len() ==> !(#[trigger] s[j]).is_default,
    ensures
        default_count(s) == 0,
    decreases s.len(),
{
    if s.len() > 0 {
        assert(!s[s.len() - 1].is_default);
        assert forall|j: int| 0 <= j < s.drop_last().len() implies !(#[trigger] s.drop_last()[j]).is_default by {
            assert(s.drop_last()[j] == s[j]);
        }
        lemma_no_default_count_zero(s.drop_last());
    }
}

/// The source of a standard transfer in: the instrument named by the user,
/// or the unique default.
pub fn select_standard_in(options: &TransferOptions, requested_source: Option<&TransferInstrumentId>) -> (r:
    Result<TransferInstrument, TransferInSelectionError>)
    ensures
        in_outcome(
            options.spec_standard().spec_fee().spec_is_empty(),
            options.spec_standard().spec_sources(),
            requested_view(requested_source),
            instrument_result(r),
        ),
{
    let mode = options.standard();
    let sources = mode.eligible_sources();
    let ghost s = views(sources@);
    match check_instruments(mode.fee().is_empty(), sources) {
        Some(InstrumentListProblem::Fees) => {
            return Err(TransferInSelectionError::UnsupportedFeeMetadata);
        },
        Some(InstrumentListProblem::Empty) => {
            return Err(TransferInSelectionError::NoEligibleSources);
        },
        Some(InstrumentListProblem::NotBank) => {
            return Err(TransferInSelectionError::UnsupportedInstrumentType);
        },
        Some(InstrumentListProblem::DuplicateIds) => {
            return Err(TransferInSelectionError::DuplicateSourceIds);
        },
        Some(InstrumentListProblem::MultipleDefaults) => {
            return Err(TransferInSelectionError::MultipleDefaults);
        },
        None => {},
    }
    match requested_source {
        Some(requested) => {
            let mut i: usize = 0;
            while i < sources.len()
                invariant
                    s == views(sources@),
                    s == options.spec_standard().spec_sources(),
                    list_problem(options.spec_standard().spec_fee().spec_is_empty(), s) is None,
                    requested_source == Some(requested),
                    i <= sources@.len(),
                    forall|j: int| 0 <= j < i ==> (#[trigger] s[j]).id != requested@,
                decreases sources@.len() - i,
            {
                if sources[i].id().same_as(requested) {
                    proof {
                        assert(s[i as int] == sources@[i as int]@);
                        assert(s.contains(s[i as int]));
                    }
                    return Ok(sources[i].clone());
                }
                i = i + 1;
            }
            Err(TransferInSelectionError::SourceNotEligible)
        },
        None => {
            let mut i: usize = 0;
            while i < sources.len()
                invariant
                    s == views(sources@),
                    s == options.spec_standard().spec_sources(),
                    list_problem(options.spec_standard().spec_fee().spec_is_empty(), s) is None,
                    requested_source is None,
                    i <= sources@.len(),
                    forall|j: int| 0 <= j < i ==> !(#[trigger] s[j]).is_default,
                decreases sources@.len() - i,
            {
                if sources[i].is_default() {
                    proof {
                        assert(s[i as int] == sources@[i as int]@);
                        assert(s.contains(s[i as int]));
                        lemma_default_count_positive(s, i as int);
                    }
                    return Ok(sources[i].clone());
                }
                i = i + 1;
            }
            proof {
                lemma_no_default_count_zero(s);
            }
            Err(TransferInSelectionError::NoDefaultSource)
        },
    }
}

/// With at most one default, a default instrument is the only default.
pub proof fn lemma_selected_default_is_unique(s: Seq<TransferInstrumentView>, k: int)
    requires
        default_count(s) <= 1,
        0 <= k < s.len(),
        s[k].is_default,
    ensures
        forall|i: int| 0 <= i < s.len() && (#[trigger] s[i]).is_default ==> i == k,
{
    lemma_default_count_one(s, k);
}


/// Two lists hold the same instruments, each as often, in any order.
pub open spec fn same_instruments(s: Seq<TransferInstrumentView>, t: Seq<TransferInstrumentView>) -> bool {
    s.to_multiset() == t.to_multiset()
}

proof fn lemma_same_instruments_contain(s: Seq<TransferInstrumentView>, t: Seq<TransferInstrumentView>)
    requires
        same_instruments(s, t),
    ensures
        s.len() == t.len(),
        forall|x: TransferInstrumentView| s.contains(x) <==> t.contains(x),
{
    broadcast use vstd::seq_lib::group_to_multiset_ensures;

    assert(s.len() == s.to_multiset().len());
    assert(t.len() == t.to_multiset().len());
    assert forall|x: TransferInstrumentView| s.contains(x) <==> t.contains(x) by {
        assert(s.to_multiset().count(x) == t.to_multiset().count(x));
    }
}

proof fn lemma_all_banks_permutation(s: Seq<TransferInstrumentView>, t: Seq<TransferInstrumentView>)
    requires
        same_instruments(s, t),
        all_banks(s),
    ensures
        all_banks(t),
{
    lemma_same_instruments_contain(s, t);
    assert forall|i: int| 0 <= i < t.len() implies (#[trigger] t[i]).instrument_type == "bank"@ by {
        assert(t.contains(t[i]));
        assert(s.contains(t[i]));
    }
}

proof fn lemma_duplicate_ids_permutation(s: Seq<TransferInstrumentView>, t: Seq<TransferInstrumentView>)
    requires
        same_instruments(s, t),
        has_duplicate_ids(s),
    ensures
        has_duplicate_ids(t),
{
    broadcast use vstd::seq_lib::group_to_multiset_ensures;

    lemma_same_instruments_contain(s, t);
    let (i, j) = choose|i: int, j: int|
        0 <= i < j < s.len() && (#[trigger] s[i]).id == (#[trigger] s[j]).id;
    if s[i] != s[j] {
        assert(s.contains(s[i]));
        assert(s.contains(s[j]));
        let p = choose|p: int| 0 <= p < t.len() && t[p] == s[i];
        let q = choose|q: int| 0 <= q < t.len() && t[q] == s[j];
        if p < q {
            assert(t[p].id == t[q].id);
        } else {
            assert(t[q].id == t[p].id);
        }
    } else {
        assert(!s.no_duplicates());
        if t.no_duplicates() {
            t.lemma_multiset_has_no_duplicates();
            s.lemma_multiset_has_no_duplicates_conv();
        }
        let (p, q) = choose|p: int, q: int|
            0 <= p < t.len() && 0 <= q < t.len() && p != q && t[p] == t[q];
        if p < q {
            assert(t[p].id == t[q].id);
        } else {
            assert(t[q].id == t[p].id);
        }
    }
}

/// The step of counting defaults, as a fold.
pub open spec fn count_default_step() -> spec_fn(TransferInstrumentView, nat) -> nat {
    |x: TransferInstrumentView, n: nat|
        n + if x.is_default {
            1nat
        } else {
            0nat
        }
}

proof fn lemma_default_count_fold(s: Seq<TransferInstrumentView>, v: nat)
    ensures
        s.fold_right(count_default_step(), v) == v + default_count(s),
    decreases s.len(),
{
    if s.len() > 0 {
        lemma_default_count_fold(s.drop_last(), count_default_step()(s.last(), v));
    }
}

proof fn lemma_default_count_permutation(s: Seq<TransferInstrumentView>, t: Seq<TransferInstrumentView>)
    requires
        same_instruments(s, t),
    ensures
        default_count(s) == default_count(t),
{
    let f = count_default_step();
    assert(vstd::seq_lib::commutative_foldr(f));
    vstd::seq_lib::lemma_fold_right_permutation(s, t, f, 0nat);
    lemma_default_count_fold(s, 0nat);
    lemma_default_count_fold(t, 0nat);
}

/// The checks on a list of instruments do not depend on its order.
proof fn lemma_list_problem_permutation(
    fees_empty: bool,
    s: Seq<TransferInstrumentView>,
    t: Seq<TransferInstrumentView>,
)
    requires
        same_instruments(s, t),
    ensures
        list_problem(fees_empty, s) == list_problem(fees_empty, t),
{
    broadcast use vstd::seq_lib::group_to_multiset_ensures;

    assert(t.to_multiset() == s.to_multiset());
    lemma_same_instruments_contain(s, t);
    if all_banks(s) {
        lemma_all_banks_permutation(s, t);
    }
    if all_banks(t) {
        lemma_all_banks_permutation(t, s);
    }
    if has_duplicate_ids(s) {
        lemma_duplicate_ids_permutation(s, t);
    }
    if has_duplicate_ids(t) {
        lemma_duplicate_ids_permutation(t, s);
    }
    lemma_default_count_permutation(s, t);
}


/// Choosing the destination of a transfer out does not depend on the order
/// in which the service lists the destinations: two lists that hold the same
/// instruments, each as often, give the same outcome.
pub proof fn lemma_out_selection_ignores_order(
    fees_empty: bool,
    s: Seq<TransferInstrumentView>,
    t: Seq<TransferInstrumentView>,
    a: Result<TransferInstrumentView, TransferSelectionError>,
    b: Result<TransferInstrumentView, TransferSelectionError>,
)
    requires
        same_instruments(s, t),
        out_outcome(fees_empty, s, a),
        out_outcome(fees_empty, t, b),
    ensures
        a == b,
{
    lemma_list_problem_permutation(fees_empty, s, t);
    lemma_same_instruments_contain(s, t);
    lemma_default_count_permutation(s, t);
    if list_problem(fees_empty, s) is None {
        if default_count(s) == 1 {
            let x = a->Ok_0;
            let y = b->Ok_0;
            assert(s.contains(y));
            let kx = choose|k: int| 0 <= k < s.len() && s[k] == x;
            let ky = choose|k: int| 0 <= k < s.len() && s[k] == y;
            lemma_default_count_one(s, kx);
        } else if s.len() == 1 {
            assert(t.contains(t[0]));
            assert(s.contains(t[0]));
        }
    }
}

/// Choosing the source of a transfer in does not depend on the order in
/// which the service lists the sources: two lists that hold the same
/// instruments, each as often, give the same outcome for the same request.
pub proof fn lemma_in_selection_ignores_order(
    fees_empty: bool,
    s: Seq<TransferInstrumentView>,
    t: Seq<TransferInstrumentView>,
    requested: Option<Seq<char>>,
    a: Result<TransferInstrumentView, TransferInSelectionError>,
    b: Result<TransferInstrumentView, TransferInSelectionError>,
)
    requires
        same_instruments(s, t),
        in_outcome(fees_empty, s, requested, a),
        in_outcome(fees_empty, t, requested, b),
    ensures
        a == b,
{
    lemma_list_problem_permutation(fees_empty, s, t);
    lemma_same_instruments_contain(s, t);
    lemma_default_count_permutation(s, t);
    if list_problem(fees_empty, s) is None {
        match requested {
            Some(id) => {
                if exists|k: int| 0 <= k < s.len() && (#[trigger] s[k]).id == id {
                    let k = choose|k: int| 0 <= k < s.len() && (#[trigger] s[k]).id == id;
                    assert(t.contains(s[k]));
                    let j = choose|j: int| 0 <= j < t.len() && t[j] == s[k];
                    assert(t[j].id == id);
                    let x = a->Ok_0;
                    let y = b->Ok_0;
                    assert(s.contains(y));
                    let kx = choose|i: int| 0 <= i < s.len() && s[i] == x;
                    let ky = choose|i: int| 0 <= i < s.len() && s[i] == y;
                    if kx < ky {
                        assert(s[kx].id == s[ky].id);
                    } else if ky < kx {
                        assert(s[ky].id == s[kx].id);
                    }
                } else {
                    if exists|k: int| 0 <= k < t.len() && (#[trigger] t[k]).id == id {
                        let k = choose|k: int| 0 <= k < t.len() && (#[trigger] t[k]).id == id;
                        assert(t.contains(t[k]));
                        assert(s.contains(t[k]));
                        let j = choose|j: int| 0 <= j < s.len() && s[j] == t[k];
                        assert(s[j].id == id);
                    }
                }
            },
            None => {
                if default_count(s) == 1 {
                    let x = a->Ok_0;
                    let y = b->Ok_0;
                    assert(s.contains(y));
                    let kx = choose|k: int| 0 <= k < s.len() && s[k] == x;
                    let ky = choose|k: int| 0 <= k < s.len() && s[k] == y;
                    lemma_default_count_one(s, kx);
                }
            },
        }
    }
}

} // verus!

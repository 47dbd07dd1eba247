//! Typed request parameters, one set per resource.
//!
//! Every set starts from the resource-independent default (`limit` 25, no
//! cursor) and holds each optional filter as present or absent. A filter
//! left unset is omitted from the outgoing request entirely — never sent
//! as an empty or null marker — which `param_keys` makes precise: it is
//! the set of fields the wire request carries.

use vstd::prelude::*;
use crate::cli::{FilingStatusArg, PutCallArg, TransactionDirectionArg};

verus! {

/// The limit sent when the caller does not override it.
pub const DEFAULT_LIMIT: u32 = 25;

/// Filing status filter of the transport layer.
#[derive(Clone, Copy, Debug, PartialEq, Eq, Structural)]
pub enum FilingStatus {
    All,
    Provisional,
    Final,
}

/// Transaction direction filter of the transport layer.
#[derive(Clone, Copy, Debug, PartialEq, Eq, Structural)]
pub enum TransactionDirection {
    Buy,
    Sell,
}

/// Put/call filter of the transport layer.
#[derive(Clone, Copy, Debug, PartialEq, Eq, Structural)]
pub enum PutCallFilter {
    Put,
    Call,
    Equity,
}

/// The named fields a wire request can carry, across all four resources.
#[derive(Clone, Copy, Debug, PartialEq, Eq, Structural)]
pub enum ParamField {
    Ticker,
    Cik,
    PersonCik,
    ManagerCik,
    Forms,
    Status,
    Direction,
    PutCall,
    MinValue,
    Query,
    State,
    Sic,
    Limit,
    Cursor,
}

/// The field `f` as a key set: present when the option is set, absent
/// when it is not.
pub open spec fn opt_key<A>(o: Option<A>, f: ParamField) -> Set<ParamField> {
    if o is Some {
        set![f]
    } else {
        Set::<ParamField>::empty()
    }
}

/// The effective limit: the caller's value passed through unchanged, or
/// the default when the caller gave none. Nothing is clamped to the 1-100
/// wire range here: out-of-range values are the remote API's to refuse.
pub open spec fn spec_effective_limit(limit: Option<u32>) -> u32 {
    match limit {
        Some(l) => l,
        None => DEFAULT_LIMIT,
    }
}

/// Apply the default to a caller-supplied limit.
pub fn effective_limit(limit: Option<u32>) -> (l: u32)
    ensures
        l == spec_effective_limit(limit),
{
    match limit {
        Some(l) => l,
        None => DEFAULT_LIMIT,
    }
}

/// Law: `limit` defaults to 25 when unset, and any caller-supplied value,
/// in range or not, passes through unchanged.
pub proof fn lemma_limit_passthrough(limit: Option<u32>)
    ensures
        limit is None ==> spec_effective_limit(limit) == 25,
        limit matches Some(l) ==> spec_effective_limit(limit) == l,
{
}

impl FilingStatusArg {
    /// The transport value this command-line value stands for.
    pub open spec fn spec_status(self) -> FilingStatus {
        match self {
            FilingStatusArg::All => FilingStatus::All,
            FilingStatusArg::Provisional => FilingStatus::Provisional,
            FilingStatusArg::Final => FilingStatus::Final,
        }
    }

    /// Translate to the transport layer's filing status, one to one.
    pub fn to_status(self) -> (s: FilingStatus)
        ensures
            s == self.spec_status(),
    {
        match self {
            FilingStatusArg::All => FilingStatus::All,
            FilingStatusArg::Provisional => FilingStatus::Provisional,
            FilingStatusArg::Final => FilingStatus::Final,
        }
    }
}

impl TransactionDirectionArg {
    /// The transport value this command-line value stands for.
    pub open spec fn spec_direction(self) -> TransactionDirection {
        match self {
            TransactionDirectionArg::Buy => TransactionDirection::Buy,
            TransactionDirectionArg::Sell => TransactionDirection::Sell,
        }
    }

    /// Translate to the transport layer's direction, one to one.
    pub fn to_direction(self) -> (d: TransactionDirection)
        ensures
            d == self.spec_direction(),
    {
        match self {
            TransactionDirectionArg::Buy => TransactionDirection::Buy,
            TransactionDirectionArg::Sell => TransactionDirection::Sell,
        }
    }
}

impl PutCallArg {
    /// The transport value this command-line value stands for.
    pub open spec fn spec_filter(self) -> PutCallFilter {
        match self {
            PutCallArg::Put => PutCallFilter::Put,
            PutCallArg::Call => PutCallFilter::Call,
            PutCallArg::Equity => PutCallFilter::Equity,
        }
    }

    /// Translate to the transport layer's put/call filter, one to one.
    pub fn to_filter(self) -> (f: PutCallFilter)
        ensures
            f == self.spec_filter(),
    {
        match self {
            PutCallArg::Put => PutCallFilter::Put,
            PutCallArg::Call => PutCallFilter::Call,
            PutCallArg::Equity => PutCallFilter::Equity,
        }
    }
}

/// Law: the filing-status translation is one to one: distinct
/// command-line values never collapse into one transport value.
pub proof fn lemma_status_translation_injective(a1: FilingStatusArg, a2: FilingStatusArg)
    requires
        a1.spec_status() == a2.spec_status(),
    ensures
        a1 == a2,
{
}

/// Law: the direction translation is one to one: distinct command-line
/// values never collapse into one transport value.
pub proof fn lemma_direction_translation_injective(
    a1: TransactionDirectionArg,
    a2: TransactionDirectionArg,
)
    requires
        a1.spec_direction() == a2.spec_direction(),
    ensures
        a1 == a2,
{
}

/// Law: the put/call translation is one to one: distinct command-line
/// values never collapse into one transport value.
pub proof fn lemma_put_call_translation_injective(a1: PutCallArg, a2: PutCallArg)
    requires
        a1.spec_filter() == a2.spec_filter(),
    ensures
        a1 == a2,
{
}

/// The status filter of an optional command-line value.
pub open spec fn spec_opt_status(o: Option<FilingStatusArg>) -> Option<FilingStatus> {
    match o {
        Some(a) => Some(a.spec_status()),
        None => None,
    }
}

/// The direction filter of an optional command-line value.
pub open spec fn spec_opt_direction(o: Option<TransactionDirectionArg>) -> Option<
    TransactionDirection,
> {
    match o {
        Some(a) => Some(a.spec_direction()),
        None => None,
    }
}

/// The put/call filter of an optional command-line value.
pub open spec fn spec_opt_filter(o: Option<PutCallArg>) -> Option<PutCallFilter> {
    match o {
        Some(a) => Some(a.spec_filter()),
        None => None,
    }
}

/// Parameters of a filings list request.
pub struct ListFilingsParams {
    pub ticker: Option<String>,
    pub cik: Option<u64>,
    pub forms: Option<Vec<String>>,
    pub status: Option<FilingStatus>,
    pub limit: u32,
    pub cursor: Option<String>,
}

impl ListFilingsParams {
    /// The fields the outgoing request carries: the filters that are set,
    /// plus `limit`, which is always sent.
    pub open spec fn param_keys(self) -> Set<ParamField> {
        set![ParamField::Limit].union(opt_key(self.ticker, ParamField::Ticker)).union(
            opt_key(self.cik, ParamField::Cik),
        ).union(opt_key(self.forms, ParamField::Forms)).union(
            opt_key(self.status, ParamField::Status),
        ).union(opt_key(self.cursor, ParamField::Cursor))
    }

    /// The empty filter set: no filters, the default limit, no cursor.
    pub fn new() -> (p: Self)
        ensures
            p.ticker is None,
            p.cik is None,
            p.forms is None,
            p.status is None,
            p.cursor is None,
            p.limit == DEFAULT_LIMIT,
            p.param_keys() =~= set![ParamField::Limit],
    {
        ListFilingsParams {
            ticker: None,
            cik: None,
            forms: None,
            status: None,
            limit: DEFAULT_LIMIT,
            cursor: None,
        }
    }
}

/// Law: in a filings request, a filter left unset is omitted from the
/// outgoing parameter set, a filter that is set is present, and `limit`
/// is always present.
pub proof fn lemma_filings_fields_present_iff_set(p: ListFilingsParams)
    ensures
        p.param_keys().contains(ParamField::Limit),
        p.param_keys().contains(ParamField::Ticker) <==> p.ticker is Some,
        p.param_keys().contains(ParamField::Cik) <==> p.cik is Some,
        p.param_keys().contains(ParamField::Forms) <==> p.forms is Some,
        p.param_keys().contains(ParamField::Status) <==> p.status is Some,
        p.param_keys().contains(ParamField::Cursor) <==> p.cursor is Some,
{
}

/// Parameters of an insider-transactions list request.
pub struct ListInsiderParams {
    pub ticker: Option<String>,
    pub cik: Option<u64>,
    pub person_cik: Option<u64>,
    pub direction: Option<TransactionDirection>,
    pub min_value: Option<u64>,
    pub limit: u32,
    pub cursor: Option<String>,
}

impl ListInsiderParams {
    /// The fields the outgoing request carries: the filters that are set,
    /// plus `limit`, which is always sent.
    pub open spec fn param_keys(self) -> Set<ParamField> {
        set![ParamField::Limit].union(opt_key(self.ticker, ParamField::Ticker)).union(
            opt_key(self.cik, ParamField::Cik),
        ).union(opt_key(self.person_cik, ParamField::PersonCik)).union(
            opt_key(self.direction, ParamField::Direction),
        ).union(opt_key(self.min_value, ParamField::MinValue)).union(
            opt_key(self.cursor, ParamField::Cursor),
        )
    }

    /// The empty filter set: no filters, the default limit, no cursor.
    pub fn new() -> (p: Self)
        ensures
            p.ticker is None,
            p.cik is None,
            p.person_cik is None,
            p.direction is None,
            p.min_value is None,
            p.cursor is None,
            p.limit == DEFAULT_LIMIT,
            p.param_keys() =~= set![ParamField::Limit],
    {
        ListInsiderParams {
            ticker: None,
            cik: None,
            person_cik: None,
            direction: None,
            min_value: None,
            limit: DEFAULT_LIMIT,
            cursor: None,
        }
    }
}

/// Law: in an insider-transactions request, a filter left unset is
/// omitted from the outgoing parameter set, a filter that is set is
/// present, and `limit` is always present.
pub proof fn lemma_insider_fields_present_iff_set(p: ListInsiderParams)
    ensures
        p.param_keys().contains(ParamField::Limit),
        p.param_keys().contains(ParamField::Ticker) <==> p.ticker is Some,
        p.param_keys().contains(ParamField::Cik) <==> p.cik is Some,
        p.param_keys().contains(ParamField::PersonCik) <==> p.person_cik is Some,
        p.param_keys().contains(ParamField::Direction) <==> p.direction is Some,
        p.param_keys().contains(ParamField::MinValue) <==> p.min_value is Some,
        p.param_keys().contains(ParamField::Cursor) <==> p.cursor is Some,
{
}

/// Parameters of an institutional-holdings list request.
pub struct ListInstitutionalParams {
    pub ticker: Option<String>,
    pub cik: Option<u64>,
    pub manager_cik: Option<u64>,
    pub put_call: Option<PutCallFilter>,
    pub limit: u32,
    pub cursor: Option<String>,
}

impl ListInstitutionalParams {
    /// The fields the outgoing request carries: the filters that are set,
    /// plus `limit`, which is always sent.
    pub open spec fn param_keys(self) -> Set<ParamField> {
        set![ParamField::Limit].union(opt_key(self.ticker, ParamField::Ticker)).union(
            opt_key(self.cik, ParamField::Cik),
        ).union(opt_key(self.manager_cik, ParamField::ManagerCik)).union(
            opt_key(self.put_call, ParamField::PutCall),
        ).union(opt_key(self.cursor, ParamField::Cursor))
    }

    /// The empty filter set: no filters, the default limit, no cursor.
    pub fn new() -> (p: Self)
        ensures
            p.ticker is None,
            p.cik is None,
            p.manager_cik is None,
            p.put_call is None,
            p.cursor is None,
            p.limit == DEFAULT_LIMIT,
            p.param_keys() =~= set![ParamField::Limit],
    {
        ListInstitutionalParams {
            ticker: None,
            cik: None,
            manager_cik: None,
            put_call: None,
            limit: DEFAULT_LIMIT,
            cursor: None,
        }
    }
}

/// Law: in an institutional-holdings request, a filter left unset is
/// omitted from the outgoing parameter set, a filter that is set is
/// present, and `limit` is always present.
pub proof fn lemma_institutional_fields_present_iff_set(p: ListInstitutionalParams)
    ensures
        p.param_keys().contains(ParamField::Limit),
        p.param_keys().contains(ParamField::Ticker) <==> p.ticker is Some,
        p.param_keys().contains(ParamField::Cik) <==> p.cik is Some,
        p.param_keys().contains(ParamField::ManagerCik) <==> p.manager_cik is Some,
        p.param_keys().contains(ParamField::PutCall) <==> p.put_call is Some,
        p.param_keys().contains(ParamField::Cursor) <==> p.cursor is Some,
{
}

/// Parameters of a company search request. The free-text query is
/// required; the other filters are optional.
pub struct SearchCompaniesParams {
    pub query: String,
    pub state: Option<String>,
    pub sic: Option<u32>,
    pub limit: u32,
}

impl SearchCompaniesParams {
    /// The fields the outgoing request carries: the query and `limit`
    /// always, plus the filters that are set.
    pub open spec fn param_keys(self) -> Set<ParamField> {
        set![ParamField::Query, ParamField::Limit].union(
            opt_key(self.state, ParamField::State),
        ).union(opt_key(self.sic, ParamField::Sic))
    }
}

/// Law: in a company search request, a filter left unset is omitted from
/// the outgoing parameter set, a filter that is set is present, and the
/// query and `limit` are always present.
pub proof fn lemma_search_fields_present_iff_set(p: SearchCompaniesParams)
    ensures
        p.param_keys().contains(ParamField::Query),
        p.param_keys().contains(ParamField::Limit),
        p.param_keys().contains(ParamField::State) <==> p.state is Some,
        p.param_keys().contains(ParamField::Sic) <==> p.sic is Some,
{
}

} // verus!

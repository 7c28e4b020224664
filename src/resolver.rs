//! Resolving the symbol file of a crash, strongest signal first.
//!
//! The resolver is a small state machine: it names a catalog lookup, the
//! caller performs it and hands back what it found, and the resolver names
//! the next lookup or the outcome. The PE identity (link timestamp and image
//! size) is tried first, when both halves are given; the composite identity
//! (version, guid, age) is the fallback.
use vstd::prelude::*;

use crate::api::ServiceError;
use crate::artifact::{Exe, Pdb};

verus! {

/// The identity attributes that a lookup gives; any may be missing.
#[derive(Clone, Debug)]
pub struct FindPdbParams {
    pub exe_version: Option<String>,
    pub exe_guid: Option<String>,
    pub exe_age: Option<i32>,
    pub exe_time_date_stamp: Option<u32>,
    pub exe_size_of_image: Option<u32>,
}

/// A catalog lookup of a symbol file.
#[derive(Debug)]
pub enum SymbolLookup {
    /// Exact match on both PE identity fields.
    ByPeIdentity { time_date_stamp: u32, size_of_image: u32 },
    /// Exact match on version, guid and age.
    ByComposite { exe_version: String, exe_guid: String, exe_age: i32 },
}

/// Which identity a symbol file was matched by.
#[derive(Clone, Copy, Debug, PartialEq, Eq, Structural)]
pub enum MatchTier {
    PeIdentity,
    Composite,
}

/// What the resolver asks for next.
#[derive(Debug)]
pub enum ResolveStep {
    Lookup(SymbolLookup),
    Matched(Pdb, MatchTier),
    NoMatch,
}

/// A lookup, with its text fields as character sequences.
pub enum LookupView {
    ByPeIdentity { time_date_stamp: u32, size_of_image: u32 },
    ByComposite { exe_version: Seq<char>, exe_guid: Seq<char>, exe_age: i32 },
}

pub enum StepView {
    Lookup(LookupView),
    Matched(Pdb, MatchTier),
    NoMatch,
}

impl View for SymbolLookup {
    type V = LookupView;

    open spec fn view(&self) -> LookupView {
        match self {
            SymbolLookup::ByPeIdentity { time_date_stamp, size_of_image } => LookupView::ByPeIdentity {
                time_date_stamp: *time_date_stamp,
                size_of_image: *size_of_image,
            },
            SymbolLookup::ByComposite { exe_version, exe_guid, exe_age } => LookupView::ByComposite {
                exe_version: exe_version@,
                exe_guid: exe_guid@,
                exe_age: *exe_age,
            },
        }
    }
}

impl View for ResolveStep {
    type V = StepView;

    open spec fn view(&self) -> StepView {
        match self {
            ResolveStep::Lookup(l) => StepView::Lookup(l@),
            ResolveStep::Matched(p, t) => StepView::Matched(*p, *t),
            ResolveStep::NoMatch => StepView::NoMatch,
        }
    }
}

/// The composite lookup of a query, when it gives guid and age; a missing
/// version is looked up as the empty one.
pub open spec fn composite_lookup(q: FindPdbParams) -> Option<LookupView> {
    match (q.exe_guid, q.exe_age) {
        (Some(g), Some(a)) => Some(
            LookupView::ByComposite {
                exe_version: match q.exe_version {
                    Some(v) => v@,
                    None => Seq::empty(),
                },
                exe_guid: g@,
                exe_age: a,
            },
        ),
        _ => None,
    }
}

/// The step after the PE-identity tier has been passed over or found nothing.
pub open spec fn fallback_step(q: FindPdbParams) -> StepView {
    match composite_lookup(q) {
        Some(l) => StepView::Lookup(l),
        None => StepView::NoMatch,
    }
}

pub open spec fn first_step_of(q: FindPdbParams) -> StepView {
    match (q.exe_time_date_stamp, q.exe_size_of_image) {
        (Some(t), Some(s)) => StepView::Lookup(
            LookupView::ByPeIdentity { time_date_stamp: t, size_of_image: s },
        ),
        _ => fallback_step(q),
    }
}

pub open spec fn tier_of(l: LookupView) -> MatchTier {
    match l {
        LookupView::ByPeIdentity { .. } => MatchTier::PeIdentity,
        LookupView::ByComposite { .. } => MatchTier::Composite,
    }
}

/// The step after lookup `l` found `found`.
pub open spec fn next_step_of(q: FindPdbParams, l: LookupView, found: Option<Pdb>) -> StepView {
    match found {
        Some(p) => StepView::Matched(p, tier_of(l)),
        None => match l {
            LookupView::ByPeIdentity { .. } => fallback_step(q),
            LookupView::ByComposite { .. } => StepView::NoMatch,
        },
    }
}

/// A symbol file satisfies a lookup.
pub open spec fn satisfies(p: Pdb, l: LookupView) -> bool {
    match l {
        LookupView::ByPeIdentity { time_date_stamp, size_of_image } => p.exe_time_date_stamp == Some(
            time_date_stamp,
        ) && p.exe_size_of_image == Some(size_of_image),
        LookupView::ByComposite { exe_version, exe_guid, exe_age } => p.exe_version@ == exe_version
            && p.exe_guid@ == exe_guid && p.exe_age == exe_age,
    }
}

/// `found` is a correct answer to lookup `l` in a catalog holding `rows`:
/// one of the rows that satisfy it (which one is left open), or none when
/// no row does.
pub open spec fn answers(rows: Seq<Pdb>, l: LookupView, found: Option<Pdb>) -> bool {
    match found {
        Some(p) => rows.contains(p) && satisfies(p, l),
        None => forall|i: int| 0 <= i < rows.len() ==> !satisfies(#[trigger] rows[i], l),
    }
}

/// With both PE identity fields given and a row that carries them, the PE
/// identity decides: whatever other row matches the composite identity, the
/// resolver returns a row of that PE identity, tagged as matched by it.
pub proof fn lemma_pe_identity_outranks_composite(
    q: FindPdbParams,
    rows: Seq<Pdb>,
    pe_row: int,
    composite_row: int,
    found: Option<Pdb>,
)
    requires
        q.exe_version is Some && q.exe_guid is Some && q.exe_age is Some,
        q.exe_time_date_stamp is Some && q.exe_size_of_image is Some,
        0 <= pe_row < rows.len(),
        0 <= composite_row < rows.len(),
        pe_row != composite_row,
        satisfies(rows[pe_row], first_step_of(q)->Lookup_0),
        composite_lookup(q) matches Some(c) && satisfies(rows[composite_row], c),
        answers(rows, first_step_of(q)->Lookup_0, found),
    ensures
        first_step_of(q) is Lookup,
        first_step_of(q)->Lookup_0 is ByPeIdentity,
        found matches Some(p) && next_step_of(q, first_step_of(q)->Lookup_0, found)
            == StepView::Matched(p, MatchTier::PeIdentity) && p.exe_time_date_stamp
            == q.exe_time_date_stamp && p.exe_size_of_image == q.exe_size_of_image,
{
}

/// Without the PE identity fields, a query with guid and age is answered by
/// the composite lookup alone: the row it finds, tagged as matched by the
/// composite identity, or no match when no row has that identity.
pub proof fn lemma_composite_fallback(q: FindPdbParams, rows: Seq<Pdb>, found: Option<Pdb>)
    requires
        q.exe_time_date_stamp is None && q.exe_size_of_image is None,
        q.exe_guid is Some && q.exe_age is Some,
        answers(rows, composite_lookup(q)->0, found),
    ensures
        first_step_of(q) == StepView::Lookup(composite_lookup(q)->0),
        composite_lookup(q)->0 is ByComposite,
        next_step_of(q, composite_lookup(q)->0, found) == match found {
            Some(p) => StepView::Matched(p, MatchTier::Composite),
            None => StepView::NoMatch,
        },
        found is Some <==> exists|i: int|
            0 <= i < rows.len() && satisfies(#[trigger] rows[i], composite_lookup(q)->0),
{
    if let Some(p) = found {
        let i = choose|i: int| 0 <= i < rows.len() && rows[i] == p;
        assert(satisfies(rows[i], composite_lookup(q)->0));
    }
}

fn clone_or_empty(s: &Option<String>) -> (r: String)
    ensures
        r@ == match s {
            Some(v) => v@,
            None => Seq::empty(),
        },
{
    match s {
        Some(v) => v.clone(),
        None => String::new(),
    }
}

impl FindPdbParams {
    fn fallback(&self) -> (r: ResolveStep)
        ensures
            r@ == fallback_step(*self),
    {
        match (&self.exe_guid, self.exe_age) {
            (Some(g), Some(a)) => ResolveStep::Lookup(
                SymbolLookup::ByComposite {
                    exe_version: clone_or_empty(&self.exe_version),
                    exe_guid: g.clone(),
                    exe_age: a,
                },
            ),
            _ => ResolveStep::NoMatch,
        }
    }

    /// The first step: the PE-identity lookup when both its fields are
    /// given, else the composite lookup when guid and age are, else no match.
    pub fn first_step(&self) -> (r: ResolveStep)
        ensures
            r@ == first_step_of(*self),
    {
        match (self.exe_time_date_stamp, self.exe_size_of_image) {
            (Some(t), Some(s)) => ResolveStep::Lookup(
                SymbolLookup::ByPeIdentity { time_date_stamp: t, size_of_image: s },
            ),
            _ => self.fallback(),
        }
    }

    /// The step after `lookup` found `found`: the match, tagged by the
    /// lookup's tier; or, after a PE-identity lookup that found nothing, the
    /// composite lookup; or no match.
    pub fn next_step(&self, lookup: &SymbolLookup, found: Option<Pdb>) -> (r: ResolveStep)
        ensures
            r@ == next_step_of(*self, lookup@, found),
    {
        match found {
            Some(p) => ResolveStep::Matched(
                p,
                match lookup {
                    SymbolLookup::ByPeIdentity { .. } => MatchTier::PeIdentity,
                    SymbolLookup::ByComposite { .. } => MatchTier::Composite,
                },
            ),
            None => match lookup {
                SymbolLookup::ByPeIdentity { .. } => self.fallback(),
                SymbolLookup::ByComposite { .. } => ResolveStep::NoMatch,
            },
        }
    }
}

pub open spec fn tier_message(t: MatchTier) -> Seq<char> {
    match t {
        MatchTier::PeIdentity => "Matching PDB found (by PE info)"@,
        MatchTier::Composite => "Matching PDB found (by GUID+Age)"@,
    }
}

impl MatchTier {
    /// How a match by this tier is reported.
    pub fn message(&self) -> (r: String)
        ensures
            r@ == tier_message(*self),
    {
        match self {
            MatchTier::PeIdentity => String::from_str("Matching PDB found (by PE info)"),
            MatchTier::Composite => String::from_str("Matching PDB found (by GUID+Age)"),
        }
    }
}

/// The error that reports a symbol lookup without a match.
pub fn no_symbol_match() -> (r: ServiceError)
    ensures
        r matches ServiceError::NotFound { detail } && detail@ == "No matching PDB found"@,
{
    ServiceError::NotFound { detail: String::from_str("No matching PDB found") }
}

/// The image that a lookup by guid found, or the error that reports none.
pub fn resolve_image(found: Option<Exe>) -> (r: Result<Exe, ServiceError>)
    ensures
        found matches Some(e) ==> r == Ok::<Exe, ServiceError>(e),
        found is None ==> (r matches Err(ServiceError::NotFound { detail }) && detail@
            == "No matching EXE found for the given GUID"@),
{
    match found {
        Some(e) => Ok(e),
        None => Err(
            ServiceError::NotFound {
                detail: String::from_str("No matching EXE found for the given GUID"),
            },
        ),
    }
}

} // verus!

//! The draw: one catalog entry per participant, each drawn independently
//! and uniformly from the whole catalog by a generator seeded by the caller.

use crate::menu::Menu;
use crate::store::LoadError;
use crate::draw::{draw_index, drawn_index, seeded};
use vstd::prelude::*;

verus! {

/// Someone present where the draw is asked for.
#[derive(Debug, PartialEq, Eq)]
pub struct Participant {
    pub id: u64,
    pub display_name: String,
    pub automated: bool,
}

impl Participant {
    /// A copy of the participant, field by field.
    pub fn duplicate(&self) -> (r: Participant)
        ensures
            r == *self,
    {
        Participant { id: self.id, display_name: self.display_name.clone(), automated: self.automated }
    }
}

/// The entry handed to one participant.
#[derive(Debug, PartialEq, Eq)]
pub struct Assignment {
    pub participant: Participant,
    pub entry: Menu,
}

/// Why no draw could be made.
#[derive(Debug, PartialEq, Eq)]
pub enum AssignError {
    /// The catalog has no entry to hand out.
    EmptyCatalog,
}

/// The text sent when the stored catalog cannot be loaded.
pub const LOAD_FAILURE: &'static str = "The menu catalog could not be loaded.";

/// The text sent when the stored catalog has no entry.
pub const EMPTY_FAILURE: &'static str = "The menu catalog is empty.";

/// The participants that are not automated, in order.
pub open spec fn humans(ps: Seq<Participant>) -> Seq<Participant>
    decreases ps.len(),
{
    if ps.len() == 0 {
        Seq::empty()
    } else if ps.last().automated {
        humans(ps.drop_last())
    } else {
        humans(ps.drop_last()).push(ps.last())
    }
}

/// `r` gives, in order, each participant the catalog entry that `picks`
/// names for them.
pub open spec fn assigned_by(r: Seq<Assignment>, catalog: Seq<Menu>, ps: Seq<Participant>, picks: Seq<usize>) -> bool {
    &&& r.len() == ps.len()
    &&& forall|i: int| 0 <= i < r.len() ==> (#[trigger] r[i]).participant == ps[i] && r[i].entry == catalog[picks[i] as int]
}

/// `m` copies of the bound `n`.
pub open spec fn same_bound(n: usize, m: nat) -> Seq<usize> {
    Seq::new(m, |k: int| n)
}

/// The first `m` indices below `n` that the generator seeded with `seed`
/// draws.
pub open spec fn draws(seed: u64, n: usize, m: nat) -> Seq<usize> {
    Seq::new(m, |i: int| drawn_index(seed, same_bound(n, (i + 1) as nat)))
}

/// `r` gives, in order, each participant one entry of the catalog.
pub open spec fn drawn_from(r: Seq<Assignment>, catalog: Seq<Menu>, ps: Seq<Participant>) -> bool {
    &&& r.len() == ps.len()
    &&& forall|i: int| 0 <= i < r.len() ==> (#[trigger] r[i]).participant == ps[i]
        && exists|j: int| 0 <= j < catalog.len() && r[i].entry == catalog[j]
}

/// Two draws for the same catalog and participants with the same seed are
/// the same assignment.
pub proof fn lemma_same_seed_same_draw(
    v1: Seq<Assignment>,
    v2: Seq<Assignment>,
    catalog: Seq<Menu>,
    ps: Seq<Participant>,
    seed: u64,
)
    requires
        assigned_by(v1, catalog, ps, draws(seed, catalog.len() as usize, ps.len())),
        assigned_by(v2, catalog, ps, draws(seed, catalog.len() as usize, ps.len())),
    ensures
        v1 == v2,
{
    assert forall|i: int| 0 <= i < v1.len() implies v1[i] == v2[i] by {
        assert(v1[i].participant == v2[i].participant && v1[i].entry == v2[i].entry);
    }
    assert(v1 =~= v2);
}

/// One line of the reply: the participant's display name and the dish.
pub open spec fn line(a: Assignment) -> Seq<char> {
    a.participant.display_name@ + ": "@ + a.entry.name@
}

/// The lines of the assignments, joined by line feeds.
pub open spec fn rendered(s: Seq<Assignment>) -> Seq<char>
    decreases s.len(),
{
    if s.len() == 0 {
        Seq::empty()
    } else if s.len() == 1 {
        line(s[0])
    } else {
        rendered(s.drop_last()) + "\n"@ + line(s.last())
    }
}

/// The participants that are not automated, in their order.
pub fn eligible(members: &Vec<Participant>) -> (r: Vec<Participant>)
    ensures
        r@ == humans(members@),
{
    let mut out: Vec<Participant> = Vec::new();
    let mut i: usize = 0;
    while i < members.len()
        invariant
            i <= members@.len(),
            out@ == humans(members@.subrange(0, i as int)),
        decreases members@.len() - i,
    {
        assert(members@.subrange(0, i + 1).drop_last() =~= members@.subrange(0, i as int));
        if !members[i].automated {
            out.push(members[i].duplicate());
        }
        i = i + 1;
    }
    assert(members@.subrange(0, i as int) =~= members@);
    out
}

/// Gives each participant, in order, the catalog entry at the index that
/// `picks` holds for them.
pub fn assign_with(catalog: &Vec<Menu>, participants: &Vec<Participant>, picks: &Vec<usize>) -> (r: Vec<Assignment>)
    requires
        picks@.len() == participants@.len(),
        forall|i: int| 0 <= i < picks@.len() ==> #[trigger] picks@[i] < catalog@.len(),
    ensures
        assigned_by(r@, catalog@, participants@, picks@),
{
    let mut out: Vec<Assignment> = Vec::new();
    let mut i: usize = 0;
    while i < participants.len()
        invariant
            i <= participants@.len(),
            picks@.len() == participants@.len(),
            forall|k: int| 0 <= k < picks@.len() ==> #[trigger] picks@[k] < catalog@.len(),
            assigned_by(out@, catalog@, participants@.subrange(0, i as int), picks@),
        decreases participants@.len() - i,
    {
        let k = picks[i];
        out.push(Assignment { participant: participants[i].duplicate(), entry: catalog[k].duplicate() });
        i = i + 1;
    }
    assert(participants@.subrange(0, i as int) =~= participants@);
    out
}

/// Draws one catalog entry for each participant, in order, each uniformly
/// and independently from the generator seeded with `seed`; the same seed
/// gives the same draws. Fails on an empty catalog.
pub fn assign(catalog: &Vec<Menu>, participants: &Vec<Participant>, seed: u64) -> (r: Result<Vec<Assignment>, AssignError>)
    ensures
        r is Err <==> catalog@.len() == 0,
        r matches Ok(v) ==> drawn_from(v@, catalog@, participants@),
        r matches Ok(v) ==> assigned_by(v@, catalog@, participants@, draws(seed, catalog@.len() as usize, participants@.len())),
{
    let n = catalog.len();
    if n == 0 {
        return Err(AssignError::EmptyCatalog);
    }
    let mut rng = seeded(seed);
    let mut picks: Vec<usize> = Vec::new();
    let mut i: usize = 0;
    assert(picks@ =~= draws(seed, n, 0));
    assert(same_bound(n, 0) =~= Seq::<usize>::empty());
    while i < participants.len()
        invariant
            n == catalog@.len(),
            n > 0,
            i <= participants@.len(),
            picks@.len() == i,
            rng@ == (seed, same_bound(n, i as nat)),
            picks@ == draws(seed, n, i as nat),
            forall|k: int| 0 <= k < picks@.len() ==> #[trigger] picks@[k] < n,
        decreases participants@.len() - i,
    {
        let k = draw_index(&mut rng, n);
        assert(same_bound(n, i as nat).push(n) =~= same_bound(n, (i + 1) as nat));
        picks.push(k);
        assert(picks@ =~= draws(seed, n, (i + 1) as nat));
        i = i + 1;
    }
    let v = assign_with(catalog, participants, &picks);
    assert forall|i: int| 0 <= i < v@.len() implies (#[trigger] v@[i]).participant == participants@[i]
        && exists|j: int| 0 <= j < catalog@.len() && v@[i].entry == catalog@[j] by {
        assert(v@[i].entry == catalog@[picks@[i] as int]);
    }
    Ok(v)
}

/// The reply text: the lines of the assignments joined by line feeds.
pub fn render(assignments: &Vec<Assignment>) -> (r: String)
    ensures
        r@ == rendered(assignments@),
{
    let mut out = String::new();
    let mut i: usize = 0;
    while i < assignments.len()
        invariant
            i <= assignments@.len(),
            out@ == rendered(assignments@.subrange(0, i as int)),
        decreases assignments@.len() - i,
    {
        let a = &assignments[i];
        let ghost prev = out@;
        assert(assignments@.subrange(0, i + 1).drop_last() =~= assignments@.subrange(0, i as int));
        if i > 0 {
            out.append("\n");
        }
        out.append(a.participant.display_name.as_str());
        out.append(": ");
        out.append(a.entry.name.as_str());
        if i == 0 {
            assert(out@ =~= rendered(assignments@.subrange(0, 1)));
        } else {
            assert(out@ =~= rendered(assignments@.subrange(0, i + 1)));
        }
        i = i + 1;
    }
    assert(assignments@.subrange(0, i as int) =~= assignments@);
    out
}

/// Answers a draw request: a failure text when the catalog could not be
/// loaded or is empty; else one line per non-automated member with the
/// entry drawn for them.
pub fn reply(loaded: &Result<Vec<Menu>, LoadError>, members: &Vec<Participant>, seed: u64) -> (r: String)
    ensures
        loaded is Err ==> r@ == LOAD_FAILURE@,
        loaded matches Ok(c) && c@.len() == 0 ==> r@ == EMPTY_FAILURE@,
        match loaded {
            Ok(c) => c@.len() > 0 ==> exists|v: Seq<Assignment>|
                assigned_by(v, c@, humans(members@), draws(seed, c@.len() as usize, humans(members@).len()))
                && drawn_from(v, c@, humans(members@)) && r@ == rendered(v),
            Err(_) => true,
        },
{
    match loaded {
        Err(_) => String::from_str(LOAD_FAILURE),
        Ok(catalog) => {
            let people = eligible(members);
            match assign(catalog, &people, seed) {
                Err(_) => String::from_str(EMPTY_FAILURE),
                Ok(v) => {
                    let r = render(&v);
                    assert(assigned_by(v@, catalog@, humans(members@), draws(seed, catalog@.len() as usize, humans(members@).len()))
                        && drawn_from(v@, catalog@, humans(members@)) && r@ == rendered(v@));
                    r
                },
            }
        },
    }
}

} // verus!

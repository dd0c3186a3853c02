use vstd::prelude::*;
use vstd::string::*;

verus! {

/// Identifies one live connection for the lifetime of the process.
#[derive(Clone, Copy, Debug, PartialEq, Eq, Hash, Structural)]
pub struct ConnectionId(pub u64);

/// The human-speakable code that names a session.
#[derive(Debug)]
pub struct SuspectId(pub String);

impl View for SuspectId {
    type V = Seq<char>;

    open spec fn view(&self) -> Seq<char> {
        self.0@
    }
}

impl Clone for SuspectId {
    fn clone(&self) -> (r: SuspectId)
        ensures
            r@ == self@,
    {
        SuspectId(self.0.clone())
    }
}

/// Number of characters in a session code.
pub const SUSPECT_ID_LEN: usize = 4;

/// Number of letters a session code is drawn from.
pub const SUSPECT_ID_ALPHABET_LEN: usize = 20;

/// Consonants only: no vowels and no letters that are easily confused when spoken or typed.
pub const SUSPECT_ID_LETTERS: &'static str = "BCDFGHJKLMNPQRSTVWXZ";

pub open spec fn suspect_id_alphabet() -> Seq<char> {
    seq![
        'B', 'C', 'D', 'F', 'G', 'H', 'J', 'K', 'L', 'M',
        'N', 'P', 'Q', 'R', 'S', 'T', 'V', 'W', 'X', 'Z',
    ]
}

/// A well-formed session code: four letters of the alphabet.
pub open spec fn is_suspect_code(s: Seq<char>) -> bool {
    &&& s.len() == SUSPECT_ID_LEN
    &&& forall|i: int| 0 <= i < s.len() ==> #[trigger] suspect_id_alphabet().contains(s[i])
}

/// The code spelled by a sequence of letter positions.
pub open spec fn code_of_draws(draws: Seq<usize>) -> Seq<char> {
    draws.map_values(|d: usize| suspect_id_alphabet()[d as int])
}

/// Relies on rand's `Rng::gen_range` over the thread-local generator:
/// a value drawn uniformly from `0..bound`, which panics only on an empty range.
#[verifier::external_body]
fn random_below(bound: usize) -> (r: usize)
    requires
        bound > 0,
    ensures
        r < bound,
{
    rand::Rng::gen_range(&mut rand::thread_rng(), 0..bound)
}

/// Spells out the session code for the given letter positions.
pub fn suspect_id_from_draws(draws: &Vec<usize>) -> (r: SuspectId)
    requires
        forall|i: int| 0 <= i < draws@.len() ==> draws@[i] < SUSPECT_ID_ALPHABET_LEN,
    ensures
        r@ == code_of_draws(draws@),
{
    proof {
        reveal_strlit("BCDFGHJKLMNPQRSTVWXZ");
        assert(SUSPECT_ID_LETTERS@ =~= suspect_id_alphabet());
    }
    let mut code = String::new();
    let mut i: usize = 0;
    while i < draws.len()
        invariant
            i <= draws@.len(),
            SUSPECT_ID_LETTERS@ == suspect_id_alphabet(),
            forall|j: int| 0 <= j < draws@.len() ==> draws@[j] < SUSPECT_ID_ALPHABET_LEN,
            code@ =~= code_of_draws(draws@.subrange(0, i as int)),
        decreases draws@.len() - i,
    {
        let d = draws[i];
        let letter = SUSPECT_ID_LETTERS.substring_char(d, d + 1);
        code.append(letter);
        i = i + 1;
        assert(code_of_draws(draws@.subrange(0, i as int)) =~= code_of_draws(
            draws@.subrange(0, i - 1 as int),
        ).push(suspect_id_alphabet()[d as int]));
    }
    assert(draws@.subrange(0, draws@.len() as int) =~= draws@);
    SuspectId(code)
}

/// Draws a fresh candidate code: each letter independently and uniformly from the alphabet.
pub fn random_suspect_id() -> (r: SuspectId)
    ensures
        is_suspect_code(r@),
{
    let mut draws: Vec<usize> = Vec::new();
    while draws.len() < SUSPECT_ID_LEN
        invariant
            draws@.len() <= SUSPECT_ID_LEN,
            forall|j: int| 0 <= j < draws@.len() ==> draws@[j] < SUSPECT_ID_ALPHABET_LEN,
        decreases SUSPECT_ID_LEN - draws@.len(),
    {
        let d = random_below(SUSPECT_ID_ALPHABET_LEN);
        draws.push(d);
    }
    let r = suspect_id_from_draws(&draws);
    assert forall|i: int| 0 <= i < r@.len() implies #[trigger] suspect_id_alphabet().contains(
        r@[i],
    ) by {
        assert(suspect_id_alphabet()[draws@[i] as int] == r@[i]);
    }
    r
}

} // verus!

//! The generation engine: which characters a password may hold, how a
//! candidate is drawn, and when a candidate is accepted.

use rand::Rng;
use vstd::prelude::*;
use vstd::string::*;
use crate::charset::{
    drawn_from, has_any_of, has_char_of, CONVENIENT_LETTERS_CHARSET, CONVENIENT_NUMBERS_CHARSET,
    LETTERS_CHARSET, NUMBERS_CHARSET, SIMP_SYMB_CHARSET, SPEC_SYMB_CHARSET, U_LETTERS_CHARSET,
};
use crate::error::GenError;
use crate::generator::{Generator, GeneratorView};
use crate::length::{parse_length, parsed_length};
use crate::text::{chars_of, string_of};

verus! {

/// How many candidates are drawn for one password before the search is
/// given up.
pub const ATTEMPT_LIMIT: u32 = 10000;

/// Trusted: makes `rand::rngs::ThreadRng`, the handle to the random number
/// generator of the current thread, known as a type. Nothing is known of
/// what a value of it holds.
#[verifier::external_type_specification]
#[verifier::external_body]
pub struct ExThreadRng(rand::rngs::ThreadRng);

/// Trusted: `rand::thread_rng` hands out a handle to the random number
/// generator of the current thread, which the system seeds on first use (it
/// panics only where the system cannot provide a seed). Nothing is claimed
/// of the handle.
pub assume_specification[ rand::thread_rng ]() -> (rng: rand::rngs::ThreadRng)
;

/// A random index into a collection of `bound` items.
///
/// Trusted: the body is a call of `rand::Rng::gen_range` on the half-open
/// range from 0 to `bound`. Of its arguments, the call panics on the empty
/// range alone, hence the precondition, and what it returns lies inside the
/// range. Which value it returns is left open: two calls may differ.
///
/// Two things are no matter of the arguments and are not claimed. The
/// generator behind the handle takes a new seed from the system after
/// every 64 KiB that it has put out, and panics where the system gives
/// none. And the value is found by drawing again until one falls inside a
/// zone without bias: a loop that ends with probability 1, not with
/// certainty.
#[verifier::external_body]
fn random_below(rng: &mut rand::rngs::ThreadRng, bound: usize) -> (index: usize)
    requires
        bound > 0,
    ensures
        index < bound,
{
    rng.gen_range(0..bound)
}

/// The characters of a class that is asked for; nothing for one that is
/// not.
pub open spec fn class_part(on: bool, charset: Seq<char>) -> Seq<char> {
    if on {
        charset
    } else {
        Seq::empty()
    }
}

impl GeneratorView {
    /// The length that the form asks for: the number that the length text
    /// writes, if it lies between the shortest and the longest length
    /// accepted.
    pub open spec fn length(self) -> Option<u32> {
        match parsed_length(self.pwd_len) {
            Some(n) => if self.min_pwd_len <= n <= self.max_pwd_len {
                Some(n)
            } else {
                None
            },
            None => None,
        }
    }

    /// Whether a password must hold a lowercase letter.
    pub open spec fn wants_lowercase(self) -> bool {
        self.letters || self.convenience_criterion
    }

    /// Whether a password must hold an uppercase letter.
    pub open spec fn wants_uppercase(self) -> bool {
        self.u_letters || self.convenience_criterion
    }

    /// Whether a password must hold a digit.
    pub open spec fn wants_digit(self) -> bool {
        self.numbs || self.convenience_criterion
    }

    /// Whether a password must hold a symbol.
    pub open spec fn wants_symbol(self) -> bool {
        self.spec_symbs || self.convenience_criterion
    }

    /// How many classes a password must hold a character of.
    pub open spec fn required_classes(self) -> nat {
        (if self.wants_lowercase() {
            1nat
        } else {
            0nat
        }) + (if self.wants_uppercase() {
            1nat
        } else {
            0nat
        }) + (if self.wants_digit() {
            1nat
        } else {
            0nat
        }) + (if self.wants_symbol() {
            1nat
        } else {
            0nat
        })
    }

    /// The characters that a password may hold. With the preset on: the
    /// letters and digits that cannot be mistaken, and the symbols that are
    /// easy to type. With the preset off: the classes that are asked for,
    /// one after the other.
    pub open spec fn alphabet(self) -> Seq<char> {
        if self.convenience_criterion {
            CONVENIENT_LETTERS_CHARSET@ + CONVENIENT_NUMBERS_CHARSET@ + SIMP_SYMB_CHARSET@
        } else {
            class_part(self.letters, LETTERS_CHARSET@) + class_part(
                self.u_letters,
                U_LETTERS_CHARSET@,
            ) + class_part(self.numbs, NUMBERS_CHARSET@) + class_part(
                self.spec_symbs,
                SPEC_SYMB_CHARSET@,
            )
        }
    }

    /// Whether a password of `n` characters is shaped: with the preset on
    /// and at least two characters, the first one is a letter and the last
    /// one a symbol.
    pub open spec fn shaped(self, n: nat) -> bool {
        self.convenience_criterion && n >= 2
    }

    /// The characters that may stand at place `i` of a password of `n`
    /// characters.
    pub open spec fn pool(self, n: nat, i: int) -> Seq<char> {
        if self.shaped(n) && i == 0 {
            CONVENIENT_LETTERS_CHARSET@
        } else if self.shaped(n) && i == n - 1 {
            SIMP_SYMB_CHARSET@
        } else {
            self.alphabet()
        }
    }

    /// Whether `pwd` can come out of one drawing for a password of `n`
    /// characters: it has `n` characters, each from the pool of its place.
    pub open spec fn is_candidate(self, n: nat, pwd: Seq<char>) -> bool {
        &&& pwd.len() == n
        &&& forall|i: int| 0 <= i < n ==> self.pool(n, i).contains(#[trigger] pwd[i])
    }

    /// Whether `draws` can steer one drawing for a password of `n`
    /// characters: one draw for each place, each an index into the pool of
    /// its place.
    pub open spec fn draws_fit(self, n: nat, draws: Seq<usize>) -> bool {
        &&& draws.len() == n
        &&& forall|i: int| 0 <= i < n ==> (#[trigger] draws[i]) < self.pool(n, i).len()
    }

    /// The candidate that `draws` select: at each place the character that
    /// the draw picks from the pool of the place.
    pub open spec fn candidate(self, n: nat, draws: Seq<usize>) -> Seq<char> {
        Seq::new(n, |i: int| self.pool(n, i)[draws[i] as int])
    }

    /// Why no password can be generated for the form as it stands, if that
    /// is so: the length is not valid; or there is nothing to draw from; or
    /// the password would be too short to hold a character of every class
    /// that it must hold one of.
    pub open spec fn refusal(self) -> Option<GenError> {
        match self.length() {
            None => Some(GenError::InvalidLength),
            Some(n) => if self.alphabet().len() == 0 {
                Some(GenError::EmptyAlphabet)
            } else if n < self.required_classes() {
                Some(GenError::UnsatisfiableConstraint)
            } else {
                None
            },
        }
    }

    /// Whether no drawing can fail: every candidate of the length asked
    /// for complies, so that the first one drawn is accepted.
    pub open spec fn every_candidate_complies(self) -> bool {
        &&& self.length() matches Some(n)
        &&& forall|pwd: Seq<char>| #[trigger] self.is_candidate(n as nat, pwd) ==> self.complies(pwd)
    }

    /// Whether `pwd` holds a character of every class that a password must
    /// hold one of.
    pub open spec fn complies(self, pwd: Seq<char>) -> bool {
        &&& self.wants_lowercase() ==> has_any_of(pwd, LETTERS_CHARSET@)
        &&& self.wants_uppercase() ==> has_any_of(pwd, U_LETTERS_CHARSET@)
        &&& self.wants_digit() ==> has_any_of(pwd, NUMBERS_CHARSET@)
        &&& self.wants_symbol() ==> has_any_of(pwd, SPEC_SYMB_CHARSET@)
    }
}

/// Every pool is part of the alphabet.
pub proof fn lemma_pools_within_alphabet(form: GeneratorView, n: nat, i: int)
    ensures
        forall|c: char| form.pool(n, i).contains(c) ==> form.alphabet().contains(c),
{
    let letters = CONVENIENT_LETTERS_CHARSET@;
    let numbers = CONVENIENT_NUMBERS_CHARSET@;
    let symbols = SIMP_SYMB_CHARSET@;
    assert forall|c: char| form.pool(n, i).contains(c) implies form.alphabet().contains(c) by {
        if form.shaped(n) && i == 0 {
            let k = choose|k: int| 0 <= k < letters.len() && letters[k] == c;
            assert(form.alphabet()[k] == c);
        } else if form.shaped(n) && i == n - 1 {
            let k = choose|k: int| 0 <= k < symbols.len() && symbols[k] == c;
            assert(form.alphabet()[letters.len() + numbers.len() + k] == c);
        }
    }
}

/// What fitting draws select is a candidate, made of characters of the
/// alphabet.
pub proof fn lemma_draws_select_candidate(form: GeneratorView, n: nat, draws: Seq<usize>)
    requires
        form.draws_fit(n, draws),
    ensures
        form.is_candidate(n, form.candidate(n, draws)),
        drawn_from(form.candidate(n, draws), form.alphabet()),
{
    let pwd = form.candidate(n, draws);
    assert forall|i: int| 0 <= i < n implies form.pool(n, i).contains(#[trigger] pwd[i]) by {
        assert(draws[i] < form.pool(n, i).len());
        assert(form.pool(n, i)[draws[i] as int] == pwd[i]);
    }
    lemma_candidate_within_alphabet(form, n, pwd);
}

/// A candidate is made of characters of the alphabet.
pub proof fn lemma_candidate_within_alphabet(form: GeneratorView, n: nat, pwd: Seq<char>)
    requires
        form.is_candidate(n, pwd),
    ensures
        drawn_from(pwd, form.alphabet()),
{
    assert forall|i: int| 0 <= i < pwd.len() implies form.alphabet().contains(
        #[trigger] pwd[i],
    ) by {
        lemma_pools_within_alphabet(form, n, i);
        assert(form.pool(n, i).contains(pwd[i]));
    }
}

/// Appends the characters of `charset` to `out`.
fn append_chars(out: &mut Vec<char>, charset: &str)
    ensures
        final(out)@ == old(out)@ + charset@,
{
    let mut chars = chars_of(charset);
    out.append(&mut chars);
}

/// The three pools that a drawing takes its characters from.
struct Pools {
    first: Vec<char>,
    last: Vec<char>,
    alphabet: Vec<char>,
}

impl Pools {
    /// Whether these are the pools of `form`.
    spec fn of(self, form: GeneratorView) -> bool {
        &&& self.first@ == CONVENIENT_LETTERS_CHARSET@
        &&& self.last@ == SIMP_SYMB_CHARSET@
        &&& self.alphabet@ == form.alphabet()
    }

    /// The pool for place `i` of a password of `n` characters.
    fn at(&self, shaped: bool, n: usize, i: usize) -> (r: &Vec<char>)
        requires
            i < n,
        ensures
            r == if shaped && i == 0 {
                self.first
            } else if shaped && i == n - 1 {
                self.last
            } else {
                self.alphabet
            },
    {
        if shaped && i == 0 {
            &self.first
        } else if shaped && i == n - 1 {
            &self.last
        } else {
            &self.alphabet
        }
    }
}

impl Generator {
    /// Reads the length that the form asks for.
    pub fn validate_length(&self) -> (r: Result<u32, GenError>)
        ensures
            r == match self@.length() {
                Some(n) => Ok::<u32, GenError>(n),
                None => Err::<u32, GenError>(GenError::InvalidLength),
            },
    {
        match parse_length(self.pwd_len.as_str()) {
            Some(n) => {
                if n < self.min_pwd_len || n > self.max_pwd_len {
                    Err(GenError::InvalidLength)
                } else {
                    Ok(n)
                }
            },
            None => Err(GenError::InvalidLength),
        }
    }

    /// Whether the length field holds a length that is accepted.
    pub fn is_valid_user_input(&self) -> (r: bool)
        ensures
            r == self@.length().is_some(),
    {
        self.validate_length().is_ok()
    }

    /// Puts together the characters that a password may hold.
    pub fn assemble_charset(&self) -> (r: Vec<char>)
        ensures
            r@ == self@.alphabet(),
    {
        let mut out: Vec<char> = Vec::new();
        if self.convenience_criterion {
            append_chars(&mut out, CONVENIENT_LETTERS_CHARSET);
            append_chars(&mut out, CONVENIENT_NUMBERS_CHARSET);
            append_chars(&mut out, SIMP_SYMB_CHARSET);
        } else {
            if self.letters {
                append_chars(&mut out, LETTERS_CHARSET);
            }
            if self.u_letters {
                append_chars(&mut out, U_LETTERS_CHARSET);
            }
            if self.numbs {
                append_chars(&mut out, NUMBERS_CHARSET);
            }
            if self.spec_symbs {
                append_chars(&mut out, SPEC_SYMB_CHARSET);
            }
        }
        out
    }

    /// The pools of the form.
    fn pools(&self) -> (r: Pools)
        ensures
            r.of(self@),
    {
        Pools {
            first: chars_of(CONVENIENT_LETTERS_CHARSET),
            last: chars_of(SIMP_SYMB_CHARSET),
            alphabet: self.assemble_charset(),
        }
    }

    /// Draws one random index for each place of a password of `n`
    /// characters.
    fn draw(&self, pools: &Pools, n: usize, rng: &mut rand::rngs::ThreadRng) -> (draws: Vec<usize>)
        requires
            pools.of(self@),
            self@.alphabet().len() > 0,
        ensures
            self@.draws_fit(n as nat, draws@),
    {
        proof {
            reveal_strlit("ABCDEFGHJKMNPQRSTUVWXYZabcdefghjkmnpqrstuvwxyz");
            reveal_strlit("*&%$#@!");
        }
        let shaped = self.convenience_criterion && n >= 2;
        let mut draws: Vec<usize> = Vec::new();
        let mut i: usize = 0;
        while i < n
            invariant
                i <= n,
                pools.of(self@),
                shaped == self@.shaped(n as nat),
                self@.alphabet().len() > 0,
                CONVENIENT_LETTERS_CHARSET@.len() > 0,
                SIMP_SYMB_CHARSET@.len() > 0,
                draws.len() == i,
                forall|j: int|
                    0 <= j < i ==> (#[trigger] draws@[j]) < self@.pool(n as nat, j).len(),
            decreases n - i,
        {
            let pool = pools.at(shaped, n, i);
            let index = random_below(rng, pool.len());
            draws.push(index);
            i += 1;
        }
        draws
    }

    /// Picks from the pools the characters that `draws` select.
    fn select(&self, pools: &Pools, draws: &Vec<usize>) -> (r: Vec<char>)
        requires
            pools.of(self@),
            self@.draws_fit(draws.len() as nat, draws@),
        ensures
            r@ == self@.candidate(draws.len() as nat, draws@),
    {
        let n = draws.len();
        let shaped = self.convenience_criterion && n >= 2;
        let mut chars: Vec<char> = Vec::new();
        let mut i: usize = 0;
        while i < n
            invariant
                i <= n,
                n == draws.len(),
                pools.of(self@),
                shaped == self@.shaped(n as nat),
                self@.draws_fit(n as nat, draws@),
                chars.len() == i,
                forall|j: int|
                    0 <= j < i ==> (#[trigger] chars@[j]) == self@.pool(n as nat, j)[draws@[j] as int],
            decreases n - i,
        {
            let pool = pools.at(shaped, n, i);
            assert(draws@[i as int] < self@.pool(n as nat, i as int).len());
            chars.push(pool[draws[i]]);
            i += 1;
        }
        assert(chars@ =~= self@.candidate(n as nat, draws@));
        chars
    }

    /// Whether `draws` fit the pools: each is an index into the pool of its
    /// place.
    fn fits(&self, pools: &Pools, draws: &Vec<usize>) -> (r: bool)
        requires
            pools.of(self@),
        ensures
            r == self@.draws_fit(draws.len() as nat, draws@),
    {
        let n = draws.len();
        let shaped = self.convenience_criterion && n >= 2;
        let mut i: usize = 0;
        while i < n
            invariant
                i <= n,
                n == draws.len(),
                pools.of(self@),
                shaped == self@.shaped(n as nat),
                forall|j: int|
                    0 <= j < i ==> (#[trigger] draws@[j]) < self@.pool(n as nat, j).len(),
            decreases n - i,
        {
            let pool = pools.at(shaped, n, i);
            if draws[i] >= pool.len() {
                return false;
            }
            i += 1;
        }
        true
    }

    /// The password that `draws` select, one draw for each of its places:
    /// at each place the character that the draw picks, as an index, from
    /// the pool of the place. There is none where a draw is no index into
    /// its pool.
    pub fn candidate_from_draws(&self, draws: &Vec<usize>) -> (r: Option<String>)
        ensures
            r.is_some() == self@.draws_fit(draws.len() as nat, draws@),
            r matches Some(pwd) ==> pwd@ == self@.candidate(draws.len() as nat, draws@),
    {
        let pools = self.pools();
        if self.fits(&pools, draws) {
            let chars = self.select(&pools, draws);
            Some(string_of(&chars))
        } else {
            None
        }
    }

    /// Draws one candidate at random: a password of the length asked for,
    /// each character from the pool of its place. The candidate need not
    /// hold every class that is asked for.
    ///
    /// There is a candidate whenever the length is valid and there is
    /// something to draw from; which one is a matter of chance.
    pub fn generate_pass(&self) -> (r: Result<String, GenError>)
        ensures
            self@.length().is_none() ==> r == Err::<String, GenError>(GenError::InvalidLength),
            self@.length().is_some() && self@.alphabet().len() == 0 ==> r == Err::<
                String,
                GenError,
            >(GenError::EmptyAlphabet),
            self@.length().is_some() && self@.alphabet().len() > 0 ==> r.is_ok(),
            r matches Ok(pwd) ==> {
                &&& self@.length() matches Some(n)
                &&& self@.is_candidate(n as nat, pwd@)
                &&& drawn_from(pwd@, self@.alphabet())
            },
    {
        let n = match self.validate_length() {
            Ok(n) => n,
            Err(e) => {
                return Err(e);
            },
        };
        let pools = self.pools();
        if pools.alphabet.len() == 0 {
            return Err(GenError::EmptyAlphabet);
        }
        let mut rng = rand::thread_rng();
        let draws = self.draw(&pools, n as usize, &mut rng);
        let chars = self.select(&pools, &draws);
        proof {
            lemma_draws_select_candidate(self@, n as nat, draws@);
        }
        Ok(string_of(&chars))
    }

    /// Whether `chars` hold a character of every class that a password must
    /// hold one of.
    fn accepts(&self, chars: &Vec<char>) -> (r: bool)
        ensures
            r == self@.complies(chars@),
    {
        if self.letters || self.convenience_criterion {
            if !has_char_of(chars, LETTERS_CHARSET) {
                return false;
            }
        }
        if self.u_letters || self.convenience_criterion {
            if !has_char_of(chars, U_LETTERS_CHARSET) {
                return false;
            }
        }
        if self.numbs || self.convenience_criterion {
            if !has_char_of(chars, NUMBERS_CHARSET) {
                return false;
            }
        }
        if self.spec_symbs || self.convenience_criterion {
            if !has_char_of(chars, SPEC_SYMB_CHARSET) {
                return false;
            }
        }
        true
    }

    /// Whether `pass` holds a character of every class that a password must
    /// hold one of: of each class that is asked for, and of all four
    /// classes while the preset is on.
    pub fn is_valid_pwd_by_consist(&self, pass: String) -> (r: bool)
        ensures
            r == self@.complies(pass@),
    {
        let chars = chars_of(pass.as_str());
        self.accepts(&chars)
    }

    /// Generates a password: draws candidates until one holds a character
    /// of every class that it must hold one of, and gives up after
    /// `ATTEMPT_LIMIT` candidates.
    ///
    /// Nothing is drawn where `refusal` names an error: that error is
    /// returned. Otherwise the password returned is a candidate that
    /// complies, or, where none of the candidates drawn did, the search
    /// ends with `UnsatisfiableConstraint`. Which candidates are drawn is a
    /// matter of chance; where every candidate complies, chance has no say
    /// and a password is returned.
    pub fn generate(&self) -> (r: Result<String, GenError>)
        ensures
            self@.refusal() matches Some(e) ==> r == Err::<String, GenError>(e),
            self@.refusal().is_none() ==> r.is_ok() || r == Err::<String, GenError>(
                GenError::UnsatisfiableConstraint,
            ),
            self@.refusal().is_none() && self@.every_candidate_complies() ==> r.is_ok(),
            r matches Ok(pwd) ==> {
                &&& self@.length() matches Some(n)
                &&& self@.is_candidate(n as nat, pwd@)
                &&& drawn_from(pwd@, self@.alphabet())
                &&& self@.complies(pwd@)
            },
    {
        let n = match self.validate_length() {
            Ok(n) => n,
            Err(e) => {
                return Err(e);
            },
        };
        let pools = self.pools();
        if pools.alphabet.len() == 0 {
            return Err(GenError::EmptyAlphabet);
        }
        if n < self.count_required_classes() {
            return Err(GenError::UnsatisfiableConstraint);
        }
        let mut rng = rand::thread_rng();
        let mut attempt: u32 = 0;
        while attempt < ATTEMPT_LIMIT
            invariant
                pools.of(self@),
                self@.length() == Some(n),
                self@.alphabet().len() > 0,
                self@.refusal().is_none(),
                self@.every_candidate_complies() ==> attempt == 0,
            decreases ATTEMPT_LIMIT - attempt,
        {
            let draws = self.draw(&pools, n as usize, &mut rng);
            let chars = self.select(&pools, &draws);
            proof {
                lemma_draws_select_candidate(self@, n as nat, draws@);
                assert(self@.is_candidate(n as nat, chars@));
            }
            if self.accepts(&chars) {
                return Ok(string_of(&chars));
            }
            attempt += 1;
        }
        Err(GenError::UnsatisfiableConstraint)
    }

    /// How many classes a password must hold a character of.
    pub fn count_required_classes(&self) -> (r: u32)
        ensures
            r == self@.required_classes(),
    {
        let mut count: u32 = 0;
        if self.letters || self.convenience_criterion {
            count += 1;
        }
        if self.u_letters || self.convenience_criterion {
            count += 1;
        }
        if self.numbs || self.convenience_criterion {
            count += 1;
        }
        if self.spec_symbs || self.convenience_criterion {
            count += 1;
        }
        count
    }
}

} // verus!
